use block_tag::{ParseError, TagType};

const ALL: [TagType; 5] =
    [TagType::ID, TagType::Length4, TagType::Byte8, TagType::Byte4, TagType::Byte1];

#[test]
fn codes_follow_the_table() {
    assert_eq!(TagType::Byte1.code(), 0x1);
    assert_eq!(TagType::Byte4.code(), 0x4);
    assert_eq!(TagType::Byte8.code(), 0x8);
    assert_eq!(TagType::Length4.code(), 0xC);
    assert_eq!(TagType::ID.code(), 0xF);
}

#[test]
fn valid_codes_translate_to_their_types() {
    assert_eq!(TagType::try_from(0x1u32), Ok(TagType::Byte1));
    assert_eq!(TagType::try_from(0x4u32), Ok(TagType::Byte4));
    assert_eq!(TagType::try_from(0x8u32), Ok(TagType::Byte8));
    assert_eq!(TagType::try_from(0xCu32), Ok(TagType::Length4));
    assert_eq!(TagType::try_from(0xFu32), Ok(TagType::ID));
}

#[test]
fn code_then_translate_is_identity() {
    for tag_type in ALL {
        assert_eq!(TagType::try_from(tag_type.code()), Ok(tag_type));
    }
}

#[test]
fn translate_then_code_is_identity() {
    for value in 0u32..16 {
        if let Ok(tag_type) = TagType::try_from(value) {
            assert_eq!(tag_type.code(), value);
        }
    }
}

#[test]
fn distinct_types_have_distinct_codes() {
    for (i, a) in ALL.iter().enumerate() {
        for (j, b) in ALL.iter().enumerate() {
            assert_eq!(a.code() == b.code(), i == j);
        }
    }
}

#[test]
fn other_four_bit_values_are_invalid() {
    for value in [0x0u32, 0x2, 0x3, 0x5, 0x6, 0x7, 0x9, 0xA, 0xB, 0xD, 0xE] {
        assert_eq!(TagType::try_from(value), Err(ParseError::InvalidTag { value }));
    }
}

#[test]
fn exactly_five_four_bit_values_are_valid() {
    let valid = (0u32..16).filter(|v| TagType::try_from(*v).is_ok()).count();
    assert_eq!(valid, 5);
}

#[test]
fn values_above_four_bits_are_invalid() {
    for value in [0x10u32, 0x11, 0x14, 0x1F, 0xFF, 0x100, u32::MAX] {
        assert_eq!(TagType::try_from(value), Err(ParseError::InvalidTag { value }));
    }
}
