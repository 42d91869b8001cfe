use crate::error::ParseError;
use vstd::prelude::*;
use vstd::std_specs::convert::TryFromSpecImpl;

verus! {

/// The shape of the value that follows a tag.
#[derive(Debug, Clone, Copy, PartialEq, Eq, Structural)]
pub enum TagType {
    ID,
    Length4,
    Byte8,
    Byte4,
    Byte1,
}

impl TagType {
    /// The four-bit code that stands for a tag type in the encoded tag.
    pub open spec fn code_spec(self) -> nat {
        match self {
            TagType::Byte1 => 0x1,
            TagType::Byte4 => 0x4,
            TagType::Byte8 => 0x8,
            TagType::Length4 => 0xC,
            TagType::ID => 0xF,
        }
    }

    /// The tag type that `code` stands for, if it stands for one.
    pub open spec fn of_code(code: nat) -> Option<TagType> {
        if code == 0x1 {
            Some(TagType::Byte1)
        } else if code == 0x4 {
            Some(TagType::Byte4)
        } else if code == 0x8 {
            Some(TagType::Byte8)
        } else if code == 0xC {
            Some(TagType::Length4)
        } else if code == 0xF {
            Some(TagType::ID)
        } else {
            None
        }
    }

    /// What translating `value` into a tag type gives: the tag type that
    /// `value` stands for, or `InvalidTag` with the value.
    pub open spec fn translate(value: u32) -> Result<TagType, ParseError> {
        match TagType::of_code(value as nat) {
            Some(tag_type) => Ok(tag_type),
            None => Err(ParseError::InvalidTag { value }),
        }
    }

    /// The four-bit code of this tag type.
    pub fn code(&self) -> (c: u32)
        ensures
            c == self.code_spec(),
            TagType::of_code(c as nat) == Some(*self),
    {
        match self {
            TagType::Byte1 => 0x1,
            TagType::Byte4 => 0x4,
            TagType::Byte8 => 0x8,
            TagType::Length4 => 0xC,
            TagType::ID => 0xF,
        }
    }
}

impl TryFrom<u32> for TagType {
    type Error = ParseError;

    /// Translates a code into its tag type. A value outside the table is
    /// rejected with `InvalidTag`, which carries the value.
    fn try_from(value: u32) -> (r: Result<TagType, ParseError>)
        ensures
            r == TagType::translate(value),
            r is Ok <==> TagType::of_code(value as nat) is Some,
            r matches Ok(tag_type) ==> tag_type.code_spec() == value,
            r matches Err(e) ==> e == (ParseError::InvalidTag { value }),
    {
        match value {
            0x1 => Ok(TagType::Byte1),
            0x4 => Ok(TagType::Byte4),
            0x8 => Ok(TagType::Byte8),
            0xC => Ok(TagType::Length4),
            0xF => Ok(TagType::ID),
            _ => Err(ParseError::InvalidTag { value }),
        }
    }
}

impl TryFromSpecImpl<u32> for TagType {
    open spec fn obeys_try_from_spec() -> bool {
        true
    }

    open spec fn try_from_spec(value: u32) -> Result<TagType, ParseError> {
        TagType::translate(value)
    }
}

/// Translating the code of a tag type gives that tag type back.
pub proof fn code_round_trip(tag_type: TagType)
    ensures
        TagType::of_code(tag_type.code_spec()) == Some(tag_type),
        TagType::translate(tag_type.code_spec() as u32) == Ok::<TagType, ParseError>(tag_type),
{
}

/// A code that stands for a tag type is the code of that tag type, so no
/// two codes stand for the same one.
pub proof fn code_of_translated(code: nat)
    requires
        TagType::of_code(code) is Some,
    ensures
        TagType::of_code(code).unwrap().code_spec() == code,
{
}

/// Two tag types with the same code are the same tag type.
pub proof fn codes_are_distinct(a: TagType, b: TagType)
    requires
        a.code_spec() == b.code_spec(),
    ensures
        a == b,
{
}

/// Five values are codes: 0x1, 0x4, 0x8, 0xC and 0xF. Every other value is
/// rejected as an invalid tag, and the error carries the value.
pub proof fn valid_codes(value: u32)
    ensures
        TagType::translate(value) is Ok <==> value == 0x1 || value == 0x4 || value == 0x8
            || value == 0xC || value == 0xF,
        TagType::translate(value) is Err ==> TagType::translate(value) == Err::<
            TagType,
            ParseError,
        >(ParseError::InvalidTag { value }),
{
}

} // verus!
