use crate::cursor::Cursor;
use crate::error::ParseError;
use crate::tag_type::TagType;
use vstd::prelude::*;

verus! {

/// The header of an element: which field it is and what shape its value has.
///
/// The index is as wide as the integer that a cursor reads, 32 bits, so that
/// no bit of an encoded tag is dropped; an index read from a cursor is below
/// 2^28.
#[derive(Debug, Clone, Copy, PartialEq, Eq, Structural)]
pub struct Tag {
    pub index: u32,
    pub tag_type: TagType,
}

impl Tag {
    /// The tag that the integer `x` encodes: the low four bits are the code
    /// of the type, the bits above them are the index.
    pub open spec fn decode(x: u32) -> Result<Tag, ParseError> {
        match TagType::of_code((x % 16) as nat) {
            Some(tag_type) => Ok(Tag { index: (x / 16) as u32, tag_type }),
            None => Err(ParseError::InvalidTag { value: (x % 16) as u32 }),
        }
    }

    /// What `validate` answers.
    pub open spec fn check(self, tag_type: TagType, index: u32) -> Result<(), ParseError> {
        if self.tag_type != tag_type {
            Err(ParseError::TagTypeMismatch { given: self.tag_type, expected: tag_type })
        } else if self.index != index {
            Err(ParseError::TagIndexMismatch { given: self.index, expected: index })
        } else {
            Ok(())
        }
    }

    /// What reading a tag gives, from what reading its integer gave.
    pub open spec fn parsed(read: Result<u32, ParseError>) -> Result<Tag, ParseError> {
        match read {
            Ok(x) => Tag::decode(x),
            Err(e) => Err(e),
        }
    }

    /// Splits an integer into a tag.
    pub fn from_varuint(x: u32) -> (r: Result<Tag, ParseError>)
        ensures
            r == Tag::decode(x),
            r is Ok <==> TagType::of_code((x & 0xF) as nat) is Some,
            r matches Ok(tag) ==> tag.index == x >> 4 && tag.tag_type.code_spec() == x & 0xF,
            r matches Ok(tag) ==> tag.index < 0x1000_0000,
            r matches Err(e) ==> e == (ParseError::InvalidTag { value: x & 0xF }),
    {
        let code: u32 = x & 0xF;
        let index: u32 = x >> 4;
        assert(x & 0xF == x % 16) by (bit_vector);
        assert(x >> 4 == x / 16) by (bit_vector);
        match TagType::try_from(code) {
            Ok(tag_type) => Ok(Tag { index, tag_type }),
            Err(e) => Err(e),
        }
    }

    /// Reads the tag at the cursor's position. The cursor is left where the
    /// read of the integer left it, whether or not the integer is a tag.
    pub fn parse<R: Cursor>(reader: &mut R) -> (r: Result<Tag, ParseError>)
        ensures
            final(reader)@.data == old(reader)@.data,
            final(reader)@.pos == R::reading(old(reader)@.data, old(reader)@.pos).next,
            r == Tag::parsed(R::reading(old(reader)@.data, old(reader)@.pos).value),
    {
        match reader.read_varuint() {
            Ok(x) => Tag::from_varuint(x),
            Err(e) => Err(e),
        }
    }

    /// Tells whether the next tag has the type `tag_type` and the index
    /// `tag_index`, and leaves the cursor where it was.
    pub fn has_tag<R: Cursor>(reader: &mut R, tag_type: TagType, tag_index: u32) -> (found: bool)
        ensures
            final(reader)@ == old(reader)@,
            found <==> Tag::parsed(R::reading(old(reader)@.data, old(reader)@.pos).value) == Ok::<
                Tag,
                ParseError,
            >(Tag { index: tag_index, tag_type }),
    {
        let pos: usize = reader.position();
        let found: bool = match Tag::parse(reader) {
            Ok(tag) => tag.validate(tag_type, tag_index).is_ok(),
            Err(_) => false,
        };
        reader.set_position(pos);
        found
    }

    /// Checks that the tag has the type `tag_type` and the index `index`.
    /// The type is compared first.
    pub fn validate(&self, tag_type: TagType, index: u32) -> (r: Result<(), ParseError>)
        ensures
            r == self.check(tag_type, index),
            r is Ok <==> self.tag_type == tag_type && self.index == index,
    {
        if self.tag_type != tag_type {
            return Err(ParseError::TagTypeMismatch { given: self.tag_type, expected: tag_type });
        }
        if self.index != index {
            return Err(ParseError::TagIndexMismatch { given: self.index, expected: index });
        }
        Ok(())
    }
}

/// Looking ahead is reading a tag and validating it: the next tag is the
/// expected one exactly when the read gives a tag and that tag passes
/// `validate`.
pub proof fn lookahead_is_read_then_validate(
    read: Result<u32, ParseError>,
    tag_type: TagType,
    index: u32,
)
    ensures
        Tag::parsed(read) == Ok::<Tag, ParseError>(Tag { index, tag_type }) <==> (Tag::parsed(
            read,
        ) matches Ok(tag) && tag.check(tag_type, index) is Ok),
{
}

/// The low four bits and the bits above them are the remainder and the
/// quotient of a division by 16.
pub proof fn decode_splits_bits(x: u32)
    ensures
        x & 0xF == x % 16,
        x >> 4 == x / 16,
        Tag::decode(x) matches Ok(tag) ==> tag.index == x >> 4 && TagType::of_code(
            (x & 0xF) as nat,
        ) == Some(tag.tag_type),
        Tag::decode(x) is Err <==> TagType::of_code((x & 0xF) as nat) is None,
{
    assert(x & 0xF == x % 16) by (bit_vector);
    assert(x >> 4 == x / 16) by (bit_vector);
}

} // verus!
