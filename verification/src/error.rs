use crate::tag_type::TagType;
use vstd::prelude::*;

verus! {

/// Why a tag could not be read, or did not have the expected shape.
#[derive(Debug, Clone, Copy, PartialEq, Eq, Structural)]
#[allow(inconsistent_fields)]
pub enum ParseError {
    /// The input ended before the last byte of an integer.
    UnexpectedEnd,
    /// An integer in the input does not fit into 32 bits.
    VarUintOverflow,
    /// The four-bit code `value` names no tag type.
    InvalidTag { value: u32 },
    /// A tag has the type `given` where `expected` was asked for.
    TagTypeMismatch { given: TagType, expected: TagType },
    /// A tag has the index `given` where `expected` was asked for.
    TagIndexMismatch { given: u32, expected: u32 },
}

} // verus!
