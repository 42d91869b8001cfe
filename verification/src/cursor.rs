use crate::error::ParseError;
use vstd::prelude::*;

verus! {

/// What a cursor stands for: the bytes it reads from and its place in them.
pub struct CursorView {
    pub data: Seq<u8>,
    pub pos: nat,
}

/// What one read of a variable-length integer gives: the integer or the
/// reason why there is none, and the position at which the read leaves the
/// cursor.
pub struct Reading {
    pub value: Result<u32, ParseError>,
    pub next: nat,
}

/// A read position in a stream of bytes that can be saved and restored.
///
/// The bytes under a cursor never change. A read is a function of the bytes
/// and the position alone, so going back to a saved position undoes every
/// read made since.
pub trait Cursor {
    /// The bytes and the current position.
    spec fn view(&self) -> CursorView;

    /// The encoding of variable-length integers: what a read gives when the
    /// cursor stands at `pos` in `data`.
    spec fn reading(data: Seq<u8>, pos: nat) -> Reading;

    /// The current position.
    fn position(&self) -> (pos: usize)
        ensures
            pos == self@.pos,
    ;

    /// Moves the cursor to `pos`.
    fn set_position(&mut self, pos: usize)
        ensures
            final(self)@.data == old(self)@.data,
            final(self)@.pos == pos,
    ;

    /// Reads one variable-length unsigned integer and moves past it.
    fn read_varuint(&mut self) -> (r: Result<u32, ParseError>)
        ensures
            final(self)@.data == old(self)@.data,
            final(self)@.pos == Self::reading(old(self)@.data, old(self)@.pos).next,
            r == Self::reading(old(self)@.data, old(self)@.pos).value,
    ;
}

} // verus!
