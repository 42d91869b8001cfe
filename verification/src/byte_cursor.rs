use crate::cursor::{Cursor, CursorView, Reading};
use crate::error::ParseError;
use crate::varuint::{read_varuint_at, varuint_reading};
use vstd::prelude::*;

verus! {

/// A cursor over bytes held in memory.
///
/// The position is free: it may stand behind the last byte, where every
/// read fails with `UnexpectedEnd`.
#[derive(Debug)]
pub struct ByteCursor {
    bytes: Vec<u8>,
    pos: usize,
}

impl ByteCursor {
    /// A cursor at the start of `bytes`.
    pub fn new(bytes: Vec<u8>) -> (cursor: ByteCursor)
        ensures
            cursor@.data == bytes@,
            cursor@.pos == 0,
    {
        ByteCursor { bytes, pos: 0 }
    }

    /// Gives the bytes back.
    pub fn into_bytes(self) -> (bytes: Vec<u8>)
        ensures
            bytes@ == self@.data,
    {
        self.bytes
    }
}

impl Cursor for ByteCursor {
    closed spec fn view(&self) -> CursorView {
        CursorView { data: self.bytes@, pos: self.pos as nat }
    }

    open spec fn reading(data: Seq<u8>, pos: nat) -> Reading {
        varuint_reading(data, pos)
    }

    fn position(&self) -> (pos: usize) {
        self.pos
    }

    fn set_position(&mut self, pos: usize) {
        self.pos = pos;
    }

    fn read_varuint(&mut self) -> (r: Result<u32, ParseError>) {
        let (value, next) = read_varuint_at(self.bytes.as_slice(), self.pos);
        self.pos = next;
        value
    }
}

} // verus!
