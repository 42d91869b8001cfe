use crate::cursor::Reading;
use crate::error::ParseError;
use vstd::prelude::*;

verus! {

/// 128 to the power of `n`.
pub open spec fn pow128(n: nat) -> nat
    decreases n,
{
    if n == 0 {
        1
    } else {
        128 * pow128((n - 1) as nat)
    }
}

/// The number that the bytes from `from` up to, not including, `to` spell:
/// each byte gives its low seven bits, the first byte the lowest seven.
pub open spec fn group_value(data: Seq<u8>, from: nat, to: nat) -> nat
    decreases to,
{
    if to <= from || to > data.len() {
        0
    } else {
        group_value(data, from, (to - 1) as nat) + (data[to - 1] % 128) as nat * pow128(
            (to - 1 - from) as nat,
        )
    }
}

/// Where the integer that starts at `from` ends: the position behind the
/// first byte, at `from` or after it, whose top bit is clear. `None` where
/// every byte from `from` on has its top bit set, or there is no byte.
pub open spec fn group_end(data: Seq<u8>, from: nat) -> Option<nat>
    decreases data.len() - from,
{
    if from >= data.len() {
        None
    } else if data[from as int] < 0x80 {
        Some(from + 1)
    } else {
        group_end(data, from + 1)
    }
}

/// What reading one integer at `pos` gives.
///
/// An integer is a run of bytes of which the last, and only the last, has
/// its top bit clear. Where the input ends before such a byte, the read
/// fails with `UnexpectedEnd` and uses up what input there is. Otherwise the
/// read moves behind the run, and gives the number that the run spells, or
/// `VarUintOverflow` where that number is above `u32::MAX`.
pub open spec fn varuint_reading(data: Seq<u8>, pos: nat) -> Reading {
    match group_end(data, pos) {
        None => Reading {
            value: Err(ParseError::UnexpectedEnd),
            next: if pos <= data.len() {
                data.len()
            } else {
                pos
            },
        },
        Some(end) => Reading {
            value: if group_value(data, pos, end) <= u32::MAX {
                Ok(group_value(data, pos, end) as u32)
            } else {
                Err(ParseError::VarUintOverflow)
            },
            next: end,
        },
    }
}

/// Reads the integer that starts at `pos` in `bytes`. Gives what the read
/// found and the position at which it stopped.
pub fn read_varuint_at(bytes: &[u8], pos: usize) -> (r: (Result<u32, ParseError>, usize))
    ensures
        r.0 == varuint_reading(bytes@, pos as nat).value,
        r.1 == varuint_reading(bytes@, pos as nat).next,
        pos <= r.1,
        r.0 is Ok ==> pos < r.1 <= bytes@.len(),
{
    let len: usize = bytes.len();
    if pos >= len {
        return (Err(ParseError::UnexpectedEnd), pos);
    }
    let mut i: usize = pos;
    // The number read so far, as long as it fits.
    let mut acc: u64 = 0;
    let mut fits: bool = true;
    // The weight of the next byte; it stops growing at 2^35, from where on
    // any bit that is set is one too many.
    let mut scale: u64 = 1;
    while i < len
        invariant
            len == bytes@.len(),
            pos <= i <= len,
            group_end(bytes@, pos as nat) == group_end(bytes@, i as nat),
            scale <= 0x8_0000_0000,
            scale < 0x8_0000_0000 ==> scale == pow128((i - pos) as nat),
            scale == 0x8_0000_0000 ==> pow128((i - pos) as nat) >= 0x8_0000_0000,
            fits ==> acc == group_value(bytes@, pos as nat, i as nat) && acc <= u32::MAX,
            !fits ==> group_value(bytes@, pos as nat, i as nat) > u32::MAX,
        decreases len - i,
    {
        let b: u8 = bytes[i];
        let digit: u64 = (b & 0x7f) as u64;
        proof {
            assert(b & 0x7f == b % 128) by (bit_vector);
            let weight: nat = pow128((i - pos) as nat);
            assert(digit != 0 && weight >= 0x8_0000_0000 ==> digit * weight >= 0x8_0000_0000)
                by (nonlinear_arith)
                requires
                    digit >= 0,
            ;
            assert(scale < 0x8_0000_0000 ==> digit * scale <= 127 * 0x8_0000_0000)
                by (nonlinear_arith)
                requires
                    digit <= 127,
            ;
            assert(digit == 0 ==> digit * weight == 0) by (nonlinear_arith);
        }
        if fits {
            if scale < 0x8_0000_0000 {
                let sum: u64 = acc + digit * scale;
                if sum > 0xffff_ffff {
                    fits = false;
                } else {
                    acc = sum;
                }
            } else if digit != 0 {
                fits = false;
            }
        }
        if scale < 0x8_0000_0000 {
            scale = scale * 128;
            if scale > 0x8_0000_0000 {
                scale = 0x8_0000_0000;
            }
        }
        i = i + 1;
        if b < 0x80 {
            if fits {
                return (Ok(acc as u32), i);
            } else {
                return (Err(ParseError::VarUintOverflow), i);
            }
        }
    }
    (Err(ParseError::UnexpectedEnd), len)
}

} // verus!
