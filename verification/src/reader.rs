//! Executable byte-stream primitives: little-endian scalar reads,
//! zero-terminated text runs, and a UTF-8 validity check. Each read is
//! proved to return exactly the value that [`crate::spec_parse`] assigns
//! to its position, and to advance the cursor by exactly its width.

use vstd::prelude::*;
use vstd::bytes::{u16_from_le_bytes, u32_from_le_bytes, u64_from_le_bytes};
use vstd::slice::{slice_subrange, slice_to_vec};
use vstd::utf8::{
    partial_valid_partial_invalid_utf8, partial_valid_utf8, partial_valid_utf8_extend,
    valid_first_scalar, valid_utf8,
};
use crate::errors::DecodeError;
use crate::model::Float32;
use crate::spec_parse::{find_nul, le16, le32, le64, lef32, lei32, sp_estr, sp_zstr};

verus! {

/// Reads the byte under the cursor.
pub fn read_u8(s: &Vec<u8>, pos: &mut usize) -> (r: Result<u8, DecodeError>)
    requires
        *old(pos) <= s@.len(),
    ensures
        *old(pos) <= *final(pos) <= s@.len(),
        match r {
            Ok(b) => *old(pos) + 1 <= s@.len() && b == s@[*old(pos) as int] && *final(pos)
                == *old(pos) + 1,
            Err(e) => e == DecodeError::ShortRead && *old(pos) + 1 > s@.len() && *final(pos)
                == *old(pos),
        },
{
    if s.len() - *pos >= 1 {
        let b = s[*pos];
        *pos = *pos + 1;
        Ok(b)
    } else {
        Err(DecodeError::ShortRead)
    }
}

/// Reads a 16-bit little-endian value.
pub fn read_u16(s: &Vec<u8>, pos: &mut usize) -> (r: Result<u16, DecodeError>)
    requires
        *old(pos) <= s@.len(),
    ensures
        *old(pos) <= *final(pos) <= s@.len(),
        match r {
            Ok(v) => *old(pos) + 2 <= s@.len() && v == le16(s@, *old(pos) as int) && *final(pos)
                == *old(pos) + 2,
            Err(e) => e == DecodeError::ShortRead && *old(pos) + 2 > s@.len() && *final(pos)
                == *old(pos),
        },
{
    if s.len() - *pos >= 2 {
        let sub = slice_subrange(s.as_slice(), *pos, *pos + 2);
        let v = u16_from_le_bytes(sub);
        *pos = *pos + 2;
        Ok(v)
    } else {
        Err(DecodeError::ShortRead)
    }
}

/// Reads a 32-bit little-endian value.
pub fn read_u32(s: &Vec<u8>, pos: &mut usize) -> (r: Result<u32, DecodeError>)
    requires
        *old(pos) <= s@.len(),
    ensures
        *old(pos) <= *final(pos) <= s@.len(),
        match r {
            Ok(v) => *old(pos) + 4 <= s@.len() && v == le32(s@, *old(pos) as int) && *final(pos)
                == *old(pos) + 4,
            Err(e) => e == DecodeError::ShortRead && *old(pos) + 4 > s@.len() && *final(pos)
                == *old(pos),
        },
{
    if s.len() - *pos >= 4 {
        let sub = slice_subrange(s.as_slice(), *pos, *pos + 4);
        let v = u32_from_le_bytes(sub);
        *pos = *pos + 4;
        Ok(v)
    } else {
        Err(DecodeError::ShortRead)
    }
}

/// Reads a 64-bit little-endian value.
pub fn read_u64(s: &Vec<u8>, pos: &mut usize) -> (r: Result<u64, DecodeError>)
    requires
        *old(pos) <= s@.len(),
    ensures
        *old(pos) <= *final(pos) <= s@.len(),
        match r {
            Ok(v) => *old(pos) + 8 <= s@.len() && v == le64(s@, *old(pos) as int) && *final(pos)
                == *old(pos) + 8,
            Err(e) => e == DecodeError::ShortRead && *old(pos) + 8 > s@.len() && *final(pos)
                == *old(pos),
        },
{
    if s.len() - *pos >= 8 {
        let sub = slice_subrange(s.as_slice(), *pos, *pos + 8);
        let v = u64_from_le_bytes(sub);
        *pos = *pos + 8;
        Ok(v)
    } else {
        Err(DecodeError::ShortRead)
    }
}

/// Reads a 32-bit little-endian value, reinterpreted as signed.
pub fn read_i32(s: &Vec<u8>, pos: &mut usize) -> (r: Result<i32, DecodeError>)
    requires
        *old(pos) <= s@.len(),
    ensures
        *old(pos) <= *final(pos) <= s@.len(),
        match r {
            Ok(v) => *old(pos) + 4 <= s@.len() && v == lei32(s@, *old(pos) as int) && *final(pos)
                == *old(pos) + 4,
            Err(e) => e == DecodeError::ShortRead && *old(pos) + 4 > s@.len() && *final(pos)
                == *old(pos),
        },
{
    match read_u32(s, pos) {
        Ok(v) => Ok(v as i32),
        Err(e) => Err(e),
    }
}

/// Reads a 32-bit little-endian value as a float bit pattern.
pub fn read_f32(s: &Vec<u8>, pos: &mut usize) -> (r: Result<Float32, DecodeError>)
    requires
        *old(pos) <= s@.len(),
    ensures
        *old(pos) <= *final(pos) <= s@.len(),
        match r {
            Ok(v) => *old(pos) + 4 <= s@.len() && v == lef32(s@, *old(pos) as int) && *final(pos)
                == *old(pos) + 4,
            Err(e) => e == DecodeError::ShortRead && *old(pos) + 4 > s@.len() && *final(pos)
                == *old(pos),
        },
{
    match read_u32(s, pos) {
        Ok(v) => Ok(Float32 { bits: v }),
        Err(e) => Err(e),
    }
}

/// Reads `n` raw bytes.
pub fn read_bytes(s: &Vec<u8>, pos: &mut usize, n: usize) -> (r: Result<Vec<u8>, DecodeError>)
    requires
        *old(pos) <= s@.len(),
    ensures
        *old(pos) <= *final(pos) <= s@.len(),
        match r {
            Ok(v) => *old(pos) + n <= s@.len() && v@ == s@.subrange(
                *old(pos) as int,
                *old(pos) + n,
            ) && *final(pos) == *old(pos) + n,
            Err(e) => e == DecodeError::ShortRead && *old(pos) + n > s@.len() && *final(pos)
                == *old(pos),
        },
{
    if s.len() - *pos >= n {
        let sub = slice_subrange(s.as_slice(), *pos, *pos + n);
        let v = slice_to_vec(sub);
        *pos = *pos + n;
        Ok(v)
    } else {
        Err(DecodeError::ShortRead)
    }
}

/// Checks whether `s[from..to]` is valid UTF-8, per the UTF-8 model of vstd.
pub fn check_utf8(s: &Vec<u8>, from: usize, to: usize) -> (r: bool)
    requires
        from <= to <= s@.len(),
    ensures
        r == valid_utf8(s@.subrange(from as int, to as int)),
{
    let ghost b = s@.subrange(from as int, to as int);
    let mut i: usize = from;
    while i < to
        invariant
            from <= i <= to <= s@.len(),
            b == s@.subrange(from as int, to as int),
            partial_valid_utf8(b, i - from),
        decreases to - i,
    {
        let ghost suffix = b.subrange(i - from, b.len() as int);
        proof {
            assert forall|k: int| 0 <= k < suffix.len() implies suffix[k] == s@[i + k] by {
                assert(suffix[k] == b[i - from + k]);
            }
        }
        let b0 = s[i];
        assert(b0 == suffix[0]);
        let width: usize;
        if b0 < 0x80 {
            // one-byte scalar
            assert(((b0 & 0x7f) as u32) < 0x800) by (bit_vector);
            assert(valid_first_scalar(suffix));
            width = 1;
        } else if 0xc0 <= b0 && b0 <= 0xdf {
            if to - i < 2 || !(0x80 <= s[i + 1] && s[i + 1] <= 0xbf) {
                proof {
                    lemma_invalid_suffix(b, i - from);
                }
                return false;
            }
            let b1 = s[i + 1];
            assert(b1 == suffix[1]);
            let cp: u32 = (((b0 & 0x1f) as u32) << 6) | ((b1 & 0x3f) as u32);
            if cp < 0x80 {
                proof {
                    lemma_invalid_suffix(b, i - from);
                }
                return false;
            }
            assert((((b0 & 0x1f) as u32) << 6) | ((b1 & 0x3f) as u32) < 0x800) by (bit_vector);
            assert(valid_first_scalar(suffix));
            width = 2;
        } else if 0xe0 <= b0 && b0 <= 0xef {
            if to - i < 3 || !(0x80 <= s[i + 1] && s[i + 1] <= 0xbf) || !(0x80 <= s[i + 2] && s[i
                + 2] <= 0xbf) {
                proof {
                    lemma_invalid_suffix(b, i - from);
                }
                return false;
            }
            let b1 = s[i + 1];
            let b2 = s[i + 2];
            assert(b1 == suffix[1] && b2 == suffix[2]);
            let cp: u32 = (((b0 & 0x0f) as u32) << 12) | (((b1 & 0x3f) as u32) << 6) | ((b2
                & 0x3f) as u32);
            if cp < 0x800 || (0xd800 <= cp && cp <= 0xdfff) {
                proof {
                    lemma_invalid_suffix(b, i - from);
                }
                return false;
            }
            assert(valid_first_scalar(suffix));
            width = 3;
        } else if 0xf0 <= b0 && b0 <= 0xf7 {
            if to - i < 4 || !(0x80 <= s[i + 1] && s[i + 1] <= 0xbf) || !(0x80 <= s[i + 2] && s[i
                + 2] <= 0xbf) || !(0x80 <= s[i + 3] && s[i + 3] <= 0xbf) {
                proof {
                    lemma_invalid_suffix(b, i - from);
                }
                return false;
            }
            let b1 = s[i + 1];
            let b2 = s[i + 2];
            let b3 = s[i + 3];
            assert(b1 == suffix[1] && b2 == suffix[2] && b3 == suffix[3]);
            let cp: u32 = (((b0 & 0x07) as u32) << 18) | (((b1 & 0x3f) as u32) << 12) | (((b2
                & 0x3f) as u32) << 6) | ((b3 & 0x3f) as u32);
            if cp < 0x10000 || cp > 0x10ffff {
                proof {
                    lemma_invalid_suffix(b, i - from);
                }
                return false;
            }
            assert(valid_first_scalar(suffix));
            width = 4;
        } else {
            // a stray continuation byte or an impossible leading byte
            assert(!valid_first_scalar(suffix));
            proof {
                lemma_invalid_suffix(b, i - from);
            }
            return false;
        }
        proof {
            partial_valid_utf8_extend(b, i - from);
        }
        i = i + width;
    }
    proof {
        assert(b.subrange(0, b.len() as int) =~= b);
    }
    true
}

/// A byte run whose first scalar is malformed poisons the whole run.
proof fn lemma_invalid_suffix(b: Seq<u8>, i: int)
    requires
        partial_valid_utf8(b, i),
        i < b.len(),
        !valid_first_scalar(b.subrange(i, b.len() as int)),
    ensures
        !valid_utf8(b),
{
    let suffix = b.subrange(i, b.len() as int);
    assert(suffix.len() > 0);
    assert(!valid_utf8(suffix));
    partial_valid_partial_invalid_utf8(b, i);
}

/// Reads a zero-terminated UTF-8 text run; the result excludes the
/// terminator.
pub fn read_zstr(s: &Vec<u8>, pos: &mut usize) -> (r: Result<Vec<u8>, DecodeError>)
    requires
        *old(pos) <= s@.len(),
    ensures
        *old(pos) <= *final(pos) <= s@.len(),
        match r {
            Ok(v) => sp_zstr(s@, *old(pos) as int) == Ok::<(Seq<u8>, int), DecodeError>(
                (v@, *final(pos) as int),
            ),
            Err(e) => sp_zstr(s@, *old(pos) as int) == Err::<(Seq<u8>, int), DecodeError>(e),
        },
{
    let start: usize = *pos;
    let mut q: usize = start;
    while q < s.len() && s[q] != 0
        invariant
            start <= q <= s@.len(),
            find_nul(s@, start as int) == find_nul(s@, q as int),
        decreases s@.len() - q,
    {
        q = q + 1;
    }
    if q >= s.len() {
        return Err(DecodeError::ShortRead);
    }
    assert(find_nul(s@, start as int) == Some(q as int));
    if !check_utf8(s, start, q) {
        return Err(DecodeError::InvalidUtf8);
    }
    let sub = slice_subrange(s.as_slice(), start, q);
    let v = slice_to_vec(sub);
    *pos = q + 1;
    Ok(v)
}

/// Reads a zero-terminated raw byte run; the result includes the
/// terminator and is not UTF-8 checked.
pub fn read_estr(s: &Vec<u8>, pos: &mut usize) -> (r: Result<Vec<u8>, DecodeError>)
    requires
        *old(pos) <= s@.len(),
    ensures
        *old(pos) <= *final(pos) <= s@.len(),
        match r {
            Ok(v) => sp_estr(s@, *old(pos) as int) == Ok::<(Seq<u8>, int), DecodeError>(
                (v@, *final(pos) as int),
            ),
            Err(e) => sp_estr(s@, *old(pos) as int) == Err::<(Seq<u8>, int), DecodeError>(e),
        },
{
    let start: usize = *pos;
    let mut q: usize = start;
    while q < s.len() && s[q] != 0
        invariant
            start <= q <= s@.len(),
            find_nul(s@, start as int) == find_nul(s@, q as int),
        decreases s@.len() - q,
    {
        q = q + 1;
    }
    if q >= s.len() {
        return Err(DecodeError::ShortRead);
    }
    assert(find_nul(s@, start as int) == Some(q as int));
    let sub = slice_subrange(s.as_slice(), start, q + 1);
    let v = slice_to_vec(sub);
    *pos = q + 1;
    Ok(v)
}

} // verus!
