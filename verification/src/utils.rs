//! Byte-level reads of the shared region.
//!
//! The wire format gives no alignment guarantee, so integers are read
//! little-endian byte by byte at arbitrary offsets. Names, descriptions,
//! units and the session document are stored as fixed-size byte arrays,
//! terminated by the first null byte; everything after that byte is garbage
//! and is discarded.

use vstd::prelude::*;
use vstd::slice::slice_subrange;

verus! {

/// Number of leading bytes before the first null byte (the whole length if
/// there is none).
pub open spec fn trimmed_len(s: Seq<u8>) -> int
    decreases s.len(),
{
    if s.len() == 0 {
        0
    } else if s[0] == 0 {
        0
    } else {
        1 + trimmed_len(s.drop_first())
    }
}

/// The prefix of `s` up to (excluding) the first null byte.
pub open spec fn null_trimmed(s: Seq<u8>) -> Seq<u8> {
    s.take(trimmed_len(s))
}

/// `trimmed_len` indeed points at the first null byte.
pub proof fn lemma_trimmed_len(s: Seq<u8>)
    ensures
        0 <= trimmed_len(s) <= s.len(),
        forall|j: int| 0 <= j < trimmed_len(s) ==> s[j] != 0,
        trimmed_len(s) < s.len() ==> s[trimmed_len(s)] == 0,
    decreases s.len(),
{
    if s.len() > 0 && s[0] != 0 {
        lemma_trimmed_len(s.drop_first());
        assert forall|j: int| 0 <= j < trimmed_len(s) implies s[j] != 0 by {
            if j > 0 {
                assert(s.drop_first()[j - 1] != 0);
            }
        }
        if trimmed_len(s) < s.len() {
            assert(s.drop_first()[trimmed_len(s) - 1] == 0);
        }
    }
}

/// Any index with only non-null bytes before it and a null byte (or the end)
/// at it is the trimmed length.
pub proof fn lemma_trimmed_len_is(s: Seq<u8>, n: int)
    requires
        0 <= n <= s.len(),
        forall|j: int| 0 <= j < n ==> s[j] != 0,
        n < s.len() ==> s[n] == 0,
    ensures
        trimmed_len(s) == n,
    decreases s.len(),
{
    if s.len() > 0 && s[0] != 0 {
        assert forall|j: int| 0 <= j < n - 1 implies s.drop_first()[j] != 0 by {
            assert(s[j + 1] != 0);
        }
        lemma_trimmed_len_is(s.drop_first(), n - 1);
    }
}

/// The little-endian 32-bit unsigned value stored at `off`.
pub open spec fn le_u32_at(s: Seq<u8>, off: int) -> u32 {
    (s[off] + s[off + 1] * 0x100 + s[off + 2] * 0x1_0000 + s[off + 3] * 0x100_0000) as u32
}

/// The little-endian 64-bit unsigned value stored at `off`.
pub open spec fn le_u64_at(s: Seq<u8>, off: int) -> u64 {
    (le_u32_at(s, off) + le_u32_at(s, off + 4) * 0x1_0000_0000) as u64
}

/// Reinterpretation of a 32-bit pattern as a two's-complement signed value.
pub open spec fn i32_of_u32(x: u32) -> i32 {
    if x < 0x8000_0000 {
        x as i32
    } else {
        (x - 0x1_0000_0000) as i32
    }
}

/// The little-endian 32-bit signed value stored at `off`.
pub open spec fn le_i32_at(s: Seq<u8>, off: int) -> i32 {
    i32_of_u32(le_u32_at(s, off))
}

/// Reads a little-endian `u32` out of `b` at byte offset `off`.
pub fn read_u32_le(b: &[u8], off: usize) -> (x: u32)
    requires
        off + 4 <= b@.len(),
    ensures
        x == le_u32_at(b@, off as int),
{
    let n = b.len();
    let b0 = *vstd::slice::slice_index_get(b, off) as u32;
    let b1 = *vstd::slice::slice_index_get(b, off + 1) as u32;
    let b2 = *vstd::slice::slice_index_get(b, off + 2) as u32;
    let b3 = *vstd::slice::slice_index_get(b, off + 3) as u32;
    b0 + b1 * 0x100 + b2 * 0x1_0000 + b3 * 0x100_0000
}

/// Reads a little-endian `u64` out of `b` at byte offset `off`.
pub fn read_u64_le(b: &[u8], off: usize) -> (x: u64)
    requires
        off + 8 <= b@.len(),
    ensures
        x == le_u64_at(b@, off as int),
{
    let n = b.len();
    let lo = read_u32_le(b, off) as u64;
    let hi = read_u32_le(b, off + 4) as u64;
    lo + hi * 0x1_0000_0000
}

/// Reads a little-endian `i32` out of `b` at byte offset `off`.
pub fn read_i32_le(b: &[u8], off: usize) -> (x: i32)
    requires
        off + 4 <= b@.len(),
    ensures
        x == le_i32_at(b@, off as int),
{
    let u = read_u32_le(b, off);
    if u >= 0x8000_0000 {
        let v: i64 = u as i64 - 0x1_0000_0000i64;
        v as i32
    } else {
        u as i32
    }
}

/// Reads the byte at `off`.
pub fn read_u8_at(b: &[u8], off: usize) -> (x: u8)
    requires
        off < b@.len(),
    ensures
        x == b@[off as int],
{
    *vstd::slice::slice_index_get(b, off)
}

/// What `String::from_utf8_lossy` decodes a byte sequence to.
pub uninterp spec fn utf8_lossy_of(bytes: Seq<u8>) -> Seq<char>;

/// Relies on `String::from_utf8_lossy`: valid UTF-8 decodes unchanged, so a
/// sequence of ASCII bytes decodes to exactly those characters.
#[verifier::external_body]
fn lossy_string(bytes: &[u8]) -> (s: String)
    ensures
        s@ == utf8_lossy_of(bytes@),
        (forall|i: int| 0 <= i < bytes@.len() ==> bytes@[i] < 128) ==> s@ == bytes@.map_values(
            |b: u8| b as char,
        ),
{
    String::from_utf8_lossy(bytes).into_owned()
}

/// Decodes a fixed-width text field: the bytes up to the first null byte,
/// read as (lossy) UTF-8. Trailing garbage after the null byte is ignored.
pub fn byte_array_to_rust_string(array: &[u8]) -> (s: String)
    ensures
        s@ == utf8_lossy_of(null_trimmed(array@)),
        (forall|i: int| 0 <= i < null_trimmed(array@).len() ==> null_trimmed(array@)[i] < 128)
            ==> s@ == null_trimmed(array@).map_values(|b: u8| b as char),
{
    let len = array.len();
    let mut i: usize = 0;
    while i < len && *vstd::slice::slice_index_get(array, i) != 0
        invariant
            0 <= i <= len,
            len == array@.len(),
            forall|j: int| 0 <= j < i ==> array@[j] != 0,
        decreases len - i,
    {
        i = i + 1;
    }
    proof {
        lemma_trimmed_len_is(array@, i as int);
        assert(array@.subrange(0, i as int) == null_trimmed(array@));
    }
    let prefix = slice_subrange(array, 0, i);
    lossy_string(prefix)
}

} // verus!
