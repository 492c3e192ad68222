//! Physical wire types and the raw decoding of frame bytes.
//!
//! A frame is an opaque byte buffer; a variable descriptor gives the offset,
//! element width and count of one variable inside it. Decoding performs
//! bounds-checked, unaligned little-endian reads and never panics on
//! malformed descriptors. Encoding is the exact inverse on the bytes each
//! element occupies.

use vstd::prelude::*;
use vstd::arithmetic::div_mod::{
    lemma_fundamental_div_mod_converse_div, lemma_fundamental_div_mod_converse_mod,
};
use crate::types::IrValue;
use crate::utils::{i32_of_u32, le_i32_at, le_u32_at, le_u64_at, read_i32_le, read_u32_le,
    read_u64_le, read_u8_at};
use crate::var_header::VarHeader;

verus! {

/// Physical type of a variable as declared by its catalog record.
///
/// `ETCount` is the sentinel at the end of the producer's type enumeration;
/// it carries no data of its own. Unrecognized type codes are decoded to it
/// so that a corrupt record never crashes the reader (it fails closed).
#[derive(Debug, Clone, Copy, PartialEq, Eq, Structural)]
pub enum DataVarType {
    Char,
    Bool,
    Int,
    BitField,
    Float,
    Double,
    ETCount,
}

/// The physical type a catalog record's type code denotes. Unrecognized
/// codes decode to the sentinel `ETCount`, which carries no data.
pub open spec fn type_from_code(code: i32) -> DataVarType {
    if code == 0 {
        DataVarType::Char
    } else if code == 1 {
        DataVarType::Bool
    } else if code == 2 {
        DataVarType::Int
    } else if code == 3 {
        DataVarType::BitField
    } else if code == 4 {
        DataVarType::Float
    } else if code == 5 {
        DataVarType::Double
    } else {
        DataVarType::ETCount
    }
}

impl DataVarType {
    /// Width in bytes of one element of this physical type.
    pub open spec fn size_spec(&self) -> int {
        match self {
            DataVarType::Char => 1,
            DataVarType::Bool => 1,
            DataVarType::Int => 4,
            DataVarType::BitField => 4,
            DataVarType::Float => 4,
            DataVarType::Double => 8,
            DataVarType::ETCount => 8,
        }
    }

    /// Width in bytes of one element of this physical type. The sentinel
    /// `ETCount` is given the width of a pointer-sized word, as the
    /// producer's headers declare.
    pub fn amount_of_bytes(&self) -> (n: usize)
        ensures
            n == self.size_spec(),
    {
        match self {
            DataVarType::Char => 1,
            DataVarType::Bool => 1,
            DataVarType::Int => 4,
            DataVarType::BitField => 4,
            DataVarType::Float => 4,
            DataVarType::Double => 8,
            DataVarType::ETCount => 8,
        }
    }

    /// Decodes a catalog record's type code, failing closed on codes this
    /// reader does not know.
    pub fn from_code(code: i32) -> (t: DataVarType)
        ensures
            t == type_from_code(code),
    {
        if code == 0 {
            DataVarType::Char
        } else if code == 1 {
            DataVarType::Bool
        } else if code == 2 {
            DataVarType::Int
        } else if code == 3 {
            DataVarType::BitField
        } else if code == 4 {
            DataVarType::Float
        } else if code == 5 {
            DataVarType::Double
        } else {
            DataVarType::ETCount
        }
    }
}

/// The unsigned 32-bit pattern of a two's-complement value.
pub open spec fn u32_of_i32(v: i32) -> u32 {
    if v >= 0 {
        v as u32
    } else {
        (v + 0x1_0000_0000) as u32
    }
}

/// The four little-endian bytes of a 32-bit pattern.
pub open spec fn u32_le_bytes(x: u32) -> Seq<u8> {
    seq![
        (x % 0x100) as u8,
        (x / 0x100 % 0x100) as u8,
        (x / 0x100 / 0x100 % 0x100) as u8,
        (x / 0x100 / 0x100 / 0x100) as u8,
    ]
}

/// The eight little-endian bytes of a 64-bit pattern.
pub open spec fn u64_le_bytes(x: u64) -> Seq<u8> {
    u32_le_bytes((x % 0x1_0000_0000) as u32) + u32_le_bytes((x / 0x1_0000_0000) as u32)
}

/// The element of physical type `t` stored at byte offset `off` of `s`.
pub open spec fn decode_elem(t: DataVarType, s: Seq<u8>, off: int) -> IrValue {
    match t {
        DataVarType::Char => IrValue::Char(s[off]),
        DataVarType::Bool => IrValue::Bool(s[off] != 0),
        DataVarType::Int => IrValue::Int(le_i32_at(s, off)),
        DataVarType::BitField => IrValue::BitField(le_i32_at(s, off)),
        DataVarType::Float => IrValue::Float(le_u32_at(s, off)),
        DataVarType::Double => IrValue::Double(le_u64_at(s, off)),
        DataVarType::ETCount => IrValue::ETCount,
    }
}

/// The bytes one scalar value occupies on the wire. The data-less sentinel
/// occupies none, and an array encodes element-wise.
pub open spec fn encode_elem(v: IrValue) -> Seq<u8> {
    match v {
        IrValue::Char(c) => seq![c],
        IrValue::Bool(b) => seq![if b { 1u8 } else { 0u8 }],
        IrValue::Int(x) => u32_le_bytes(u32_of_i32(x)),
        IrValue::BitField(x) => u32_le_bytes(u32_of_i32(x)),
        IrValue::Float(f) => u32_le_bytes(f),
        IrValue::Double(d) => u64_le_bytes(d),
        IrValue::ETCount => Seq::empty(),
        IrValue::Array(_) => Seq::empty(),
    }
}

/// The little-endian bytes of the 32-bit value read at `off` are exactly the
/// four bytes it was read from.
proof fn lemma_u32_le_bytes_at(s: Seq<u8>, off: int)
    requires
        0 <= off,
        off + 4 <= s.len(),
    ensures
        u32_le_bytes(le_u32_at(s, off)) =~= s.subrange(off, off + 4),
{
    let x = le_u32_at(s, off) as int;
    let b0 = s[off] as int;
    let b1 = s[off + 1] as int;
    let b2 = s[off + 2] as int;
    let b3 = s[off + 3] as int;
    let q2 = b2 + 0x100 * b3;
    let q1 = b1 + 0x100 * q2;
    assert(x == q1 * 0x100 + b0);
    lemma_fundamental_div_mod_converse_mod(x, 0x100, q1, b0);
    lemma_fundamental_div_mod_converse_div(x, 0x100, q1, b0);
    lemma_fundamental_div_mod_converse_mod(q1, 0x100, q2, b1);
    lemma_fundamental_div_mod_converse_div(q1, 0x100, q2, b1);
    lemma_fundamental_div_mod_converse_mod(q2, 0x100, b3, b2);
    lemma_fundamental_div_mod_converse_div(q2, 0x100, b3, b2);
}

/// Round trip of the raw byte extraction: decoding the element of physical
/// type `t` stored at `off` and re-encoding it reproduces exactly the bytes
/// it occupies, for every data-carrying physical type. For the boolean type
/// this holds of the two byte values a boolean can encode back to.
pub proof fn lemma_decode_encode_elem(t: DataVarType, s: Seq<u8>, off: int)
    requires
        0 <= off,
        off + t.size_spec() <= s.len(),
        t != DataVarType::ETCount,
        t == DataVarType::Bool ==> s[off] == 0 || s[off] == 1,
    ensures
        encode_elem(decode_elem(t, s, off)) == s.subrange(off, off + t.size_spec()),
{
    match t {
        DataVarType::Char => {
            assert(encode_elem(decode_elem(t, s, off)) =~= s.subrange(off, off + 1));
        },
        DataVarType::Bool => {
            assert(encode_elem(decode_elem(t, s, off)) =~= s.subrange(off, off + 1));
        },
        DataVarType::Int | DataVarType::BitField => {
            let x = le_u32_at(s, off);
            assert(u32_of_i32(i32_of_u32(x)) == x);
            lemma_u32_le_bytes_at(s, off);
        },
        DataVarType::Float => {
            lemma_u32_le_bytes_at(s, off);
        },
        DataVarType::Double => {
            let lo = le_u32_at(s, off) as int;
            let hi = le_u32_at(s, off + 4) as int;
            let d = le_u64_at(s, off) as int;
            assert(d == hi * 0x1_0000_0000 + lo);
            lemma_fundamental_div_mod_converse_mod(d, 0x1_0000_0000, hi, lo);
            lemma_fundamental_div_mod_converse_div(d, 0x1_0000_0000, hi, lo);
            lemma_u32_le_bytes_at(s, off);
            lemma_u32_le_bytes_at(s, off + 4);
            assert(encode_elem(decode_elem(t, s, off)) =~= s.subrange(off, off + 8));
        },
        _ => {},
    }
}

/// Round trip over a whole variable: decoding each of its `count` declared
/// elements and re-encoding them reproduces exactly the bytes each element
/// occupies, for every data-carrying physical type and element count. For
/// the boolean type this holds of the byte values a boolean can encode back
/// to.
pub proof fn lemma_variable_roundtrip(t: DataVarType, offset: i32, count: i32, s: Seq<u8>)
    requires
        value_in_bounds(t, offset, count, s.len() as int),
        t != DataVarType::ETCount,
        t == DataVarType::Bool ==> forall|i: int|
            0 <= i < count ==> #[trigger] s[offset + i] == 0 || s[offset + i] == 1,
    ensures
        forall|i: int|
            0 <= i < count ==> #[trigger] encode_elem(
                decode_elem(t, s, offset + t.size_spec() * i),
            ) == s.subrange(offset + t.size_spec() * i, offset + t.size_spec() * (i + 1)),
{
    let size = t.size_spec();
    assert forall|i: int| 0 <= i < count implies #[trigger] encode_elem(
        decode_elem(t, s, offset + size * i),
    ) == s.subrange(offset + size * i, offset + size * (i + 1)) by {
        assert(size * i + size == size * (i + 1) && 0 <= size * i && size * (i + 1) <= size
            * count) by (nonlinear_arith)
            requires
                0 < size,
                0 <= i,
                i + 1 <= count,
        ;
        lemma_decode_encode_elem(t, s, offset + size * i);
    }
}

/// The element of physical type `t` at byte offset `off` of `frame`, read
/// with unaligned little-endian loads.
pub fn decode_one(t: DataVarType, frame: &[u8], off: usize) -> (v: IrValue)
    requires
        off + t.size_spec() <= frame@.len(),
    ensures
        v == decode_elem(t, frame@, off as int),
{
    match t {
        DataVarType::Char => IrValue::Char(read_u8_at(frame, off)),
        DataVarType::Bool => IrValue::Bool(read_u8_at(frame, off) != 0),
        DataVarType::Int => IrValue::Int(read_i32_le(frame, off)),
        DataVarType::BitField => IrValue::BitField(read_i32_le(frame, off)),
        DataVarType::Float => IrValue::Float(read_u32_le(frame, off)),
        DataVarType::Double => IrValue::Double(read_u64_le(frame, off)),
        DataVarType::ETCount => IrValue::ETCount,
    }
}

/// The wire bytes of one scalar value, the inverse of `decode_one`. The
/// data-less sentinel yields no bytes, and an array is encoded by encoding
/// its elements one by one.
pub fn encode_value(v: &IrValue) -> (out: Vec<u8>)
    ensures
        out@ == encode_elem(*v),
{
    match v {
        IrValue::Char(c) => {
            let out = vec![*c];
            proof {
                assert(out@ =~= encode_elem(*v));
            }
            out
        },
        IrValue::Bool(b) => {
            let out = vec![if *b { 1u8 } else { 0u8 }];
            proof {
                assert(out@ =~= encode_elem(*v));
            }
            out
        },
        IrValue::Int(x) => encode_u32(exec_u32_of_i32(*x)),
        IrValue::BitField(x) => encode_u32(exec_u32_of_i32(*x)),
        IrValue::Float(f) => encode_u32(*f),
        IrValue::Double(d) => {
            let lo = (*d % 0x1_0000_0000) as u32;
            let hi = (*d / 0x1_0000_0000) as u32;
            let mut out = encode_u32(lo);
            let mut high = encode_u32(hi);
            out.append(&mut high);
            proof {
                assert(out@ =~= encode_elem(*v));
            }
            out
        },
        IrValue::ETCount => {
            let out: Vec<u8> = Vec::new();
            proof {
                assert(out@ =~= encode_elem(*v));
            }
            out
        },
        IrValue::Array(_) => {
            let out: Vec<u8> = Vec::new();
            proof {
                assert(out@ =~= encode_elem(*v));
            }
            out
        },
    }
}

/// Whether a variable declared at `offset` with `count` elements of type `t`
/// lies entirely within a frame of `len` bytes.
pub open spec fn value_in_bounds(t: DataVarType, offset: i32, count: i32, len: int) -> bool {
    &&& 0 <= offset
    &&& 1 <= count
    &&& offset + t.size_spec() * count <= len
}

/// What `extract_value` returns: `None` exactly when the descriptor reaches
/// outside the frame, the decoded scalar for a count of one, and an array of
/// the `count` decoded elements otherwise.
pub open spec fn extract_matches(
    r: Option<IrValue>,
    t: DataVarType,
    offset: i32,
    count: i32,
    s: Seq<u8>,
) -> bool {
    match r {
        None => !value_in_bounds(t, offset, count, s.len() as int),
        Some(v) => {
            &&& value_in_bounds(t, offset, count, s.len() as int)
            &&& if count == 1 {
                v == decode_elem(t, s, offset as int)
            } else {
                v matches IrValue::Array(a) && a@.len() == count && (forall|i: int|
                    0 <= i < count ==> a@[i] == decode_elem(t, s, offset + t.size_spec() * i))
            }
        },
    }
}

impl VarHeader {
    /// Extracts this variable's value from a frame: `count` elements of the
    /// declared physical width starting at the declared offset, read
    /// unaligned. A descriptor that reaches outside the frame yields `None`
    /// rather than a crash; the producer owns the descriptors and they may
    /// be corrupt.
    pub fn extract_value(&self, frame: &[u8]) -> (r: Option<IrValue>)
        ensures
            extract_matches(r, self._type, self.offset, self.count, frame@),
    {
        let t = self._type;
        let size = t.amount_of_bytes();
        if self.offset < 0 || self.count < 1 {
            return None;
        }
        let off = self.offset as usize;
        let cnt = self.count as usize;
        let len = frame.len();
        proof {
            assert(size * cnt <= 8 * 0x8000_0000) by (nonlinear_arith)
                requires
                    0 <= size <= 8,
                    0 <= cnt < 0x8000_0000,
            ;
        }
        let needed: u64 = (size as u64) * (cnt as u64);
        if (off as u64) > (len as u64) || needed > (len as u64) - (off as u64) {
            return None;
        }
        if cnt == 1 {
            Some(decode_one(t, frame, off))
        } else {
            let mut arr: Vec<IrValue> = Vec::new();
            let mut i: usize = 0;
            while i < cnt
                invariant
                    0 <= i <= cnt,
                    arr@.len() == i,
                    0 <= size <= 8,
                    size == t.size_spec(),
                    len == frame@.len(),
                    off + size * cnt <= len,
                    forall|k: int|
                        0 <= k < i ==> arr@[k] == decode_elem(t, frame@, off + size * k),
                decreases cnt - i,
            {
                proof {
                    assert(size * i + size == size * (i + 1) && size * (i + 1) <= size * cnt)
                        by (nonlinear_arith)
                        requires
                            0 <= size,
                            0 <= i,
                            i + 1 <= cnt,
                    ;
                }
                arr.push(decode_one(t, frame, off + size * i));
                i = i + 1;
            }
            Some(IrValue::Array(arr))
        }
    }
}

/// The 32-bit pattern of a two's-complement value, computed executably.
pub(crate) fn exec_u32_of_i32(v: i32) -> (x: u32)
    ensures
        x == u32_of_i32(v),
{
    if v >= 0 {
        v as u32
    } else {
        (v as i64 + 0x1_0000_0000i64) as u32
    }
}

/// The four little-endian bytes of a 32-bit pattern, computed executably.
fn encode_u32(x: u32) -> (out: Vec<u8>)
    ensures
        out@ == u32_le_bytes(x),
{
    let r1 = x / 0x100;
    let r2 = r1 / 0x100;
    let out = vec![(x % 0x100) as u8, (r1 % 0x100) as u8, (r2 % 0x100) as u8, (r2 / 0x100) as u8];
    proof {
        assert(out@ =~= u32_le_bytes(x));
    }
    out
}

} // verus!
