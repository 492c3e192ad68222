//! One delivered telemetry frame and the typed reads out of it.
//!
//! A frame is an owned copy of one rotating buffer, tagged with the tick it
//! was copied under, together with the control block it was read with. It is
//! immutable; the consumer decodes variables out of it on demand and
//! discards it after use.

use vstd::prelude::*;
use crate::full_value::{SingleVarType, VarType};
use crate::header::Header;
use crate::types::{
    array_loose_matches, bools_of, f32bits_of, f64bits_of, i32s_of, labels_of,
    scalar_loose_matches, semantic_label, views_of, IrValue, LooseValue,
};
use crate::values::{decode_elem, extract_matches, value_in_bounds};
use crate::var_header::{classify, VarHeader};

verus! {

/// An owned snapshot of one rotating buffer, with the control block it was
/// selected under and its tick counter.
#[derive(Debug, Clone)]
pub struct IrDataInner {
    pub header: Header,
    pub tick: i32,
    pub data: Vec<u8>,
}

impl IrDataInner {
    /// Wraps an owned buffer copy.
    pub fn new(data: Vec<u8>, header: Header, tick: i32) -> (r: Self)
        ensures
            r.data == data,
            r.header == header,
            r.tick == tick,
    {
        Self { header, tick, data }
    }

    /// The control block this frame was copied under.
    pub fn header(&self) -> (h: &Header)
        ensures
            h == &self.header,
    {
        &self.header
    }

    /// The tick counter of the buffer this frame was copied from.
    pub fn tick(&self) -> (t: i32)
        ensures
            t == self.tick,
    {
        self.tick
    }

    /// The raw frame bytes.
    pub fn data(&self) -> (d: &[u8])
        ensures
            d@ == self.data@,
    {
        self.data.as_slice()
    }

    /// The session-document revision counter of the control block this frame
    /// was read with.
    pub fn session_info_tick(&self) -> (t: i32)
        ensures
            t == self.header.session_info_update,
    {
        self.header.session_info_update()
    }
}

/// What `get_into` returns for a variable: `None` for a descriptor that
/// reaches outside the frame; otherwise the declared elements, decoded and
/// converted by the variable's semantic type, with failing elements of an
/// array dropped and a failing scalar conversion yielding `None`.
pub open spec fn get_into_matches(r: Option<LooseValue>, vh: VarHeader, frame: Seq<u8>) -> bool {
    let st = classify(vh._type, vh.name@);
    let size = vh._type.size_spec();
    if !value_in_bounds(vh._type, vh.offset, vh.count, frame.len() as int) {
        r is None
    } else if vh.count == 1 {
        scalar_loose_matches(r, st, decode_elem(vh._type, frame, vh.offset as int))
    } else {
        r matches Some(lv) && array_loose_matches(
            lv,
            st,
            Seq::new(vh.count as nat, |i: int| decode_elem(vh._type, frame, vh.offset + size * i)),
        )
    }
}

/// The latest telemetry frame, ready for typed reads.
#[derive(Debug, Clone)]
pub struct IrData {
    pub data: IrDataInner,
}

impl IrData {
    /// Wraps a frame snapshot.
    pub fn new(data: IrDataInner) -> (r: Self)
        ensures
            r.data == data,
    {
        Self { data }
    }

    /// The tick count of the data.
    pub fn tick(&self) -> (t: i32)
        ensures
            t == self.data.tick,
    {
        self.data.tick()
    }

    /// The raw data.
    pub fn data(&self) -> (d: &[u8])
        ensures
            d@ == self.data.data@,
    {
        self.data.data()
    }

    /// Extracts a variable's raw tagged value from this frame: the declared
    /// number of elements of the declared physical type at the declared
    /// offset. `None` without a descriptor, or when the descriptor reaches
    /// outside the frame.
    pub fn get(&self, variable: Option<&VarHeader>) -> (r: Option<IrValue>)
        ensures
            match variable {
                Some(vh) => extract_matches(r, vh._type, vh.offset, vh.count, self.data.data@),
                None => r is None,
            },
    {
        match variable {
            Some(vh) => vh.extract_value(self.data.data.as_slice()),
            None => None,
        }
    }

    /// Extracts a variable and converts it by its semantic type into a
    /// loosely-typed value: integers stay numbers, semantic enumeration and
    /// flag values become their display text, arrays convert element-wise
    /// with failing elements dropped.
    pub fn get_into(&self, variable: Option<&VarHeader>) -> (r: Option<LooseValue>)
        ensures
            match variable {
                Some(vh) => get_into_matches(r, *vh, self.data.data@),
                None => r is None,
            },
    {
        let vh = match variable {
            Some(vh) => vh,
            None => {
                return None;
            },
        };
        let extracted = match vh.extract_value(self.data.data.as_slice()) {
            Some(v) => v,
            None => {
                return None;
            },
        };
        let st = match vh.var_type() {
            VarType::Single(s) => s,
            VarType::Array(s) => s,
        };
        let ghost frame = self.data.data@;
        let ghost size = vh._type.size_spec();
        let ghost elems = Seq::new(
            vh.count as nat,
            |i: int| decode_elem(vh._type, frame, vh.offset + size * i),
        );
        match extracted {
            IrValue::Array(parts) => {
                proof {
                    assert(parts@ =~= elems);
                }
                Some(loose_array(st, &parts))
            },
            v => {
                proof {
                    assert(vh.count == 1 && v == decode_elem(vh._type, frame, vh.offset as int));
                }
                loose_scalar(st, &v)
            },
        }
    }
}

/// Converts one scalar element by its semantic type.
fn loose_scalar(st: SingleVarType, v: &IrValue) -> (r: Option<LooseValue>)
    ensures
        scalar_loose_matches(r, st, *v),
{
    match st {
        SingleVarType::Char | SingleVarType::Int => match v.to_i32() {
            Ok(x) => Some(LooseValue::Int(x)),
            Err(_) => None,
        },
        SingleVarType::Bool => match v.to_bool() {
            Ok(b) => Some(LooseValue::Bool(b)),
            Err(_) => None,
        },
        SingleVarType::Float => match v.to_f32_bits() {
            Ok(x) => Some(LooseValue::Float(x)),
            Err(_) => None,
        },
        SingleVarType::Double => match v.to_f64_bits() {
            Ok(x) => Some(LooseValue::Double(x)),
            Err(_) => None,
        },
        _ => match semantic_label(st, v) {
            Some(s) => Some(LooseValue::Text(s)),
            None => None,
        },
    }
}

/// Converts an array of elements by its semantic type, dropping elements
/// whose conversion fails.
fn loose_array(st: SingleVarType, vs: &Vec<IrValue>) -> (r: LooseValue)
    ensures
        array_loose_matches(r, st, vs@),
{
    match st {
        SingleVarType::Char | SingleVarType::Int => {
            let mut xs: Vec<i32> = Vec::new();
            let mut i: usize = 0;
            while i < vs.len()
                invariant
                    0 <= i <= vs@.len(),
                    xs@ == i32s_of(vs@.take(i as int)),
                decreases vs@.len() - i,
            {
                proof {
                    assert(vs@.take(i + 1).drop_last() =~= vs@.take(i as int));
                }
                match vs[i].to_i32() {
                    Ok(x) => xs.push(x),
                    Err(_) => (),
                }
                i = i + 1;
            }
            proof {
                assert(vs@.take(vs@.len() as int) =~= vs@);
            }
            LooseValue::IntList(xs)
        },
        SingleVarType::Bool => {
            let mut xs: Vec<bool> = Vec::new();
            let mut i: usize = 0;
            while i < vs.len()
                invariant
                    0 <= i <= vs@.len(),
                    xs@ == bools_of(vs@.take(i as int)),
                decreases vs@.len() - i,
            {
                proof {
                    assert(vs@.take(i + 1).drop_last() =~= vs@.take(i as int));
                }
                match vs[i].to_bool() {
                    Ok(x) => xs.push(x),
                    Err(_) => (),
                }
                i = i + 1;
            }
            proof {
                assert(vs@.take(vs@.len() as int) =~= vs@);
            }
            LooseValue::BoolList(xs)
        },
        SingleVarType::Float => {
            let mut xs: Vec<u32> = Vec::new();
            let mut i: usize = 0;
            while i < vs.len()
                invariant
                    0 <= i <= vs@.len(),
                    xs@ == f32bits_of(vs@.take(i as int)),
                decreases vs@.len() - i,
            {
                proof {
                    assert(vs@.take(i + 1).drop_last() =~= vs@.take(i as int));
                }
                match vs[i].to_f32_bits() {
                    Ok(x) => xs.push(x),
                    Err(_) => (),
                }
                i = i + 1;
            }
            proof {
                assert(vs@.take(vs@.len() as int) =~= vs@);
            }
            LooseValue::FloatList(xs)
        },
        SingleVarType::Double => {
            let mut xs: Vec<u64> = Vec::new();
            let mut i: usize = 0;
            while i < vs.len()
                invariant
                    0 <= i <= vs@.len(),
                    xs@ == f64bits_of(vs@.take(i as int)),
                decreases vs@.len() - i,
            {
                proof {
                    assert(vs@.take(i + 1).drop_last() =~= vs@.take(i as int));
                }
                match vs[i].to_f64_bits() {
                    Ok(x) => xs.push(x),
                    Err(_) => (),
                }
                i = i + 1;
            }
            proof {
                assert(vs@.take(vs@.len() as int) =~= vs@);
            }
            LooseValue::DoubleList(xs)
        },
        _ => {
            let mut ss: Vec<String> = Vec::new();
            let mut i: usize = 0;
            while i < vs.len()
                invariant
                    0 <= i <= vs@.len(),
                    views_of(ss@) == labels_of(st, vs@.take(i as int)),
                decreases vs@.len() - i,
            {
                proof {
                    assert(vs@.take(i + 1).drop_last() =~= vs@.take(i as int));
                }
                match semantic_label(st, &vs[i]) {
                    Some(s) => {
                        ss.push(s);
                        proof {
                            assert(views_of(ss@) =~= views_of(ss@.drop_last()).push(ss@.last()@));
                        }
                    },
                    None => (),
                }
                i = i + 1;
            }
            proof {
                assert(vs@.take(vs@.len() as int) =~= vs@);
            }
            LooseValue::TextList(ss)
        },
    }
}

} // verus!
