//! Variable descriptors and the catalog that holds them.
//!
//! The region embeds a self-describing table of fixed-size records, one per
//! variable of a data frame. A record names the variable, its physical type,
//! its byte offset within a frame and its element count. The table holds
//! `num_vars` slots of which only the first `num_vars - 1` are meaningful;
//! the last slot is the producer's sentinel and is excluded by convention.

use vstd::prelude::*;
use vstd::string::StringExecFns;
use vstd::slice::slice_subrange;
use crate::full_value::{SingleVarType, VarType};
use crate::utils::{byte_array_to_rust_string, le_i32_at, null_trimmed, read_i32_le, read_u8_at,
    utf8_lossy_of};
use crate::values::{type_from_code, DataVarType};

verus! {

/// Size in bytes of one catalog record.
pub const VAR_HEADER_SIZE: usize = 144;

/// One variable descriptor. `S` and `D` are the representations of the name
/// and description fields (raw fixed-width bytes in the region, owned
/// strings once decoded).
#[derive(Debug, Clone)]
pub struct VarHeaderGeneric<S, D> {
    pub _type: DataVarType,
    /// Byte offset of this variable's value from the start of a frame.
    pub offset: i32,
    /// Number of elements: 1 for a scalar, more for an array.
    pub count: i32,
    /// Producer flag: the element count stands for a time window.
    pub count_as_time: u8,
    pub name: S,
    pub desc: D,
    /// Unit text, e.g. "kg/m^2".
    pub unit: S,
}

/// A descriptor with its text fields decoded to owned strings.
pub type VarHeader = VarHeaderGeneric<String, String>;

/// The semantic element type of a variable: its physical type, refined by a
/// closed name-based lookup. The physically ambiguous integer and bitfield
/// types are narrowed by the variable's name; unknown bitfield names fall
/// back to a plain integer, and the data-less sentinel type is treated as a
/// float.
pub open spec fn classify(t: DataVarType, name: Seq<char>) -> SingleVarType {
    match t {
        DataVarType::Char => SingleVarType::Char,
        DataVarType::Bool => SingleVarType::Bool,
        DataVarType::Int => if name == "CarIdxTrackSurface"@ {
            SingleVarType::TrackLocation
        } else if name == "SessionState"@ {
            SingleVarType::SessionState
        } else if name == "CarLeftRight"@ {
            SingleVarType::CarLeftRight
        } else if name == "PitSvStatus"@ {
            SingleVarType::PitStatus
        } else if name == "PaceMode"@ {
            SingleVarType::PaceMode
        } else if name == "TrackWetness"@ {
            SingleVarType::TrackWetness
        } else {
            SingleVarType::Int
        },
        DataVarType::Float => SingleVarType::Float,
        DataVarType::Double => SingleVarType::Double,
        DataVarType::BitField => if name == "EngineWarnings"@ {
            SingleVarType::EngineWarnings
        } else if name == "PitSvFlags"@ {
            SingleVarType::PitServiceFlags
        } else if name == "CarIdxSessionFlags"@ || name == "SessionFlags"@ {
            SingleVarType::Flags
        } else if name == "CamCameraState"@ {
            SingleVarType::CameraState
        } else if name == "CarIdxPaceFlags"@ {
            SingleVarType::PaceFlags
        } else {
            SingleVarType::Int
        },
        DataVarType::ETCount => SingleVarType::Float,
    }
}

/// The full semantic type of a variable: its classified element type, marked
/// as an array exactly when the element count exceeds one.
pub open spec fn var_type_spec(t: DataVarType, name: Seq<char>, count: int) -> VarType {
    if count > 1 {
        VarType::Array(classify(t, name))
    } else {
        VarType::Single(classify(t, name))
    }
}

/// True when `vh` is the decoding of the catalog record stored at byte
/// offset `off` of `s`.
pub open spec fn var_header_matches(vh: VarHeader, s: Seq<u8>, off: int) -> bool {
    &&& vh._type == type_from_code(le_i32_at(s, off))
    &&& vh.offset == le_i32_at(s, off + 4)
    &&& vh.count == le_i32_at(s, off + 8)
    &&& vh.count_as_time == s[off + 12]
    &&& vh.name@ == utf8_lossy_of(null_trimmed(s.subrange(off + 16, off + 48)))
    &&& vh.desc@ == utf8_lossy_of(null_trimmed(s.subrange(off + 48, off + 112)))
    &&& vh.unit@ == utf8_lossy_of(null_trimmed(s.subrange(off + 112, off + 144)))
}

/// `name@ == lit@`, decided executably.
fn string_is(name: &String, lit: &str) -> (b: bool)
    ensures
        b == (name@ == lit@),
{
    *name == String::from_str(lit)
}

impl VarHeader {
    /// The variable's name.
    pub fn name(&self) -> (r: &str)
        ensures
            r@ == self.name@,
    {
        self.name.as_str()
    }

    /// The variable's description text.
    pub fn description(&self) -> (r: &str)
        ensures
            r@ == self.desc@,
    {
        self.desc.as_str()
    }

    /// The variable's unit text.
    pub fn units(&self) -> (r: &str)
        ensures
            r@ == self.unit@,
    {
        self.unit.as_str()
    }

    /// The semantic type of this variable: the physical type refined by the
    /// name-based lookup, independent of the element count; the count only
    /// decides whether the result is an array.
    pub fn var_type(&self) -> (vt: VarType)
        ensures
            vt == var_type_spec(self._type, self.name@, self.count as int),
    {
        let single = match self._type {
            DataVarType::Char => SingleVarType::Char,
            DataVarType::Bool => SingleVarType::Bool,
            DataVarType::Int => {
                if string_is(&self.name, "CarIdxTrackSurface") {
                    SingleVarType::TrackLocation
                } else if string_is(&self.name, "SessionState") {
                    SingleVarType::SessionState
                } else if string_is(&self.name, "CarLeftRight") {
                    SingleVarType::CarLeftRight
                } else if string_is(&self.name, "PitSvStatus") {
                    SingleVarType::PitStatus
                } else if string_is(&self.name, "PaceMode") {
                    SingleVarType::PaceMode
                } else if string_is(&self.name, "TrackWetness") {
                    SingleVarType::TrackWetness
                } else {
                    SingleVarType::Int
                }
            },
            DataVarType::Float => SingleVarType::Float,
            DataVarType::Double => SingleVarType::Double,
            DataVarType::BitField => {
                if string_is(&self.name, "EngineWarnings") {
                    SingleVarType::EngineWarnings
                } else if string_is(&self.name, "PitSvFlags") {
                    SingleVarType::PitServiceFlags
                } else if string_is(&self.name, "CarIdxSessionFlags") || string_is(
                    &self.name,
                    "SessionFlags",
                ) {
                    SingleVarType::Flags
                } else if string_is(&self.name, "CamCameraState") {
                    SingleVarType::CameraState
                } else if string_is(&self.name, "CarIdxPaceFlags") {
                    SingleVarType::PaceFlags
                } else {
                    SingleVarType::Int
                }
            },
            DataVarType::ETCount => SingleVarType::Float,
        };
        if self.count > 1 {
            VarType::Array(single)
        } else {
            VarType::Single(single)
        }
    }

    /// Decodes one catalog record stored at byte offset `off` of `bytes`.
    pub fn from_bytes(bytes: &[u8], off: usize) -> (vh: VarHeader)
        requires
            off + VAR_HEADER_SIZE <= bytes@.len(),
        ensures
            var_header_matches(vh, bytes@, off as int),
    {
        let n = bytes.len();
        let code = read_i32_le(bytes, off);
        let offset = read_i32_le(bytes, off + 4);
        let count = read_i32_le(bytes, off + 8);
        let count_as_time = read_u8_at(bytes, off + 12);
        let name = byte_array_to_rust_string(slice_subrange(bytes, off + 16, off + 48));
        let desc = byte_array_to_rust_string(slice_subrange(bytes, off + 48, off + 112));
        let unit = byte_array_to_rust_string(slice_subrange(bytes, off + 112, off + 144));
        VarHeaderGeneric {
            _type: DataVarType::from_code(code),
            offset,
            count,
            count_as_time,
            name,
            desc,
            unit,
        }
    }
}

/// Decodes the variable catalog from the raw bytes of the catalog region.
/// The table declares `num_vars` slots but only the first `num_vars - 1`
/// hold variables; the trailing sentinel slot is excluded by the format's
/// own convention.
pub fn parse_catalog(bytes: &[u8], num_vars: usize) -> (headers: Vec<VarHeader>)
    requires
        num_vars >= 1,
        (num_vars - 1) * VAR_HEADER_SIZE <= bytes@.len(),
    ensures
        headers@.len() == num_vars - 1,
        forall|i: int|
            0 <= i < num_vars - 1 ==> var_header_matches(
                #[trigger] headers@[i],
                bytes@,
                i * VAR_HEADER_SIZE,
            ),
{
    let n = num_vars - 1;
    let len = bytes.len();
    let mut headers: Vec<VarHeader> = Vec::new();
    let mut i: usize = 0;
    while i < n
        invariant
            0 <= i <= n,
            n * VAR_HEADER_SIZE <= len,
            len == bytes@.len(),
            headers@.len() == i,
            forall|k: int|
                0 <= k < i ==> var_header_matches(
                    #[trigger] headers@[k],
                    bytes@,
                    k * VAR_HEADER_SIZE,
                ),
        decreases n - i,
    {
        proof {
            assert((i + 1) * VAR_HEADER_SIZE <= n * VAR_HEADER_SIZE) by (nonlinear_arith)
                requires
                    i + 1 <= n,
                    VAR_HEADER_SIZE > 0,
            ;
        }
        let vh = VarHeader::from_bytes(bytes, i * VAR_HEADER_SIZE);
        headers.push(vh);
        i = i + 1;
    }
    headers
}

/// Looks a variable up by name. Duplicate names overwrite earlier ones (last
/// wins), so the match returned is the last record carrying the name.
pub fn find_var(headers: &Vec<VarHeader>, name: &str) -> (r: Option<usize>)
    ensures
        match r {
            Some(i) => {
                &&& i < headers@.len()
                &&& headers@[i as int].name@ == name@
                &&& forall|j: int| i < j < headers@.len() ==> headers@[j].name@ != name@
            },
            None => forall|j: int| 0 <= j < headers@.len() ==> headers@[j].name@ != name@,
        },
{
    let wanted = String::from_str(name);
    let mut k: usize = headers.len();
    while k > 0
        invariant
            0 <= k <= headers@.len(),
            wanted@ == name@,
            forall|j: int| k <= j < headers@.len() ==> headers@[j].name@ != name@,
        decreases k,
    {
        k = k - 1;
        if headers[k].name == wanted {
            return Some(k);
        }
    }
    None
}

} // verus!
