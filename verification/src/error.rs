//! Error taxonomy of the telemetry reader.

use vstd::prelude::*;
use vstd::string::StringExecFns;

verus! {

/// Everything that can go wrong while reading or converting telemetry.
///
/// `MemMappingError` is reported when the shared-memory region cannot be
/// opened (the producer is not running). `TypeError` and
/// `ExceedsVariableRange` are recoverable conversion failures.
/// `VariableNotFound` is reported when a lookup by name misses.
#[derive(Debug, Clone, PartialEq)]
pub enum IrError {
    MemMappingError(String),
    TypeError,
    VariableNotFound(String),
    ExceedsVariableRange,
}

impl IrError {
    /// The human-readable text for this error.
    pub open spec fn message_spec(&self) -> Seq<char> {
        match self {
            IrError::MemMappingError(m) => "Failure to access memory-mapped file: "@ + m@,
            IrError::TypeError => "Could not convert value to requested type"@,
            IrError::VariableNotFound(n) => "Variable "@ + n@ + " not found in data"@,
            IrError::ExceedsVariableRange => "Variable exceeds range for type"@,
        }
    }

    /// Renders the error as text, one line per variant.
    pub fn message(&self) -> (s: String)
        ensures
            s@ == self.message_spec(),
    {
        match self {
            IrError::MemMappingError(m) => {
                let mut s = String::from_str("Failure to access memory-mapped file: ");
                s.append(m.as_str());
                s
            },
            IrError::TypeError => String::from_str("Could not convert value to requested type"),
            IrError::VariableNotFound(n) => {
                let mut s = String::from_str("Variable ");
                s.append(n.as_str());
                s.append(" not found in data");
                s
            },
            IrError::ExceedsVariableRange => String::from_str("Variable exceeds range for type"),
        }
    }
}

} // verus!
