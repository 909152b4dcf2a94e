//! Error kinds reported by this library.

use vstd::prelude::*;

verus! {

/// The failure kinds this layer distinguishes.
///
/// Recoverable kinds propagate as `Err` values up through the builder and
/// compile chain; no partial program or property list is ever returned on
/// failure.
#[derive(Clone, Debug, PartialEq)]
pub enum OclError {
    /// A caller-fixable configuration problem: no devices resolved, a
    /// duplicate device selector, an out-of-range device index, or an
    /// unsupported property variant.  Surfaced immediately, never retried.
    Configuration(String),
    /// A source file could not be read; carries the originating path so the
    /// caller can fix it and rebuild.
    Io { path: String, message: String },
    /// Text destined for the native layer contained an embedded NUL byte.
    /// Raised before any native call is made.
    Encoding(String),
    /// The native driver reported a failure; wraps the underlying status
    /// code and message verbatim.
    Native { status: i32, message: String },
    /// A programming-contract violation in caller code, such as unmapping a
    /// region twice or registering a completion trigger twice.
    ContractViolation(String),
}

/// Shorthand for results carrying an [`OclError`].
pub type OclResult<T> = Result<T, OclError>;

impl OclError {
    /// True of the caller-fixable configuration kind.
    pub fn is_configuration(&self) -> (b: bool)
        ensures
            b == self is Configuration,
    {
        match self {
            OclError::Configuration(_) => true,
            _ => false,
        }
    }

    /// True of the contract-violation kind.
    pub fn is_contract_violation(&self) -> (b: bool)
        ensures
            b == self is ContractViolation,
    {
        match self {
            OclError::ContractViolation(_) => true,
            _ => false,
        }
    }
}

} // verus!
