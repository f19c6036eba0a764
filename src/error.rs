use vstd::prelude::*;

verus! {

/// Failure to read a closed enumeration from free-form text.
#[derive(Debug, Clone, PartialEq, Eq)]
pub enum Error {
    /// The name is not the identifier of any work type.
    InvalidTypeName { name: String },
    /// The name is not the path segment of any resource component.
    InvalidComponentName { name: String },
}

} // verus!
