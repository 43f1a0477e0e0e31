use vstd::prelude::*;

verus! {

/// Why a request to the driver was refused.
#[derive(Clone, Copy, Debug, PartialEq, Eq, Structural)]
pub enum ErrorCode {
    /// The engine or one of its collaborators failed.
    Fail,
    /// An argument lies outside what the driver accepts.
    Inval,
}

} // verus!
