use vstd::prelude::*;

verus! {

/// The ways a conversion across the boundary can fail.
#[derive(Debug, Clone, Copy, PartialEq, Eq, Structural)]
pub enum FfiError {
    /// A text field holds a terminator byte once encoded.
    InvalidStringEncoding,
    /// The record carries opaque payloads that have no copy-out routine.
    UnsupportedReverseConversion,
    /// A foreign record holds a value outside what its layout allows.
    MalformedForeignInput,
}

} // verus!
