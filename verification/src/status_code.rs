//! The statuses that reading and writing can end in.

use vstd::prelude::*;

verus! {

/// The outcomes, other than a value, that reading or writing a protocol
/// message can have. Each is one status of the authenticator's status space.
#[allow(non_camel_case_types)]
#[derive(Clone, Copy, Debug, PartialEq, Eq, Structural)]
pub enum Ctap2StatusCode {
    /// A key-agreement coordinate is malformed, or a PIN sub-command code is
    /// not one of the protocol's.
    CTAP1_ERR_INVALID_PARAMETER,
    /// A node is not of the wire type that its place asks for.
    CTAP2_ERR_CBOR_UNEXPECTED_TYPE,
    /// A stored record is malformed or undersized.
    CTAP2_ERR_INVALID_CBOR,
    /// A required entry is absent.
    CTAP2_ERR_MISSING_PARAMETER,
    /// A key type, algorithm or curve is not the supported one.
    CTAP2_ERR_UNSUPPORTED_ALGORITHM,
    /// An option is present that the request does not admit.
    CTAP2_ERR_INVALID_OPTION,
}

} // verus!
