//! The data binding of a CTAP2 authenticator: from the generic tree that an
//! untrusted message arrives as to the validated values of the protocol, and
//! back; and the stored form of a credential.
//!
//! Every reader takes exactly the nodes that it names and refuses the rest
//! with one of the few statuses of [`status_code::Ctap2StatusCode`]. What a
//! reader returns, and on which input it fails with which status, is stated
//! over the view of the tree, see [`cbor::ValueView`], and proved.

pub mod attestation;
pub mod bytes;
pub mod cbor;
pub mod client_pin;
pub mod cose;
pub mod credential;
pub mod credential_source;
pub mod ecdh;
pub mod ecdsa;
pub mod entity;
pub mod extensions;
pub mod options;
pub mod read;
pub mod status_code;
