//! Private signing keys of P-256, as their bytes.

use vstd::prelude::*;

verus! {

/// The algorithm code of ECDSA on P-256 with SHA-256.
pub const ES256_ALGORITHM: i64 = -7;

/// Whether 32 bytes, read as a big-endian number, are a private scalar of
/// P-256: whether `p256::SecretKey::from_bytes` takes them.
pub uninterp spec fn is_private_scalar(bytes: Seq<u8>) -> bool;

/// Asks `p256::SecretKey::from_bytes` whether it takes the bytes as a
/// secret key. It is believed, not proved, that the answer depends on the
/// bytes alone; [`is_private_scalar`] is the name of that answer.
#[verifier::external_body]
fn scalar_accepted(bytes: &[u8; 32]) -> (r: bool)
    ensures
        r == is_private_scalar(bytes@),
{
    p256::SecretKey::from_bytes(&p256::FieldBytes::from(*bytes)).is_ok()
}

/// A private signing key of P-256: 32 bytes that are a private scalar of
/// the curve.
#[derive(Debug, PartialEq, Eq)]
pub struct SecKey {
    bytes: [u8; 32],
}

impl View for SecKey {
    type V = Seq<u8>;

    closed spec fn view(&self) -> Seq<u8> {
        self.bytes@
    }
}

impl Clone for SecKey {
    fn clone(&self) -> (r: Self)
        ensures
            r@ == self@,
    {
        proof {
            use_type_invariant(self);
        }
        SecKey { bytes: self.bytes }
    }
}

impl SecKey {
    #[verifier::type_invariant]
    spec fn valid(self) -> bool {
        is_private_scalar(self.bytes@)
    }

    /// The key with these bytes, where they are a private scalar.
    pub fn from_bytes(bytes: &[u8; 32]) -> (r: Option<SecKey>)
        ensures
            match r {
                Some(key) => is_private_scalar(bytes@) && key@ == bytes@,
                None => !is_private_scalar(bytes@),
            },
    {
        if scalar_accepted(bytes) {
            Some(SecKey { bytes: *bytes })
        } else {
            None
        }
    }

    /// Writes the key's bytes out.
    pub fn to_bytes(&self, bytes: &mut [u8; 32])
        ensures
            final(bytes)@ == self@,
            self@.len() == 32,
            is_private_scalar(self@),
    {
        proof {
            use_type_invariant(self);
        }
        *bytes = self.bytes;
    }
}

} // verus!
