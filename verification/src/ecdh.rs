//! Public key-agreement keys of P-256, as their coordinates.

use p256::elliptic_curve::sec1::FromEncodedPoint;
use vstd::prelude::*;

verus! {

/// Whether two runs of 32 bytes, read as big-endian numbers, are the affine
/// coordinates of a public key of P-256: whether
/// `p256::PublicKey::from_encoded_point` takes the uncompressed point made of
/// them.
pub uninterp spec fn is_curve_point(x: Seq<u8>, y: Seq<u8>) -> bool;

/// Makes the uncompressed point of the two coordinates with
/// `p256::EncodedPoint::from_affine_coordinates` and asks
/// `p256::PublicKey::from_encoded_point` whether it is a public key. It is
/// believed, not proved, that the answer depends on the coordinates alone;
/// [`is_curve_point`] is the name of that answer.
#[verifier::external_body]
fn point_accepted(x: &[u8; 32], y: &[u8; 32]) -> (r: bool)
    ensures
        r == is_curve_point(x@, y@),
{
    let point = p256::EncodedPoint::from_affine_coordinates(
        &p256::FieldBytes::from(*x),
        &p256::FieldBytes::from(*y),
        false,
    );
    p256::PublicKey::from_encoded_point(&point).is_some().into()
}

/// What a [`PubKey`] holds.
pub struct PubKeyView {
    pub x: Seq<u8>,
    pub y: Seq<u8>,
}

/// A public key-agreement key of P-256: the two coordinates of a point of
/// the curve.
#[derive(Debug, PartialEq, Eq)]
pub struct PubKey {
    x: [u8; 32],
    y: [u8; 32],
}

impl View for PubKey {
    type V = PubKeyView;

    closed spec fn view(&self) -> PubKeyView {
        PubKeyView { x: self.x@, y: self.y@ }
    }
}

impl Clone for PubKey {
    fn clone(&self) -> (r: Self)
        ensures
            r@ == self@,
    {
        proof {
            use_type_invariant(self);
        }
        PubKey { x: self.x, y: self.y }
    }
}

impl PubKey {
    #[verifier::type_invariant]
    spec fn valid(self) -> bool {
        is_curve_point(self.x@, self.y@)
    }

    /// The key with these coordinates, where they are those of a point of
    /// the curve.
    pub fn from_coordinates(x: &[u8; 32], y: &[u8; 32]) -> (r: Option<PubKey>)
        ensures
            match r {
                Some(key) => is_curve_point(x@, y@) && key@ == (PubKeyView { x: x@, y: y@ }),
                None => !is_curve_point(x@, y@),
            },
    {
        if point_accepted(x, y) {
            Some(PubKey { x: *x, y: *y })
        } else {
            None
        }
    }

    /// Writes the key's coordinates out.
    pub fn to_coordinates(&self, x: &mut [u8; 32], y: &mut [u8; 32])
        ensures
            final(x)@ == self@.x,
            final(y)@ == self@.y,
            self@.x.len() == 32,
            self@.y.len() == 32,
            is_curve_point(self@.x, self@.y),
    {
        proof {
            use_type_invariant(self);
        }
        *x = self.x;
        *y = self.y;
    }
}

} // verus!
