//! The key-agreement key as a map with fixed integer labels, and the public
//! key of the curve that it stands for.

use crate::bytes::{to_array, to_vec};
use crate::cbor::{
    bytes_node, entries_view, field, int_key, int_node, lemma_find_key_concat,
    lemma_find_key_field, map_get_int, push_field, KeyType, KeyView, Value, ValueView,
};
use crate::ecdh::{is_curve_point, PubKey, PubKeyView};
use crate::ecdsa::ES256_ALGORITHM;
use crate::read::{
    as_bytes, as_integer, ok_or_missing, read_byte_string, read_integer, required, view_of,
};
use crate::status_code::Ctap2StatusCode;
use vstd::prelude::*;

verus! {

/// The algorithm that a key-agreement key names: ECDH-ES with HKDF-256.
pub const ECDH_ALGORITHM: i64 = -25;

/// The key type of a key on an elliptic curve with two coordinates.
pub const EC2_KEY_TYPE: i64 = 2;

/// The curve P-256.
pub const P_256_CURVE: i64 = 1;

/// The label of the key type.
pub const KEY_TYPE_LABEL: i64 = 1;

/// The label of the algorithm.
pub const ALGORITHM_LABEL: i64 = 3;

/// The label of the curve.
pub const CURVE_LABEL: i64 = -1;

/// The label of the first coordinate.
pub const X_LABEL: i64 = -2;

/// The label of the second coordinate.
pub const Y_LABEL: i64 = -3;

/// A key-agreement key as it stands in a message: a map with fixed integer
/// labels. What the map holds is checked only when the key is taken out of
/// it.
#[derive(Clone, Debug, PartialEq, Eq)]
pub struct CoseKey(pub Vec<(KeyType, Value)>);

impl View for CoseKey {
    type V = Seq<(KeyView, ValueView)>;

    open spec fn view(&self) -> Seq<(KeyView, ValueView)> {
        entries_view(self.0@)
    }
}

/// The map for a public key: key type, algorithm and curve, then the two
/// coordinates.
pub open spec fn encode_key(key: PubKeyView) -> Seq<(KeyView, ValueView)> {
    field(int_key(KEY_TYPE_LABEL), Some(int_node(EC2_KEY_TYPE))) + field(
        int_key(ALGORITHM_LABEL),
        Some(int_node(ECDH_ALGORITHM)),
    ) + field(int_key(CURVE_LABEL), Some(int_node(P_256_CURVE))) + field(
        int_key(X_LABEL),
        Some(bytes_node(key.x)),
    ) + field(int_key(Y_LABEL), Some(bytes_node(key.y)))
}

/// What is supported passes; what is not is the error of an unsupported
/// algorithm, which is also that of an unsupported key type or curve.
pub open spec fn supported(accepted: bool) -> Result<(), Ctap2StatusCode> {
    if accepted {
        Ok(())
    } else {
        Err(Ctap2StatusCode::CTAP2_ERR_UNSUPPORTED_ALGORITHM)
    }
}

/// A coordinate as it has to be: of the curve's coordinate width.
pub open spec fn as_coordinate(bytes: Seq<u8>) -> Result<Seq<u8>, Ctap2StatusCode> {
    if bytes.len() == 32 {
        Ok(bytes)
    } else {
        Err(Ctap2StatusCode::CTAP1_ERR_INVALID_PARAMETER)
    }
}

/// The public key in a map. Key type, algorithm, curve and the two
/// coordinates are looked for in this order, each has to be there, and each
/// is checked as soon as it is read: the first that fails decides the error.
/// The algorithm may be the key-agreement one or the signature one, which is
/// taken for the same. At last the two coordinates have to be those of a
/// point of the curve.
pub open spec fn decode_key(m: Seq<(KeyView, ValueView)>) -> Result<PubKeyView, Ctap2StatusCode> {
    match required(m, int_key(KEY_TYPE_LABEL), |v: ValueView| as_integer(v)) {
        Err(e) => Err(e),
        Ok(key_type) => match supported(key_type == EC2_KEY_TYPE) {
            Err(e) => Err(e),
            Ok(_) => match required(m, int_key(ALGORITHM_LABEL), |v: ValueView| as_integer(v)) {
                Err(e) => Err(e),
                Ok(algorithm) => match supported(
                    algorithm == ECDH_ALGORITHM || algorithm == ES256_ALGORITHM,
                ) {
                    Err(e) => Err(e),
                    Ok(_) => match required(
                        m,
                        int_key(CURVE_LABEL),
                        |v: ValueView| as_integer(v),
                    ) {
                        Err(e) => Err(e),
                        Ok(curve) => match supported(curve == P_256_CURVE) {
                            Err(e) => Err(e),
                            Ok(_) => decode_coordinates(m),
                        },
                    },
                },
            },
        },
    }
}

/// The second half of [`decode_key`]: the two coordinates.
pub open spec fn decode_coordinates(m: Seq<(KeyView, ValueView)>) -> Result<
    PubKeyView,
    Ctap2StatusCode,
> {
    match required(m, int_key(X_LABEL), |v: ValueView| as_bytes(v)) {
        Err(e) => Err(e),
        Ok(x_bytes) => match as_coordinate(x_bytes) {
            Err(e) => Err(e),
            Ok(x) => match required(m, int_key(Y_LABEL), |v: ValueView| as_bytes(v)) {
                Err(e) => Err(e),
                Ok(y_bytes) => match as_coordinate(y_bytes) {
                    Err(e) => Err(e),
                    Ok(y) => if is_curve_point(x, y) {
                        Ok(PubKeyView { x, y })
                    } else {
                        Err(Ctap2StatusCode::CTAP1_ERR_INVALID_PARAMETER)
                    },
                },
            },
        },
    }
}

impl CoseKey {
    /// The map for a public key.
    pub fn from_public_key(pk: PubKey) -> (r: CoseKey)
        ensures
            r@ == encode_key(pk@),
            decode_key(r@) == Ok::<_, Ctap2StatusCode>(pk@),
    {
        let mut x_bytes = [0u8; 32];
        let mut y_bytes = [0u8; 32];
        pk.to_coordinates(&mut x_bytes, &mut y_bytes);
        let mut entries: Vec<(KeyType, Value)> = Vec::new();
        push_field(
            &mut entries,
            KeyType::integer(KEY_TYPE_LABEL),
            Some(Value::integer(EC2_KEY_TYPE)),
        );
        push_field(
            &mut entries,
            KeyType::integer(ALGORITHM_LABEL),
            Some(Value::integer(ECDH_ALGORITHM)),
        );
        push_field(&mut entries, KeyType::integer(CURVE_LABEL), Some(Value::integer(P_256_CURVE)));
        push_field(
            &mut entries,
            KeyType::integer(X_LABEL),
            Some(Value::byte_string(to_vec(&x_bytes))),
        );
        push_field(
            &mut entries,
            KeyType::integer(Y_LABEL),
            Some(Value::byte_string(to_vec(&y_bytes))),
        );
        proof {
            key_round_trip(pk@);
        }
        CoseKey(entries)
    }

    /// The public key in the map.
    pub fn into_public_key(self) -> (r: Result<PubKey, Ctap2StatusCode>)
        ensures
            view_of(r) == decode_key(self@),
    {
        let key_type = read_integer(ok_or_missing(map_get_int(&self.0, KEY_TYPE_LABEL))?)?;
        if key_type != EC2_KEY_TYPE {
            return Err(Ctap2StatusCode::CTAP2_ERR_UNSUPPORTED_ALGORITHM);
        }
        let algorithm = read_integer(ok_or_missing(map_get_int(&self.0, ALGORITHM_LABEL))?)?;
        if algorithm != ECDH_ALGORITHM && algorithm != ES256_ALGORITHM {
            return Err(Ctap2StatusCode::CTAP2_ERR_UNSUPPORTED_ALGORITHM);
        }
        let curve = read_integer(ok_or_missing(map_get_int(&self.0, CURVE_LABEL))?)?;
        if curve != P_256_CURVE {
            return Err(Ctap2StatusCode::CTAP2_ERR_UNSUPPORTED_ALGORITHM);
        }
        let x_bytes = read_byte_string(ok_or_missing(map_get_int(&self.0, X_LABEL))?)?;
        let x = match to_array(&x_bytes) {
            Some(bytes) => bytes,
            None => {
                return Err(Ctap2StatusCode::CTAP1_ERR_INVALID_PARAMETER);
            },
        };
        let y_bytes = read_byte_string(ok_or_missing(map_get_int(&self.0, Y_LABEL))?)?;
        let y = match to_array(&y_bytes) {
            Some(bytes) => bytes,
            None => {
                return Err(Ctap2StatusCode::CTAP1_ERR_INVALID_PARAMETER);
            },
        };
        match PubKey::from_coordinates(&x, &y) {
            Some(key) => Ok(key),
            None => Err(Ctap2StatusCode::CTAP1_ERR_INVALID_PARAMETER),
        }
    }
}

/// Taking the key out of the map that was made for it gives the key back,
/// where its coordinates are those of a point of the curve; where they are
/// not, it fails on them.
pub proof fn key_round_trip(key: PubKeyView)
    ensures
        decode_key(encode_key(key)) == if key.x.len() == 32 && key.y.len() == 32
            && is_curve_point(key.x, key.y) {
            Ok::<_, Ctap2StatusCode>(key)
        } else {
            Err(Ctap2StatusCode::CTAP1_ERR_INVALID_PARAMETER)
        },
{
    broadcast use {lemma_find_key_concat, lemma_find_key_field};

}

/// A map with the supported key type and a supported algorithm, whose curve
/// is an integer other than that of P-256, is refused as unsupported.
pub proof fn other_curve_is_unsupported(m: Seq<(KeyView, ValueView)>, curve: i64)
    requires
        required(m, int_key(KEY_TYPE_LABEL), |v: ValueView| as_integer(v)) == Ok::<
            _,
            Ctap2StatusCode,
        >(EC2_KEY_TYPE),
        required(m, int_key(ALGORITHM_LABEL), |v: ValueView| as_integer(v)) == Ok::<
            _,
            Ctap2StatusCode,
        >(ECDH_ALGORITHM) || required(m, int_key(ALGORITHM_LABEL), |v: ValueView| as_integer(v))
            == Ok::<_, Ctap2StatusCode>(ES256_ALGORITHM),
        required(m, int_key(CURVE_LABEL), |v: ValueView| as_integer(v)) == Ok::<
            _,
            Ctap2StatusCode,
        >(curve),
        curve != P_256_CURVE,
    ensures
        decode_key(m) == Err::<PubKeyView, _>(Ctap2StatusCode::CTAP2_ERR_UNSUPPORTED_ALGORITHM),
{
}

} // verus!
