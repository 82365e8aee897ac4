use ctap_codec::bytes::{to_array, to_vec};
use ctap_codec::ecdh::PubKey;
use ctap_codec::ecdsa::SecKey;
use p256::elliptic_curve::sec1::ToEncodedPoint;

// The base point of P-256.
const GX: [u8; 32] = [
    0x6b, 0x17, 0xd1, 0xf2, 0xe1, 0x2c, 0x42, 0x47, 0xf8, 0xbc, 0xe6, 0xe5, 0x63, 0xa4, 0x40, 0xf2,
    0x77, 0x03, 0x7d, 0x81, 0x2d, 0xeb, 0x33, 0xa0, 0xf4, 0xa1, 0x39, 0x45, 0xd8, 0x98, 0xc2, 0x96,
];
const GY: [u8; 32] = [
    0x4f, 0xe3, 0x42, 0xe2, 0xfe, 0x1a, 0x7f, 0x9b, 0x8e, 0xe7, 0xeb, 0x4a, 0x7c, 0x0f, 0x9e, 0x16,
    0x2b, 0xce, 0x33, 0x57, 0x6b, 0x31, 0x5e, 0xce, 0xcb, 0xb6, 0x40, 0x68, 0x37, 0xbf, 0x51, 0xf5,
];
// The order of the group of P-256.
const ORDER: [u8; 32] = [
    0xff, 0xff, 0xff, 0xff, 0x00, 0x00, 0x00, 0x00, 0xff, 0xff, 0xff, 0xff, 0xff, 0xff, 0xff, 0xff,
    0xbc, 0xe6, 0xfa, 0xad, 0xa7, 0x17, 0x9e, 0x84, 0xf3, 0xb9, 0xca, 0xc2, 0xfc, 0x63, 0x25, 0x51,
];

#[test]
fn array_and_vector_hold_the_same_bytes() {
    let bytes: Vec<u8> = (0..32).collect();
    let array = to_array(&bytes).unwrap();
    assert_eq!(&array[..], &bytes[..]);
    assert_eq!(to_vec(&array), bytes);
    assert_eq!(to_vec(&GX), GX.to_vec());
    assert_eq!(to_array(&bytes[..31].to_vec()), None);
    assert_eq!(to_array(&[&bytes[..], &[0u8][..]].concat()), None);
    assert_eq!(to_array(&Vec::new()), None);
}

#[test]
fn public_key_has_to_be_on_the_curve() {
    let key = PubKey::from_coordinates(&GX, &GY).unwrap();
    let mut x = [0u8; 32];
    let mut y = [0u8; 32];
    key.to_coordinates(&mut x, &mut y);
    assert_eq!(x, GX);
    assert_eq!(y, GY);
    assert_eq!(key.clone(), key);

    assert_eq!(PubKey::from_coordinates(&GY, &GX), None);
    assert_eq!(PubKey::from_coordinates(&[0u8; 32], &[0u8; 32]), None);
    assert_eq!(PubKey::from_coordinates(&[0xff; 32], &GY), None);
    let mut off = GY;
    off[31] ^= 1;
    assert_eq!(PubKey::from_coordinates(&GX, &off), None);
}

#[test]
fn public_key_of_a_generated_secret_key_is_taken() {
    for _ in 0..8 {
        let secret = p256::SecretKey::random(&mut rand_core::OsRng);
        let point = secret.public_key().to_encoded_point(false);
        let x: [u8; 32] = (*point.x().unwrap()).into();
        let y: [u8; 32] = (*point.y().unwrap()).into();
        let key = PubKey::from_coordinates(&x, &y).unwrap();
        let mut x_out = [0u8; 32];
        let mut y_out = [0u8; 32];
        key.to_coordinates(&mut x_out, &mut y_out);
        assert_eq!((x_out, y_out), (x, y));
    }
}

#[test]
fn private_key_has_to_be_a_scalar_of_the_curve() {
    let mut one = [0u8; 32];
    one[31] = 1;
    let key = SecKey::from_bytes(&one).unwrap();
    let mut out = [0xaa; 32];
    key.to_bytes(&mut out);
    assert_eq!(out, one);
    assert_eq!(key.clone(), key);

    assert_eq!(SecKey::from_bytes(&[0u8; 32]), None);
    assert_eq!(SecKey::from_bytes(&ORDER), None);
    assert_eq!(SecKey::from_bytes(&[0xff; 32]), None);
    let mut largest = ORDER;
    largest[31] -= 1;
    assert!(SecKey::from_bytes(&largest).is_some());
}

#[test]
fn generated_private_key_is_taken() {
    for _ in 0..8 {
        let secret = p256::SecretKey::random(&mut rand_core::OsRng);
        let bytes: [u8; 32] = secret.to_bytes().into();
        let key = SecKey::from_bytes(&bytes).unwrap();
        let mut out = [0u8; 32];
        key.to_bytes(&mut out);
        assert_eq!(out, bytes);
    }
}
