use ctap_codec::cbor::{KeyType, SimpleValue, Value};
use ctap_codec::credential::PublicKeyCredentialType;
use ctap_codec::credential_source::{PublicKeyCredentialSource, PublicKeyCredentialSourceField};
use ctap_codec::ecdsa::SecKey;
use ctap_codec::status_code::Ctap2StatusCode;
use rand_core::RngCore;

fn generate_private_key() -> SecKey {
    let secret = p256::SecretKey::random(&mut rand_core::OsRng);
    let bytes: [u8; 32] = secret.to_bytes().into();
    SecKey::from_bytes(&bytes).unwrap()
}

fn generate_credential() -> PublicKeyCredentialSource {
    let mut credential_id = [0u8; 32];
    rand_core::OsRng.fill_bytes(&mut credential_id);
    PublicKeyCredentialSource {
        key_type: PublicKeyCredentialType::PublicKey,
        credential_id: credential_id.to_vec(),
        private_key: generate_private_key(),
        rp_id: "example.com".to_string(),
        user_handle: b"foo".to_vec(),
        other_ui: None,
        cred_random: None,
    }
}

fn entries_of(value: Value) -> Vec<(KeyType, Value)> {
    match value {
        Value::Mapping(entries) => entries,
        _ => panic!("a credential is written as a map"),
    }
}

/// A written credential with the entry under one tag set anew, or taken away.
fn with_entry(credential: &PublicKeyCredentialSource, tag: u64, value: Option<Value>) -> Value {
    let mut entries = entries_of(credential.clone().encode());
    entries.retain(|(key, _)| *key != KeyType::Unsigned(tag));
    if let Some(value) = value {
        entries.push((KeyType::Unsigned(tag), value));
    }
    Value::Mapping(entries)
}

#[test]
fn test_credential_source_cbor_round_trip() {
    let credential = generate_credential();

    assert_eq!(
        PublicKeyCredentialSource::decode(credential.clone().encode()),
        Ok(credential.clone())
    );

    let credential = PublicKeyCredentialSource {
        other_ui: Some("other".to_string()),
        ..credential
    };

    assert_eq!(
        PublicKeyCredentialSource::decode(credential.clone().encode()),
        Ok(credential.clone())
    );

    let credential = PublicKeyCredentialSource {
        cred_random: Some(vec![0x00; 32]),
        ..credential
    };

    assert_eq!(
        PublicKeyCredentialSource::decode(credential.clone().encode()),
        Ok(credential)
    );
}

#[test]
fn test_credential_source_invalid_cbor() {
    assert!(PublicKeyCredentialSource::decode(Value::bool_value(false)).is_err());
    assert!(
        PublicKeyCredentialSource::decode(Value::Array(vec![Value::bool_value(false)])).is_err()
    );
    assert!(
        PublicKeyCredentialSource::decode(Value::Array(vec![Value::byte_string(b"foo".to_vec())]))
            .is_err()
    );
}

#[test]
fn credential_source_tags() {
    assert_eq!(PublicKeyCredentialSourceField::CredentialId.tag(), 0);
    assert_eq!(PublicKeyCredentialSourceField::PrivateKey.tag(), 1);
    assert_eq!(PublicKeyCredentialSourceField::RpId.tag(), 2);
    assert_eq!(PublicKeyCredentialSourceField::UserHandle.tag(), 3);
    assert_eq!(PublicKeyCredentialSourceField::OtherUi.tag(), 4);
    assert_eq!(PublicKeyCredentialSourceField::CredRandom.tag(), 5);
    assert_eq!(
        PublicKeyCredentialSourceField::UserHandle.key(),
        KeyType::Unsigned(3)
    );
}

#[test]
fn credential_source_is_stored_under_its_tags() {
    let mut one = [0u8; 32];
    one[31] = 1;
    let credential = PublicKeyCredentialSource {
        key_type: PublicKeyCredentialType::PublicKey,
        credential_id: vec![1, 2],
        private_key: SecKey::from_bytes(&one).unwrap(),
        rp_id: "example.com".to_string(),
        user_handle: vec![],
        other_ui: None,
        cred_random: Some(vec![9]),
    };
    assert_eq!(
        credential.encode(),
        Value::Mapping(vec![
            (KeyType::Unsigned(0), Value::byte_string(vec![1, 2])),
            (KeyType::Unsigned(1), Value::byte_string(one.to_vec())),
            (KeyType::Unsigned(2), Value::text_string("example.com")),
            (KeyType::Unsigned(3), Value::byte_string(vec![])),
            (KeyType::Unsigned(5), Value::byte_string(vec![9])),
        ])
    );
}

#[test]
fn credential_source_drops_unknown_tags() {
    let credential = PublicKeyCredentialSource {
        other_ui: Some("other".to_string()),
        cred_random: Some(vec![0x00; 32]),
        ..generate_credential()
    };
    let written = entries_of(credential.clone().encode());
    let extras = [
        (KeyType::Unsigned(6), Value::integer(1)),
        (KeyType::Unsigned(u64::MAX), Value::Array(vec![])),
        (KeyType::Negative(-1), Value::byte_string(vec![1])),
        (KeyType::text("1"), Value::byte_string(vec![0; 31])),
        (
            KeyType::ByteString(vec![1]),
            Value::Simple(SimpleValue::NullValue),
        ),
    ];
    for extra in extras {
        for at in 0..=written.len() {
            let mut entries = written.clone();
            entries.insert(at, extra.clone());
            assert_eq!(
                PublicKeyCredentialSource::decode(Value::Mapping(entries)),
                Ok(credential.clone())
            );
        }
    }
}

#[test]
fn credential_source_private_key_has_32_bytes() {
    let credential = generate_credential();
    for length in [0, 31, 33] {
        assert_eq!(
            PublicKeyCredentialSource::decode(with_entry(
                &credential,
                1,
                Some(Value::byte_string(vec![1; length]))
            )),
            Err(Ctap2StatusCode::CTAP2_ERR_INVALID_CBOR)
        );
    }
    assert_eq!(
        PublicKeyCredentialSource::decode(with_entry(
            &credential,
            1,
            Some(Value::byte_string(vec![0; 32]))
        )),
        Err(Ctap2StatusCode::CTAP2_ERR_INVALID_CBOR)
    );
    assert_eq!(
        PublicKeyCredentialSource::decode(with_entry(
            &credential,
            1,
            Some(Value::byte_string(vec![0xff; 32]))
        )),
        Err(Ctap2StatusCode::CTAP2_ERR_INVALID_CBOR)
    );
    assert_eq!(
        PublicKeyCredentialSource::decode(with_entry(
            &credential,
            1,
            Some(Value::text_string("key"))
        )),
        Err(Ctap2StatusCode::CTAP2_ERR_CBOR_UNEXPECTED_TYPE)
    );
}

#[test]
fn credential_source_needs_its_required_fields() {
    let credential = generate_credential();
    for tag in 0..4 {
        assert_eq!(
            PublicKeyCredentialSource::decode(with_entry(&credential, tag, None)),
            Err(Ctap2StatusCode::CTAP2_ERR_MISSING_PARAMETER)
        );
    }
    assert_eq!(
        PublicKeyCredentialSource::decode(Value::Mapping(vec![])),
        Err(Ctap2StatusCode::CTAP2_ERR_MISSING_PARAMETER)
    );
    assert_eq!(
        PublicKeyCredentialSource::decode(Value::bool_value(false)),
        Err(Ctap2StatusCode::CTAP2_ERR_CBOR_UNEXPECTED_TYPE)
    );
    // The private key is checked before the relying party is looked for.
    let mut entries = entries_of(with_entry(&credential, 2, None));
    entries.retain(|(key, _)| *key != KeyType::Unsigned(1));
    entries.push((KeyType::Unsigned(1), Value::byte_string(vec![1; 31])));
    assert_eq!(
        PublicKeyCredentialSource::decode(Value::Mapping(entries)),
        Err(Ctap2StatusCode::CTAP2_ERR_INVALID_CBOR)
    );
}

#[test]
fn credential_source_field_types() {
    let credential = generate_credential();
    for (tag, value) in [
        (0, Value::text_string("id")),
        (2, Value::byte_string(b"example.com".to_vec())),
        (3, Value::integer(0)),
        (4, Value::byte_string(b"other".to_vec())),
        (5, Value::text_string("random")),
    ] {
        assert_eq!(
            PublicKeyCredentialSource::decode(with_entry(&credential, tag, Some(value))),
            Err(Ctap2StatusCode::CTAP2_ERR_CBOR_UNEXPECTED_TYPE)
        );
    }
}

#[test]
fn credential_source_is_read_as_a_public_key_credential() {
    let credential = PublicKeyCredentialSource {
        key_type: PublicKeyCredentialType::Unknown,
        ..generate_credential()
    };
    let read = PublicKeyCredentialSource::decode(credential.clone().encode()).unwrap();
    assert_eq!(read.key_type, PublicKeyCredentialType::PublicKey);
    assert_eq!(
        read,
        PublicKeyCredentialSource {
            key_type: PublicKeyCredentialType::PublicKey,
            ..credential
        }
    );
}

#[test]
fn credential_source_user_handle_may_be_empty() {
    let credential = PublicKeyCredentialSource {
        user_handle: vec![],
        ..generate_credential()
    };
    assert_eq!(
        PublicKeyCredentialSource::decode(credential.clone().encode()),
        Ok(credential)
    );
}
