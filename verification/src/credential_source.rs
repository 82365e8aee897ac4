//! The authenticator's record of a credential and its stored form, a map
//! from small integer tags to fields.

use crate::bytes::{to_array, to_vec};
use crate::cbor::{
    bytes_node, entries_view, field, find_key, lemma_find_key_concat, lemma_find_key_field,
    lemma_insert_keeps_others, lemma_remove_key_keeps_others, lemma_view_of_parts, map_remove,
    push_field, text_node, KeyType, KeyView, Value, ValueView,
};
use crate::credential::PublicKeyCredentialType;
use crate::ecdsa::{is_private_scalar, SecKey};
use crate::read::{
    as_bytes, as_map, as_text, extract_byte_string, extract_map, extract_text_string,
    ok_or_missing, optional, required, view_of,
};
use crate::status_code::Ctap2StatusCode;
use vstd::prelude::*;

verus! {

/// The authenticator's durable secret record of one registered credential.
///
/// The user handle is always there, but may be empty.
#[derive(Clone, Debug, PartialEq, Eq)]
pub struct PublicKeyCredentialSource {
    pub key_type: PublicKeyCredentialType,
    pub credential_id: Vec<u8>,
    pub private_key: SecKey,
    pub rp_id: String,
    pub user_handle: Vec<u8>,
    pub other_ui: Option<String>,
    pub cred_random: Option<Vec<u8>>,
}

/// What a [`PublicKeyCredentialSource`] holds.
pub struct PublicKeyCredentialSourceView {
    pub key_type: PublicKeyCredentialType,
    pub credential_id: Seq<u8>,
    pub private_key: Seq<u8>,
    pub rp_id: Seq<char>,
    pub user_handle: Seq<u8>,
    pub other_ui: Option<Seq<char>>,
    pub cred_random: Option<Seq<u8>>,
}

impl View for PublicKeyCredentialSource {
    type V = PublicKeyCredentialSourceView;

    open spec fn view(&self) -> PublicKeyCredentialSourceView {
        PublicKeyCredentialSourceView {
            key_type: self.key_type,
            credential_id: self.credential_id@,
            private_key: self.private_key@,
            rp_id: self.rp_id@,
            user_handle: self.user_handle@,
            other_ui: match self.other_ui {
                Some(t) => Some(t@),
                None => None,
            },
            cred_random: match self.cred_random {
                Some(b) => Some(b@),
                None => None,
            },
        }
    }
}

/// The fields of a stored credential. Each is stored under a tag of its own,
/// a small non-negative integer.
///
/// The table of tags only grows. The tag of a field that is given up stays
/// reserved for good and is never given to another field, nor to the same
/// one again: nothing at run time tells an old reserved tag from a new one of
/// the same number. Reserved tags: none.
#[derive(Clone, Copy, Debug, PartialEq, Eq, Structural)]
pub enum PublicKeyCredentialSourceField {
    CredentialId,
    PrivateKey,
    RpId,
    UserHandle,
    OtherUi,
    CredRandom,
}

/// The tag that a field is stored under.
pub open spec fn field_tag(f: PublicKeyCredentialSourceField) -> u64 {
    match f {
        PublicKeyCredentialSourceField::CredentialId => 0,
        PublicKeyCredentialSourceField::PrivateKey => 1,
        PublicKeyCredentialSourceField::RpId => 2,
        PublicKeyCredentialSourceField::UserHandle => 3,
        PublicKeyCredentialSourceField::OtherUi => 4,
        PublicKeyCredentialSourceField::CredRandom => 5,
    }
}

/// The key that a field is stored under.
pub open spec fn field_key(f: PublicKeyCredentialSourceField) -> KeyView {
    KeyView::Unsigned(field_tag(f))
}

/// Whether a key is the tag of one of the fields.
pub open spec fn is_field_key(key: KeyView) -> bool {
    exists|f: PublicKeyCredentialSourceField| #[trigger] field_key(f) == key
}

impl PublicKeyCredentialSourceField {
    /// The tag that the field is stored under.
    pub fn tag(self) -> (r: u64)
        ensures
            r == field_tag(self),
    {
        match self {
            PublicKeyCredentialSourceField::CredentialId => 0,
            PublicKeyCredentialSourceField::PrivateKey => 1,
            PublicKeyCredentialSourceField::RpId => 2,
            PublicKeyCredentialSourceField::UserHandle => 3,
            PublicKeyCredentialSourceField::OtherUi => 4,
            PublicKeyCredentialSourceField::CredRandom => 5,
        }
    }

    /// The key that the field is stored under.
    pub fn key(self) -> (r: KeyType)
        ensures
            r@ == field_key(self),
    {
        KeyType::Unsigned(self.tag())
    }
}

/// The stored form of a credential: a map from tags to the fields that are
/// there. An optional field that is absent has no entry.
pub open spec fn encode_source(source: PublicKeyCredentialSourceView) -> ValueView {
    ValueView::Mapping(
        field(
            field_key(PublicKeyCredentialSourceField::CredentialId),
            Some(bytes_node(source.credential_id)),
        ) + field(
            field_key(PublicKeyCredentialSourceField::PrivateKey),
            Some(bytes_node(source.private_key)),
        ) + field(field_key(PublicKeyCredentialSourceField::RpId), Some(text_node(source.rp_id)))
            + field(
            field_key(PublicKeyCredentialSourceField::UserHandle),
            Some(bytes_node(source.user_handle)),
        ) + field(
            field_key(PublicKeyCredentialSourceField::OtherUi),
            match source.other_ui {
                Some(t) => Some(text_node(t)),
                None => None,
            },
        ) + field(
            field_key(PublicKeyCredentialSourceField::CredRandom),
            match source.cred_random {
                Some(b) => Some(bytes_node(b)),
                None => None,
            },
        ),
    )
}

/// The bytes of a private key as they have to be: 32 of them, a private
/// scalar of the curve.
pub open spec fn as_private_key(bytes: Seq<u8>) -> Result<Seq<u8>, Ctap2StatusCode> {
    if bytes.len() == 32 && is_private_scalar(bytes) {
        Ok(bytes)
    } else {
        Err(Ctap2StatusCode::CTAP2_ERR_INVALID_CBOR)
    }
}

/// The credential in a stored map. The fields are looked for in the order of
/// their tags and the first that fails decides the error: the credential id,
/// the private key, the relying party and the user handle have to be there;
/// the private key is checked as soon as it is read. Entries under other
/// keys are passed over. The kind is always `PublicKey`.
pub open spec fn decode_source(v: ValueView) -> Result<
    PublicKeyCredentialSourceView,
    Ctap2StatusCode,
> {
    match as_map(v) {
        Err(e) => Err(e),
        Ok(m) => match required(
            m,
            field_key(PublicKeyCredentialSourceField::CredentialId),
            |x: ValueView| as_bytes(x),
        ) {
            Err(e) => Err(e),
            Ok(credential_id) => match required(
                m,
                field_key(PublicKeyCredentialSourceField::PrivateKey),
                |x: ValueView| as_bytes(x),
            ) {
                Err(e) => Err(e),
                Ok(key_bytes) => match as_private_key(key_bytes) {
                    Err(e) => Err(e),
                    Ok(private_key) => match required(
                        m,
                        field_key(PublicKeyCredentialSourceField::RpId),
                        |x: ValueView| as_text(x),
                    ) {
                        Err(e) => Err(e),
                        Ok(rp_id) => match required(
                            m,
                            field_key(PublicKeyCredentialSourceField::UserHandle),
                            |x: ValueView| as_bytes(x),
                        ) {
                            Err(e) => Err(e),
                            Ok(user_handle) => match optional(
                                m,
                                field_key(PublicKeyCredentialSourceField::OtherUi),
                                |x: ValueView| as_text(x),
                            ) {
                                Err(e) => Err(e),
                                Ok(other_ui) => match optional(
                                    m,
                                    field_key(PublicKeyCredentialSourceField::CredRandom),
                                    |x: ValueView| as_bytes(x),
                                ) {
                                    Err(e) => Err(e),
                                    Ok(cred_random) => Ok(
                                        PublicKeyCredentialSourceView {
                                            key_type: PublicKeyCredentialType::PublicKey,
                                            credential_id,
                                            private_key,
                                            rp_id,
                                            user_handle,
                                            other_ui,
                                            cred_random,
                                        },
                                    ),
                                },
                            },
                        },
                    },
                },
            },
        },
    }
}

impl PublicKeyCredentialSource {
    /// Writes the credential in its stored form, see [`encode_source`]. What
    /// is written reads back as the credential, of the kind `PublicKey`.
    pub fn encode(self) -> (r: Value)
        ensures
            r@ == encode_source(self@),
            decode_source(r@) == Ok::<_, Ctap2StatusCode>(
                PublicKeyCredentialSourceView {
                    key_type: PublicKeyCredentialType::PublicKey,
                    ..self@
                },
            ),
    {
        let mut private_key = [0u8; 32];
        self.private_key.to_bytes(&mut private_key);
        proof {
            source_round_trip(self@);
        }
        let mut entries: Vec<(KeyType, Value)> = Vec::new();
        push_field(
            &mut entries,
            PublicKeyCredentialSourceField::CredentialId.key(),
            Some(Value::byte_string(self.credential_id)),
        );
        push_field(
            &mut entries,
            PublicKeyCredentialSourceField::PrivateKey.key(),
            Some(Value::byte_string(to_vec(&private_key))),
        );
        push_field(
            &mut entries,
            PublicKeyCredentialSourceField::RpId.key(),
            Some(Value::KeyValue(KeyType::TextString(self.rp_id))),
        );
        push_field(
            &mut entries,
            PublicKeyCredentialSourceField::UserHandle.key(),
            Some(Value::byte_string(self.user_handle)),
        );
        let other_ui = match self.other_ui {
            Some(text) => Some(Value::KeyValue(KeyType::TextString(text))),
            None => None,
        };
        push_field(&mut entries, PublicKeyCredentialSourceField::OtherUi.key(), other_ui);
        let cred_random = match self.cred_random {
            Some(bytes) => Some(Value::byte_string(bytes)),
            None => None,
        };
        push_field(&mut entries, PublicKeyCredentialSourceField::CredRandom.key(), cred_random);
        let r = Value::Mapping(entries);
        proof {
            lemma_view_of_parts(r);
        }
        r
    }

    /// Reads a stored credential, see [`decode_source`].
    pub fn decode(cbor_value: Value) -> (r: Result<PublicKeyCredentialSource, Ctap2StatusCode>)
        ensures
            view_of(r) == decode_source(cbor_value@),
    {
        let mut map = extract_map(cbor_value)?;
        let ghost m = entries_view(map@);
        let ghost k0 = field_key(PublicKeyCredentialSourceField::CredentialId);
        let ghost k1 = field_key(PublicKeyCredentialSourceField::PrivateKey);
        let ghost k2 = field_key(PublicKeyCredentialSourceField::RpId);
        let ghost k3 = field_key(PublicKeyCredentialSourceField::UserHandle);
        let ghost k4 = field_key(PublicKeyCredentialSourceField::OtherUi);
        let ghost k5 = field_key(PublicKeyCredentialSourceField::CredRandom);
        let credential_id = extract_byte_string(
            ok_or_missing(
                map_remove(&mut map, &PublicKeyCredentialSourceField::CredentialId.key()),
            )?,
        )?;
        let ghost m1 = entries_view(map@);
        proof {
            lemma_remove_key_keeps_others(m, k0, k1);
            lemma_remove_key_keeps_others(m, k0, k2);
            lemma_remove_key_keeps_others(m, k0, k3);
            lemma_remove_key_keeps_others(m, k0, k4);
            lemma_remove_key_keeps_others(m, k0, k5);
        }
        let private_key = extract_byte_string(
            ok_or_missing(map_remove(&mut map, &PublicKeyCredentialSourceField::PrivateKey.key()))?,
        )?;
        let ghost m2 = entries_view(map@);
        proof {
            lemma_remove_key_keeps_others(m1, k1, k2);
            lemma_remove_key_keeps_others(m1, k1, k3);
            lemma_remove_key_keeps_others(m1, k1, k4);
            lemma_remove_key_keeps_others(m1, k1, k5);
        }
        let private_key = match to_array(&private_key) {
            Some(bytes) => bytes,
            None => {
                return Err(Ctap2StatusCode::CTAP2_ERR_INVALID_CBOR);
            },
        };
        let private_key = match SecKey::from_bytes(&private_key) {
            Some(key) => key,
            None => {
                return Err(Ctap2StatusCode::CTAP2_ERR_INVALID_CBOR);
            },
        };
        let rp_id = extract_text_string(
            ok_or_missing(map_remove(&mut map, &PublicKeyCredentialSourceField::RpId.key()))?,
        )?;
        let ghost m3 = entries_view(map@);
        proof {
            lemma_remove_key_keeps_others(m2, k2, k3);
            lemma_remove_key_keeps_others(m2, k2, k4);
            lemma_remove_key_keeps_others(m2, k2, k5);
        }
        let user_handle = extract_byte_string(
            ok_or_missing(map_remove(&mut map, &PublicKeyCredentialSourceField::UserHandle.key()))?,
        )?;
        let ghost m4 = entries_view(map@);
        proof {
            lemma_remove_key_keeps_others(m3, k3, k4);
            lemma_remove_key_keeps_others(m3, k3, k5);
        }
        let other_ui = match map_remove(&mut map, &PublicKeyCredentialSourceField::OtherUi.key()) {
            Some(value) => Some(extract_text_string(value)?),
            None => None,
        };
        proof {
            lemma_remove_key_keeps_others(m4, k4, k5);
        }
        let cred_random = match map_remove(
            &mut map,
            &PublicKeyCredentialSourceField::CredRandom.key(),
        ) {
            Some(value) => Some(extract_byte_string(value)?),
            None => None,
        };
        Ok(
            PublicKeyCredentialSource {
                key_type: PublicKeyCredentialType::PublicKey,
                credential_id,
                private_key,
                rp_id,
                user_handle,
                other_ui,
                cred_random,
            },
        )
    }
}

/// Reading what was written for a credential gives the credential back, as
/// one of the kind `PublicKey`, where its private key is one of the curve;
/// where it is not, reading fails on the key.
pub proof fn source_round_trip(source: PublicKeyCredentialSourceView)
    ensures
        decode_source(encode_source(source)) == match as_private_key(source.private_key) {
            Ok(_) => Ok(
                PublicKeyCredentialSourceView {
                    key_type: PublicKeyCredentialType::PublicKey,
                    ..source
                },
            ),
            Err(e) => Err(e),
        },
{
    broadcast use {lemma_find_key_concat, lemma_find_key_field};

}

/// Reading passes over an entry under a key that is no field's tag, at
/// whatever place in the map it stands: the map reads as it does without
/// the entry.
pub proof fn unknown_entry_is_dropped(
    entries: Seq<(KeyView, ValueView)>,
    at: int,
    extra: (KeyView, ValueView),
)
    requires
        0 <= at <= entries.len(),
        !is_field_key(extra.0),
    ensures
        decode_source(ValueView::Mapping(entries.insert(at, extra))) == decode_source(
            ValueView::Mapping(entries),
        ),
{
    assert forall|f: PublicKeyCredentialSourceField|
        find_key(entries.insert(at, extra), #[trigger] field_key(f)) == find_key(
            entries,
            field_key(f),
        ) by {
        lemma_insert_keeps_others(entries, at, extra, field_key(f));
    }
}

/// A written credential with one more entry put into its map, under a key
/// that is no field's tag, reads as the written credential does.
pub proof fn source_round_trip_with_unknown_entry(
    source: PublicKeyCredentialSourceView,
    at: int,
    extra: (KeyView, ValueView),
)
    requires
        0 <= at <= encode_source(source)->Mapping_0.len(),
        !is_field_key(extra.0),
    ensures
        decode_source(
            ValueView::Mapping(encode_source(source)->Mapping_0.insert(at, extra)),
        ) == match as_private_key(source.private_key) {
            Ok(_) => Ok(
                PublicKeyCredentialSourceView {
                    key_type: PublicKeyCredentialType::PublicKey,
                    ..source
                },
            ),
            Err(e) => Err(e),
        },
{
    unknown_entry_is_dropped(encode_source(source)->Mapping_0, at, extra);
    source_round_trip(source);
}

} // verus!
