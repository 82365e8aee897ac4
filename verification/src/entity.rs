//! The relying party and the user of a credential.

use crate::cbor::{
    bytes_node, entries_view, field, lemma_find_key_concat, lemma_find_key_field,
    lemma_view_of_parts, map_get_text, optional_view, push_field, text_key, text_node, KeyType,
    Value, ValueView,
};
use crate::read::{
    as_bytes, as_map, as_text, ok_or_missing, optional, read_byte_string, read_map,
    read_text_string, required, view_of,
};
use crate::status_code::Ctap2StatusCode;
use vstd::prelude::*;

verus! {

/// The service that a credential is scoped to.
#[derive(Clone, Debug, PartialEq, Eq)]
pub struct PublicKeyCredentialRpEntity {
    pub rp_id: String,
    pub rp_name: Option<String>,
    pub rp_icon: Option<String>,
}

/// What a [`PublicKeyCredentialRpEntity`] holds.
pub struct PublicKeyCredentialRpEntityView {
    pub rp_id: Seq<char>,
    pub rp_name: Option<Seq<char>>,
    pub rp_icon: Option<Seq<char>>,
}

/// The account that a credential belongs to.
#[derive(Clone, Debug, PartialEq, Eq)]
pub struct PublicKeyCredentialUserEntity {
    pub user_id: Vec<u8>,
    pub user_name: Option<String>,
    pub user_display_name: Option<String>,
    pub user_icon: Option<String>,
}

/// What a [`PublicKeyCredentialUserEntity`] holds.
pub struct PublicKeyCredentialUserEntityView {
    pub user_id: Seq<u8>,
    pub user_name: Option<Seq<char>>,
    pub user_display_name: Option<Seq<char>>,
    pub user_icon: Option<Seq<char>>,
}

/// The text in a field that may be absent.
pub open spec fn optional_text(text: Option<String>) -> Option<Seq<char>> {
    match text {
        Some(t) => Some(t@),
        None => None,
    }
}

/// The result of reading a text that may be absent, the text taken by its
/// view.
pub open spec fn optional_text_of(r: Result<Option<String>, Ctap2StatusCode>) -> Result<
    Option<Seq<char>>,
    Ctap2StatusCode,
> {
    match r {
        Ok(text) => Ok(optional_text(text)),
        Err(e) => Err(e),
    }
}

/// The node for a text that may be absent.
pub open spec fn optional_text_node(text: Option<Seq<char>>) -> Option<ValueView> {
    match text {
        Some(t) => Some(text_node(t)),
        None => None,
    }
}

impl View for PublicKeyCredentialRpEntity {
    type V = PublicKeyCredentialRpEntityView;

    open spec fn view(&self) -> PublicKeyCredentialRpEntityView {
        PublicKeyCredentialRpEntityView {
            rp_id: self.rp_id@,
            rp_name: optional_text(self.rp_name),
            rp_icon: optional_text(self.rp_icon),
        }
    }
}

impl View for PublicKeyCredentialUserEntity {
    type V = PublicKeyCredentialUserEntityView;

    open spec fn view(&self) -> PublicKeyCredentialUserEntityView {
        PublicKeyCredentialUserEntityView {
            user_id: self.user_id@,
            user_name: optional_text(self.user_name),
            user_display_name: optional_text(self.user_display_name),
            user_icon: optional_text(self.user_icon),
        }
    }
}

/// The map that a relying party is written as: the id under `id` and, where
/// they are there, the name under `name` and the icon under `icon`.
pub open spec fn encode_rp_entity(entity: PublicKeyCredentialRpEntityView) -> ValueView {
    ValueView::Mapping(
        field(text_key("id"@), Some(text_node(entity.rp_id))) + field(
            text_key("name"@),
            optional_text_node(entity.rp_name),
        ) + field(text_key("icon"@), optional_text_node(entity.rp_icon)),
    )
}

/// A relying party is a map with a text under `id`, which is required, and
/// texts under `name` and `icon`, which may be absent. They are read in this
/// order.
pub open spec fn decode_rp_entity(v: ValueView) -> Result<
    PublicKeyCredentialRpEntityView,
    Ctap2StatusCode,
> {
    match as_map(v) {
        Err(e) => Err(e),
        Ok(m) => match required(m, text_key("id"@), |x: ValueView| as_text(x)) {
            Err(e) => Err(e),
            Ok(rp_id) => match optional(m, text_key("name"@), |x: ValueView| as_text(x)) {
                Err(e) => Err(e),
                Ok(rp_name) => match optional(m, text_key("icon"@), |x: ValueView| as_text(x)) {
                    Err(e) => Err(e),
                    Ok(rp_icon) => Ok(PublicKeyCredentialRpEntityView { rp_id, rp_name, rp_icon }),
                },
            },
        },
    }
}

/// The map that a user is written as: the id under `id` and, where they are
/// there, the texts under `name`, `displayName` and `icon`.
pub open spec fn encode_user_entity(entity: PublicKeyCredentialUserEntityView) -> ValueView {
    ValueView::Mapping(
        field(text_key("id"@), Some(bytes_node(entity.user_id))) + field(
            text_key("name"@),
            optional_text_node(entity.user_name),
        ) + field(text_key("displayName"@), optional_text_node(entity.user_display_name)) + field(
            text_key("icon"@),
            optional_text_node(entity.user_icon),
        ),
    )
}

/// A user is a map with bytes under `id`, which are required, and texts
/// under `name`, `displayName` and `icon`, which may be absent. They are read
/// in this order.
pub open spec fn decode_user_entity(v: ValueView) -> Result<
    PublicKeyCredentialUserEntityView,
    Ctap2StatusCode,
> {
    match as_map(v) {
        Err(e) => Err(e),
        Ok(m) => match required(m, text_key("id"@), |x: ValueView| as_bytes(x)) {
            Err(e) => Err(e),
            Ok(user_id) => match optional(m, text_key("name"@), |x: ValueView| as_text(x)) {
                Err(e) => Err(e),
                Ok(user_name) => match optional(
                    m,
                    text_key("displayName"@),
                    |x: ValueView| as_text(x),
                ) {
                    Err(e) => Err(e),
                    Ok(user_display_name) => match optional(
                        m,
                        text_key("icon"@),
                        |x: ValueView| as_text(x),
                    ) {
                        Err(e) => Err(e),
                        Ok(user_icon) => Ok(
                            PublicKeyCredentialUserEntityView {
                                user_id,
                                user_name,
                                user_display_name,
                                user_icon,
                            },
                        ),
                    },
                },
            },
        },
    }
}

/// The node for a text that may be absent.
pub fn optional_text_value(text: Option<String>) -> (r: Option<Value>)
    ensures
        optional_view(r) == optional_text_node(optional_text(text)),
{
    match text {
        Some(t) => Some(Value::KeyValue(KeyType::TextString(t))),
        None => None,
    }
}

/// The text under `name` in a map's entries, where there is an entry.
pub fn read_optional_text(entries: &Vec<(KeyType, Value)>, name: &str) -> (r: Result<
    Option<String>,
    Ctap2StatusCode,
>)
    ensures
        optional_text_of(r) == optional(
            entries_view(entries@),
            text_key(name@),
            |x: ValueView| as_text(x),
        ),
{
    match map_get_text(entries, name) {
        Some(value) => Ok(Some(read_text_string(value)?)),
        None => Ok(None),
    }
}

impl PublicKeyCredentialRpEntity {
    /// Writes the relying party as a map, see [`encode_rp_entity`].
    pub fn encode(self) -> (r: Value)
        ensures
            r@ == encode_rp_entity(self@),
    {
        let mut entries: Vec<(KeyType, Value)> = Vec::new();
        push_field(
            &mut entries,
            KeyType::text("id"),
            Some(Value::KeyValue(KeyType::TextString(self.rp_id))),
        );
        push_field(&mut entries, KeyType::text("name"), optional_text_value(self.rp_name));
        push_field(&mut entries, KeyType::text("icon"), optional_text_value(self.rp_icon));
        let r = Value::Mapping(entries);
        proof {
            lemma_view_of_parts(r);
        }
        r
    }

    /// Reads a relying party, see [`decode_rp_entity`].
    pub fn decode(cbor_value: &Value) -> (r: Result<PublicKeyCredentialRpEntity, Ctap2StatusCode>)
        ensures
            view_of(r) == decode_rp_entity(cbor_value@),
    {
        let rp_map = read_map(cbor_value)?;
        let rp_id = read_text_string(ok_or_missing(map_get_text(rp_map, "id"))?)?;
        let rp_name = read_optional_text(rp_map, "name")?;
        let rp_icon = read_optional_text(rp_map, "icon")?;
        Ok(PublicKeyCredentialRpEntity { rp_id, rp_name, rp_icon })
    }
}

impl PublicKeyCredentialUserEntity {
    /// Writes the user as a map, see [`encode_user_entity`].
    pub fn encode(self) -> (r: Value)
        ensures
            r@ == encode_user_entity(self@),
    {
        let mut entries: Vec<(KeyType, Value)> = Vec::new();
        push_field(&mut entries, KeyType::text("id"), Some(Value::byte_string(self.user_id)));
        push_field(&mut entries, KeyType::text("name"), optional_text_value(self.user_name));
        push_field(
            &mut entries,
            KeyType::text("displayName"),
            optional_text_value(self.user_display_name),
        );
        push_field(&mut entries, KeyType::text("icon"), optional_text_value(self.user_icon));
        let r = Value::Mapping(entries);
        proof {
            lemma_view_of_parts(r);
        }
        r
    }

    /// Reads a user, see [`decode_user_entity`].
    pub fn decode(cbor_value: &Value) -> (r: Result<
        PublicKeyCredentialUserEntity,
        Ctap2StatusCode,
    >)
        ensures
            view_of(r) == decode_user_entity(cbor_value@),
    {
        let user_map = read_map(cbor_value)?;
        let user_id = read_byte_string(ok_or_missing(map_get_text(user_map, "id"))?)?;
        let user_name = read_optional_text(user_map, "name")?;
        let user_display_name = read_optional_text(user_map, "displayName")?;
        let user_icon = read_optional_text(user_map, "icon")?;
        Ok(PublicKeyCredentialUserEntity { user_id, user_name, user_display_name, user_icon })
    }
}

/// Reading what was written for a relying party gives it back, whichever of
/// its optional texts are there.
pub proof fn rp_entity_round_trip(entity: PublicKeyCredentialRpEntityView)
    ensures
        decode_rp_entity(encode_rp_entity(entity)) == Ok::<_, Ctap2StatusCode>(entity),
{
    broadcast use {lemma_find_key_concat, lemma_find_key_field};

    reveal_strlit("id");
    reveal_strlit("name");
    reveal_strlit("icon");
    assert("id"@.len() != "name"@.len());
    assert("id"@.len() != "icon"@.len());
    assert("name"@[0] != "icon"@[0]);
}

/// Reading what was written for a user gives the user back, whichever of
/// the optional texts are there.
pub proof fn user_entity_round_trip(entity: PublicKeyCredentialUserEntityView)
    ensures
        decode_user_entity(encode_user_entity(entity)) == Ok::<_, Ctap2StatusCode>(entity),
{
    broadcast use {lemma_find_key_concat, lemma_find_key_field};

    reveal_strlit("id");
    reveal_strlit("name");
    reveal_strlit("displayName");
    reveal_strlit("icon");
    assert("id"@.len() != "name"@.len());
    assert("id"@.len() != "icon"@.len());
    assert("id"@.len() != "displayName"@.len());
    assert("name"@.len() != "displayName"@.len());
    assert("icon"@.len() != "displayName"@.len());
    assert("name"@[0] != "icon"@[0]);
}

} // verus!
