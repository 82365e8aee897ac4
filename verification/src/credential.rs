//! The kind of a credential, its signature algorithm, the transports of an
//! authenticator, and the records made of them.

use crate::cbor::{
    bytes_node, field, int_node, lemma_find_key_concat, lemma_find_key_field,
    lemma_view_of_parts, map_get_text, push_field, text_equals, text_key, text_node, values_view,
    KeyType, Value, ValueView,
};
use crate::ecdsa::ES256_ALGORITHM;
use crate::read::{
    as_array, as_bytes, as_integer, as_map, as_text, ok_or_missing, optional, read_array,
    read_byte_string, read_integer, read_map, read_text_string, required, view_of,
};
use crate::status_code::Ctap2StatusCode;
use vstd::prelude::*;

verus! {

/// The kind of a credential. A kind that is not known is kept as `Unknown`:
/// it is to be passed over, not refused.
#[derive(Clone, Copy, Debug, PartialEq, Eq, Structural)]
pub enum PublicKeyCredentialType {
    PublicKey,
    Unknown,
}

/// A signature algorithm. One that is not known is kept as `Unknown`: it is
/// to be passed over, not refused.
#[derive(Clone, Copy, Debug, PartialEq, Eq, Structural)]
pub enum SignatureAlgorithm {
    ES256,
    Unknown,
}

/// A way by which an authenticator is reached. There is no catch-all: a way
/// that is not known is refused.
#[derive(Clone, Copy, Debug, PartialEq, Eq, Structural)]
pub enum AuthenticatorTransport {
    Usb,
    Nfc,
    Ble,
    Internal,
}

/// A kind of credential with a signature algorithm to use for it.
#[derive(Clone, Copy, Debug, PartialEq, Eq, Structural)]
pub struct PublicKeyCredentialParameter {
    pub cred_type: PublicKeyCredentialType,
    pub alg: SignatureAlgorithm,
}

/// A credential as a request names it: its kind, its id and, as a hint, the
/// ways by which its authenticator is reached.
#[derive(Clone, Debug, PartialEq, Eq)]
pub struct PublicKeyCredentialDescriptor {
    pub key_type: PublicKeyCredentialType,
    pub key_id: Vec<u8>,
    pub transports: Option<Vec<AuthenticatorTransport>>,
}

/// What a [`PublicKeyCredentialDescriptor`] holds.
pub struct PublicKeyCredentialDescriptorView {
    pub key_type: PublicKeyCredentialType,
    pub key_id: Seq<u8>,
    pub transports: Option<Seq<AuthenticatorTransport>>,
}

impl View for PublicKeyCredentialDescriptor {
    type V = PublicKeyCredentialDescriptorView;

    open spec fn view(&self) -> PublicKeyCredentialDescriptorView {
        PublicKeyCredentialDescriptorView {
            key_type: self.key_type,
            key_id: self.key_id@,
            transports: match self.transports {
                Some(t) => Some(t@),
                None => None,
            },
        }
    }
}

impl View for PublicKeyCredentialType {
    type V = PublicKeyCredentialType;

    open spec fn view(&self) -> PublicKeyCredentialType {
        *self
    }
}

impl View for SignatureAlgorithm {
    type V = SignatureAlgorithm;

    open spec fn view(&self) -> SignatureAlgorithm {
        *self
    }
}

impl View for AuthenticatorTransport {
    type V = AuthenticatorTransport;

    open spec fn view(&self) -> AuthenticatorTransport {
        *self
    }
}

impl View for PublicKeyCredentialParameter {
    type V = PublicKeyCredentialParameter;

    open spec fn view(&self) -> PublicKeyCredentialParameter {
        *self
    }
}

/// The text that a kind of credential is written as.
pub open spec fn credential_type_name(cred_type: PublicKeyCredentialType) -> Seq<char> {
    match cred_type {
        PublicKeyCredentialType::PublicKey => "public-key"@,
        PublicKeyCredentialType::Unknown => "unknown"@,
    }
}

/// The node that a kind of credential is written as: its name.
pub open spec fn encode_credential_type(cred_type: PublicKeyCredentialType) -> ValueView {
    text_node(credential_type_name(cred_type))
}

/// Any text is a kind of credential: the one known name is `PublicKey`,
/// every other text is `Unknown`.
pub open spec fn decode_credential_type(v: ValueView) -> Result<
    PublicKeyCredentialType,
    Ctap2StatusCode,
> {
    match as_text(v) {
        Ok(name) => if name == "public-key"@ {
            Ok(PublicKeyCredentialType::PublicKey)
        } else {
            Ok(PublicKeyCredentialType::Unknown)
        },
        Err(e) => Err(e),
    }
}

/// The number that a signature algorithm is written as.
pub open spec fn algorithm_code(alg: SignatureAlgorithm) -> i64 {
    match alg {
        SignatureAlgorithm::ES256 => ES256_ALGORITHM,
        SignatureAlgorithm::Unknown => 0,
    }
}

/// The node that a signature algorithm is written as: its code.
pub open spec fn encode_algorithm(alg: SignatureAlgorithm) -> ValueView {
    int_node(algorithm_code(alg))
}

/// Any integer is a signature algorithm: the one known code is `ES256`,
/// every other integer is `Unknown`.
pub open spec fn decode_algorithm(v: ValueView) -> Result<SignatureAlgorithm, Ctap2StatusCode> {
    match as_integer(v) {
        Ok(code) => if code == ES256_ALGORITHM {
            Ok(SignatureAlgorithm::ES256)
        } else {
            Ok(SignatureAlgorithm::Unknown)
        },
        Err(e) => Err(e),
    }
}

/// The text that a transport is written as.
pub open spec fn transport_name(transport: AuthenticatorTransport) -> Seq<char> {
    match transport {
        AuthenticatorTransport::Usb => "usb"@,
        AuthenticatorTransport::Nfc => "nfc"@,
        AuthenticatorTransport::Ble => "ble"@,
        AuthenticatorTransport::Internal => "internal"@,
    }
}

/// The node that a transport is written as: its name.
pub open spec fn encode_transport(transport: AuthenticatorTransport) -> ValueView {
    text_node(transport_name(transport))
}

/// Only the four names are transports: any other text, like any node that
/// is no text, is an error.
pub open spec fn decode_transport(v: ValueView) -> Result<AuthenticatorTransport, Ctap2StatusCode> {
    match as_text(v) {
        Ok(name) => if name == "usb"@ {
            Ok(AuthenticatorTransport::Usb)
        } else if name == "nfc"@ {
            Ok(AuthenticatorTransport::Nfc)
        } else if name == "ble"@ {
            Ok(AuthenticatorTransport::Ble)
        } else if name == "internal"@ {
            Ok(AuthenticatorTransport::Internal)
        } else {
            Err(Ctap2StatusCode::CTAP2_ERR_CBOR_UNEXPECTED_TYPE)
        },
        Err(e) => Err(e),
    }
}

/// The map that a parameter is written as: the kind under `type`, the
/// algorithm under `alg`.
pub open spec fn encode_parameter(param: PublicKeyCredentialParameter) -> ValueView {
    ValueView::Mapping(
        field(text_key("type"@), Some(encode_credential_type(param.cred_type))) + field(
            text_key("alg"@),
            Some(encode_algorithm(param.alg)),
        ),
    )
}

/// A parameter is a map with a kind under `type` and an algorithm under
/// `alg`, both required and read in this order.
pub open spec fn decode_parameter(v: ValueView) -> Result<
    PublicKeyCredentialParameter,
    Ctap2StatusCode,
> {
    match as_map(v) {
        Err(e) => Err(e),
        Ok(m) => match required(m, text_key("type"@), |x: ValueView| decode_credential_type(x)) {
            Err(e) => Err(e),
            Ok(cred_type) => match required(
                m,
                text_key("alg"@),
                |x: ValueView| decode_algorithm(x),
            ) {
                Err(e) => Err(e),
                Ok(alg) => Ok(PublicKeyCredentialParameter { cred_type, alg }),
            },
        },
    }
}

/// The array that a list of transports is written as.
pub open spec fn encode_transports(transports: Seq<AuthenticatorTransport>) -> ValueView {
    ValueView::Array(Seq::new(transports.len(), |i: int| encode_transport(transports[i])))
}

/// A list of transports is an array whose every item is a transport. The
/// one error that an item can give is that of an unexpected type.
pub open spec fn decode_transports(v: ValueView) -> Result<
    Seq<AuthenticatorTransport>,
    Ctap2StatusCode,
> {
    match as_array(v) {
        Err(e) => Err(e),
        Ok(items) => if forall|i: int|
            0 <= i < items.len() ==> (#[trigger] decode_transport(items[i])) is Ok {
            Ok(Seq::new(items.len(), |i: int| decode_transport(items[i])->Ok_0))
        } else {
            Err(Ctap2StatusCode::CTAP2_ERR_CBOR_UNEXPECTED_TYPE)
        },
    }
}

/// The map that a descriptor is written as: the kind under `type`, the id
/// under `id` and, where there is a list of transports, that list under
/// `transports`.
pub open spec fn encode_descriptor(desc: PublicKeyCredentialDescriptorView) -> ValueView {
    ValueView::Mapping(
        field(text_key("type"@), Some(encode_credential_type(desc.key_type))) + field(
            text_key("id"@),
            Some(bytes_node(desc.key_id)),
        ) + field(
            text_key("transports"@),
            match desc.transports {
                Some(t) => Some(encode_transports(t)),
                None => None,
            },
        ),
    )
}

/// A descriptor is a map with a kind under `type` and bytes under `id`, both
/// required, and a list of transports under `transports`, which may be
/// absent. They are read in this order.
pub open spec fn decode_descriptor(v: ValueView) -> Result<
    PublicKeyCredentialDescriptorView,
    Ctap2StatusCode,
> {
    match as_map(v) {
        Err(e) => Err(e),
        Ok(m) => match required(m, text_key("type"@), |x: ValueView| decode_credential_type(x)) {
            Err(e) => Err(e),
            Ok(key_type) => match required(m, text_key("id"@), |x: ValueView| as_bytes(x)) {
                Err(e) => Err(e),
                Ok(key_id) => match optional(
                    m,
                    text_key("transports"@),
                    |x: ValueView| decode_transports(x),
                ) {
                    Err(e) => Err(e),
                    Ok(transports) => Ok(
                        PublicKeyCredentialDescriptorView { key_type, key_id, transports },
                    ),
                },
            },
        },
    }
}

impl PublicKeyCredentialType {
    /// Writes the kind as its name.
    pub fn encode(self) -> (r: Value)
        ensures
            r@ == encode_credential_type(self),
    {
        match self {
            PublicKeyCredentialType::PublicKey => Value::text_string("public-key"),
            PublicKeyCredentialType::Unknown => Value::text_string("unknown"),
        }
    }

    /// Reads a kind of credential, see [`decode_credential_type`].
    pub fn decode(cbor_value: &Value) -> (r: Result<PublicKeyCredentialType, Ctap2StatusCode>)
        ensures
            r == decode_credential_type(cbor_value@),
    {
        let cred_type_string = read_text_string(cbor_value)?;
        if text_equals(&cred_type_string, "public-key") {
            Ok(PublicKeyCredentialType::PublicKey)
        } else {
            Ok(PublicKeyCredentialType::Unknown)
        }
    }
}

impl SignatureAlgorithm {
    /// The number that the algorithm is written as.
    pub fn code(self) -> (r: i64)
        ensures
            r == algorithm_code(self),
    {
        match self {
            SignatureAlgorithm::ES256 => ES256_ALGORITHM,
            SignatureAlgorithm::Unknown => 0,
        }
    }

    /// Writes the algorithm as its code.
    pub fn encode(self) -> (r: Value)
        ensures
            r@ == encode_algorithm(self),
    {
        Value::integer(self.code())
    }

    /// Reads a signature algorithm, see [`decode_algorithm`].
    pub fn decode(cbor_value: &Value) -> (r: Result<SignatureAlgorithm, Ctap2StatusCode>)
        ensures
            r == decode_algorithm(cbor_value@),
    {
        let code = read_integer(cbor_value)?;
        if code == ES256_ALGORITHM {
            Ok(SignatureAlgorithm::ES256)
        } else {
            Ok(SignatureAlgorithm::Unknown)
        }
    }
}

impl AuthenticatorTransport {
    /// Writes the transport as its name.
    pub fn encode(self) -> (r: Value)
        ensures
            r@ == encode_transport(self),
    {
        match self {
            AuthenticatorTransport::Usb => Value::text_string("usb"),
            AuthenticatorTransport::Nfc => Value::text_string("nfc"),
            AuthenticatorTransport::Ble => Value::text_string("ble"),
            AuthenticatorTransport::Internal => Value::text_string("internal"),
        }
    }

    /// Reads a transport, see [`decode_transport`].
    pub fn decode(cbor_value: &Value) -> (r: Result<AuthenticatorTransport, Ctap2StatusCode>)
        ensures
            r == decode_transport(cbor_value@),
    {
        let transport_string = read_text_string(cbor_value)?;
        if text_equals(&transport_string, "usb") {
            Ok(AuthenticatorTransport::Usb)
        } else if text_equals(&transport_string, "nfc") {
            Ok(AuthenticatorTransport::Nfc)
        } else if text_equals(&transport_string, "ble") {
            Ok(AuthenticatorTransport::Ble)
        } else if text_equals(&transport_string, "internal") {
            Ok(AuthenticatorTransport::Internal)
        } else {
            Err(Ctap2StatusCode::CTAP2_ERR_CBOR_UNEXPECTED_TYPE)
        }
    }
}

impl PublicKeyCredentialParameter {
    /// Writes the parameter as a map, see [`encode_parameter`].
    pub fn encode(self) -> (r: Value)
        ensures
            r@ == encode_parameter(self),
    {
        let mut entries: Vec<(KeyType, Value)> = Vec::new();
        push_field(&mut entries, KeyType::text("type"), Some(self.cred_type.encode()));
        push_field(&mut entries, KeyType::text("alg"), Some(self.alg.encode()));
        let r = Value::Mapping(entries);
        proof {
            lemma_view_of_parts(r);
        }
        r
    }

    /// Reads a parameter, see [`decode_parameter`].
    pub fn decode(cbor_value: &Value) -> (r: Result<PublicKeyCredentialParameter, Ctap2StatusCode>)
        ensures
            r == decode_parameter(cbor_value@),
    {
        let cred_param_map = read_map(cbor_value)?;
        let cred_type = PublicKeyCredentialType::decode(
            ok_or_missing(map_get_text(cred_param_map, "type"))?,
        )?;
        let alg = SignatureAlgorithm::decode(ok_or_missing(map_get_text(cred_param_map, "alg"))?)?;
        Ok(PublicKeyCredentialParameter { cred_type, alg })
    }
}

/// Reads a list of transports, item by item, and stops at the first item
/// that is none.
pub fn decode_transport_list(cbor_value: &Value) -> (r: Result<
    Vec<AuthenticatorTransport>,
    Ctap2StatusCode,
>)
    ensures
        view_of(r) == decode_transports(cbor_value@),
{
    let transport_vec = read_array(cbor_value)?;
    let ghost items = values_view(transport_vec@);
    let mut transports: Vec<AuthenticatorTransport> = Vec::new();
    let mut i: usize = 0;
    while i < transport_vec.len()
        invariant
            i <= transport_vec.len(),
            items == values_view(transport_vec@),
            as_array(cbor_value@) == Ok::<_, Ctap2StatusCode>(items),
            transports@.len() == i,
            forall|j: int|
                0 <= j < i ==> (#[trigger] decode_transport(items[j])) == Ok::<_, Ctap2StatusCode>(
                    transports@[j],
                ),
        decreases transport_vec.len() - i,
    {
        match AuthenticatorTransport::decode(&transport_vec[i]) {
            Ok(transport) => {
                transports.push(transport);
            },
            Err(e) => {
                assert(!(decode_transport(items[i as int]) is Ok));
                return Err(e);
            },
        }
        i = i + 1;
    }
    assert(transports@ =~= Seq::new(items.len(), |i: int| decode_transport(items[i])->Ok_0));
    Ok(transports)
}

/// Writes a list of transports as an array.
pub fn encode_transport_list(transports: Vec<AuthenticatorTransport>) -> (r: Value)
    ensures
        r@ == encode_transports(transports@),
{
    let mut items: Vec<Value> = Vec::new();
    let mut i: usize = 0;
    while i < transports.len()
        invariant
            i <= transports.len(),
            items@.len() == i,
            forall|j: int|
                0 <= j < i ==> (#[trigger] items@[j])@ == encode_transport(transports@[j]),
        decreases transports.len() - i,
    {
        items.push(transports[i].encode());
        i = i + 1;
    }
    let r = Value::Array(items);
    proof {
        lemma_view_of_parts(r);
        assert(values_view(items@) =~= Seq::new(
            transports@.len(),
            |i: int| encode_transport(transports@[i]),
        ));
    }
    r
}

impl PublicKeyCredentialDescriptor {
    /// Writes the descriptor as a map, see [`encode_descriptor`].
    pub fn encode(self) -> (r: Value)
        ensures
            r@ == encode_descriptor(self@),
    {
        let mut entries: Vec<(KeyType, Value)> = Vec::new();
        push_field(&mut entries, KeyType::text("type"), Some(self.key_type.encode()));
        push_field(&mut entries, KeyType::text("id"), Some(Value::byte_string(self.key_id)));
        let transports = match self.transports {
            Some(list) => Some(encode_transport_list(list)),
            None => None,
        };
        push_field(&mut entries, KeyType::text("transports"), transports);
        let r = Value::Mapping(entries);
        proof {
            lemma_view_of_parts(r);
        }
        r
    }

    /// Reads a descriptor, see [`decode_descriptor`].
    pub fn decode(cbor_value: &Value) -> (r: Result<
        PublicKeyCredentialDescriptor,
        Ctap2StatusCode,
    >)
        ensures
            view_of(r) == decode_descriptor(cbor_value@),
    {
        let cred_desc_map = read_map(cbor_value)?;
        let key_type = PublicKeyCredentialType::decode(
            ok_or_missing(map_get_text(cred_desc_map, "type"))?,
        )?;
        let key_id = read_byte_string(ok_or_missing(map_get_text(cred_desc_map, "id"))?)?;
        let transports = match map_get_text(cred_desc_map, "transports") {
            Some(exclude_entry) => Some(decode_transport_list(exclude_entry)?),
            None => None,
        };
        Ok(PublicKeyCredentialDescriptor { key_type, key_id, transports })
    }
}

/// Reading what was written for a kind of credential gives that kind back.
pub proof fn credential_type_round_trip(cred_type: PublicKeyCredentialType)
    ensures
        decode_credential_type(encode_credential_type(cred_type)) == Ok::<_, Ctap2StatusCode>(
            cred_type,
        ),
{
    reveal_strlit("public-key");
    reveal_strlit("unknown");
    assert("public-key"@.len() != "unknown"@.len());
}

/// Reading what was written for a signature algorithm gives that algorithm
/// back.
pub proof fn algorithm_round_trip(alg: SignatureAlgorithm)
    ensures
        decode_algorithm(encode_algorithm(alg)) == Ok::<_, Ctap2StatusCode>(alg),
{
}

/// Reading what was written for a transport gives that transport back.
pub proof fn transport_round_trip(transport: AuthenticatorTransport)
    ensures
        decode_transport(encode_transport(transport)) == Ok::<_, Ctap2StatusCode>(transport),
{
    reveal_strlit("usb");
    reveal_strlit("nfc");
    reveal_strlit("ble");
    reveal_strlit("internal");
    assert("usb"@[0] != "nfc"@[0] && "usb"@[0] != "ble"@[0] && "nfc"@[0] != "ble"@[0]);
    assert("internal"@.len() != "usb"@.len());
    assert("internal"@.len() != "nfc"@.len());
    assert("internal"@.len() != "ble"@.len());
}

/// Reading what was written for a parameter gives that parameter back.
pub proof fn parameter_round_trip(param: PublicKeyCredentialParameter)
    ensures
        decode_parameter(encode_parameter(param)) == Ok::<_, Ctap2StatusCode>(param),
{
    broadcast use {lemma_find_key_concat, lemma_find_key_field};

    reveal_strlit("type");
    reveal_strlit("alg");
    assert("type"@.len() != "alg"@.len());
    credential_type_round_trip(param.cred_type);
    algorithm_round_trip(param.alg);
}

/// Reading what was written for a list of transports gives that list back.
pub proof fn transports_round_trip(transports: Seq<AuthenticatorTransport>)
    ensures
        decode_transports(encode_transports(transports)) == Ok::<_, Ctap2StatusCode>(transports),
{
    let items = encode_transports(transports)->Array_0;
    assert forall|i: int| 0 <= i < items.len() implies (#[trigger] decode_transport(items[i]))
        == Ok::<_, Ctap2StatusCode>(transports[i]) by {
        transport_round_trip(transports[i]);
    }
    assert(Seq::new(items.len(), |i: int| decode_transport(items[i])->Ok_0) =~= transports);
}

/// Reading what was written for a descriptor gives that descriptor back,
/// with its transports or without.
pub proof fn descriptor_round_trip(desc: PublicKeyCredentialDescriptorView)
    ensures
        decode_descriptor(encode_descriptor(desc)) == Ok::<_, Ctap2StatusCode>(desc),
{
    broadcast use {lemma_find_key_concat, lemma_find_key_field};

    reveal_strlit("type");
    reveal_strlit("id");
    reveal_strlit("transports");
    assert("type"@.len() != "id"@.len());
    assert("type"@.len() != "transports"@.len());
    assert("id"@.len() != "transports"@.len());
    credential_type_round_trip(desc.key_type);
    if let Some(t) = desc.transports {
        transports_round_trip(t);
    }
}

/// No text is refused as a kind of credential: every text but the one known
/// name is `Unknown`.
pub proof fn credential_type_is_lenient(name: Seq<char>)
    ensures
        decode_credential_type(text_node(name)) == Ok::<_, Ctap2StatusCode>(
            if name == "public-key"@ {
                PublicKeyCredentialType::PublicKey
            } else {
                PublicKeyCredentialType::Unknown
            },
        ),
{
}

/// No integer is refused as a signature algorithm: every integer but the one
/// known code is `Unknown`.
pub proof fn algorithm_is_lenient(code: i64)
    ensures
        decode_algorithm(int_node(code)) == Ok::<_, Ctap2StatusCode>(
            if code == ES256_ALGORITHM {
                SignatureAlgorithm::ES256
            } else {
                SignatureAlgorithm::Unknown
            },
        ),
{
}

/// A text that is the name of no transport is refused.
pub proof fn transport_is_strict(name: Seq<char>)
    requires
        forall|transport: AuthenticatorTransport| name != #[trigger] transport_name(transport),
    ensures
        decode_transport(text_node(name)) == Err::<AuthenticatorTransport, _>(
            Ctap2StatusCode::CTAP2_ERR_CBOR_UNEXPECTED_TYPE,
        ),
{
    assert(name != transport_name(AuthenticatorTransport::Usb));
    assert(name != transport_name(AuthenticatorTransport::Nfc));
    assert(name != transport_name(AuthenticatorTransport::Ble));
    assert(name != transport_name(AuthenticatorTransport::Internal));
}

} // verus!
