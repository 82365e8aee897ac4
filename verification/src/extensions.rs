//! The extensions of a request, and the one that is known: the secret
//! derived for a credential.

use crate::cbor::{
    bytes_node, clone_entries, entries_view, find_key, int_key, lemma_find_key_absent,
    lemma_find_key_at, lemma_view_of_parts, map_get_int, optional_view, text_equals, text_key,
    KeyType, KeyView, Value, ValueView,
};
use crate::cose::CoseKey;
use crate::read::{
    as_bool, as_bytes, as_map, ok_or_missing, read_bool, read_byte_string, read_map, required,
    view_of,
};
use crate::status_code::Ctap2StatusCode;
use vstd::prelude::*;

verus! {

/// The name of the extension that derives a secret for a credential.
pub open spec fn hmac_secret_name() -> Seq<char> {
    "hmac-secret"@
}

/// The label of the key-agreement key in the input of the extension.
pub const KEY_AGREEMENT_LABEL: i64 = 1;

/// The label of the encrypted salt in the input of the extension.
pub const SALT_ENC_LABEL: i64 = 2;

/// The label of the salt's authentication tag in the input of the extension.
pub const SALT_AUTH_LABEL: i64 = 3;

/// The extensions of a request: raw nodes by name. A node is looked into
/// only when the extension of its name is asked for, so a request may carry
/// extensions that are not known here.
#[derive(Clone, Debug, PartialEq, Eq)]
pub struct Extensions(Vec<(String, Value)>);

impl View for Extensions {
    type V = Seq<(Seq<char>, ValueView)>;

    closed spec fn view(&self) -> Seq<(Seq<char>, ValueView)> {
        named_view(self.0@)
    }
}

/// The views of named nodes, in order.
pub open spec fn named_view(named: Seq<(String, Value)>) -> Seq<(Seq<char>, ValueView)> {
    Seq::new(named.len(), |i: int| (named[i].0@, named[i].1@))
}

/// The entries of the map that the extensions are written as: each node
/// under its name.
pub open spec fn extension_entries(extensions: Seq<(Seq<char>, ValueView)>) -> Seq<
    (KeyView, ValueView),
> {
    Seq::new(extensions.len(), |i: int| (text_key(extensions[i].0), extensions[i].1))
}

/// The map that the extensions are written as.
pub open spec fn encode_extensions(extensions: Seq<(Seq<char>, ValueView)>) -> ValueView {
    ValueView::Mapping(extension_entries(extensions))
}

/// The extensions are a map all of whose keys are texts. Its nodes are taken
/// as they are.
pub open spec fn decode_extensions(v: ValueView) -> Result<
    Seq<(Seq<char>, ValueView)>,
    Ctap2StatusCode,
> {
    match as_map(v) {
        Err(e) => Err(e),
        Ok(m) => if forall|i: int| 0 <= i < m.len() ==> (#[trigger] m[i]).0 is TextString {
            Ok(Seq::new(m.len(), |i: int| (m[i].0->TextString_0, m[i].1)))
        } else {
            Err(Ctap2StatusCode::CTAP2_ERR_CBOR_UNEXPECTED_TYPE)
        },
    }
}

/// The node of the extension with a name: the first one under that name.
pub open spec fn extension(extensions: Seq<(Seq<char>, ValueView)>, name: Seq<char>) -> Option<
    ValueView,
> {
    find_key(extension_entries(extensions), text_key(name))
}

/// Whether a request to make a credential asks for the secret: what the
/// boolean under the extension's name says, and no where there is none.
pub open spec fn make_credential_hmac_secret(extensions: Seq<(Seq<char>, ValueView)>) -> Result<
    bool,
    Ctap2StatusCode,
> {
    match extension(extensions, hmac_secret_name()) {
        Some(v) => as_bool(v),
        None => Ok(false),
    }
}

/// The input of the extension in a request for an assertion.
#[derive(Clone, Debug, PartialEq, Eq)]
pub struct GetAssertionHmacSecretInput {
    pub key_agreement: CoseKey,
    pub salt_enc: Vec<u8>,
    pub salt_auth: Vec<u8>,
}

/// What a [`GetAssertionHmacSecretInput`] holds.
pub struct GetAssertionHmacSecretInputView {
    pub key_agreement: Seq<(KeyView, ValueView)>,
    pub salt_enc: Seq<u8>,
    pub salt_auth: Seq<u8>,
}

impl View for GetAssertionHmacSecretInput {
    type V = GetAssertionHmacSecretInputView;

    open spec fn view(&self) -> GetAssertionHmacSecretInputView {
        GetAssertionHmacSecretInputView {
            key_agreement: self.key_agreement@,
            salt_enc: self.salt_enc@,
            salt_auth: self.salt_auth@,
        }
    }
}

/// The input of the extension is a map with a map under the first label,
/// the key-agreement key, and bytes under the second and the third, the
/// encrypted salt and its authentication tag. Each is required, and they are
/// read in this order. The key's map is taken as it is.
pub open spec fn decode_hmac_secret_input(v: ValueView) -> Result<
    GetAssertionHmacSecretInputView,
    Ctap2StatusCode,
> {
    match as_map(v) {
        Err(e) => Err(e),
        Ok(m) => match required(m, int_key(KEY_AGREEMENT_LABEL), |x: ValueView| as_map(x)) {
            Err(e) => Err(e),
            Ok(key_agreement) => match required(
                m,
                int_key(SALT_ENC_LABEL),
                |x: ValueView| as_bytes(x),
            ) {
                Err(e) => Err(e),
                Ok(salt_enc) => match required(
                    m,
                    int_key(SALT_AUTH_LABEL),
                    |x: ValueView| as_bytes(x),
                ) {
                    Err(e) => Err(e),
                    Ok(salt_auth) => Ok(
                        GetAssertionHmacSecretInputView { key_agreement, salt_enc, salt_auth },
                    ),
                },
            },
        },
    }
}

/// The three outcomes of asking a request for an assertion for the input of
/// the extension: there is none, there is one, or there is one that is
/// malformed.
pub open spec fn get_assertion_hmac_secret_input(extensions: Seq<(Seq<char>, ValueView)>) -> Option<
    Result<GetAssertionHmacSecretInputView, Ctap2StatusCode>,
> {
    match extension(extensions, hmac_secret_name()) {
        Some(v) => Some(decode_hmac_secret_input(v)),
        None => None,
    }
}

/// The output of the extension in an assertion.
#[derive(Clone, Debug, PartialEq, Eq)]
pub struct GetAssertionHmacSecretOutput(pub Vec<u8>);

impl View for GetAssertionHmacSecretOutput {
    type V = Seq<u8>;

    open spec fn view(&self) -> Seq<u8> {
        self.0@
    }
}

/// The node that the output of the extension is written as: a byte string.
pub open spec fn encode_hmac_secret_output(output: Seq<u8>) -> ValueView {
    bytes_node(output)
}

/// The output of the extension is a byte string.
pub open spec fn decode_hmac_secret_output(v: ValueView) -> Result<Seq<u8>, Ctap2StatusCode> {
    as_bytes(v)
}

impl Extensions {
    /// The extensions with these nodes under these names.
    pub fn new(extension_map: Vec<(String, Value)>) -> (r: Extensions)
        ensures
            r@ == named_view(extension_map@),
    {
        Extensions(extension_map)
    }

    /// Writes the extensions as a map, each node under its name.
    pub fn encode(self) -> (r: Value)
        ensures
            r@ == encode_extensions(self@),
    {
        let mut entries: Vec<(KeyType, Value)> = Vec::new();
        let mut i: usize = 0;
        while i < self.0.len()
            invariant
                i <= self.0.len(),
                entries@.len() == i,
                forall|j: int|
                    0 <= j < i ==> (#[trigger] entries@[j]).0@ == text_key(self.0@[j].0@)
                        && entries@[j].1@ == self.0@[j].1@,
            decreases self.0.len() - i,
        {
            entries.push((KeyType::TextString(self.0[i].0.clone()), self.0[i].1.clone()));
            i = i + 1;
        }
        let r = Value::Mapping(entries);
        proof {
            lemma_view_of_parts(r);
            assert(entries_view(entries@) =~= extension_entries(self@));
        }
        r
    }

    /// Reads the extensions, see [`decode_extensions`].
    pub fn decode(cbor_value: &Value) -> (r: Result<Extensions, Ctap2StatusCode>)
        ensures
            view_of(r) == decode_extensions(cbor_value@),
    {
        let map = read_map(cbor_value)?;
        let ghost m = entries_view(map@);
        let mut extensions: Vec<(String, Value)> = Vec::new();
        let mut i: usize = 0;
        while i < map.len()
            invariant
                i <= map.len(),
                m == entries_view(map@),
                as_map(cbor_value@) == Ok::<_, Ctap2StatusCode>(m),
                extensions@.len() == i,
                forall|j: int|
                    0 <= j < i ==> (#[trigger] m[j]).0 == text_key(extensions@[j].0@)
                        && extensions@[j].1@ == m[j].1,
            decreases map.len() - i,
        {
            match &map[i].0 {
                KeyType::TextString(extension_key_string) => {
                    extensions.push((extension_key_string.clone(), map[i].1.clone()));
                },
                _ => {
                    assert(!(m[i as int].0 is TextString));
                    return Err(Ctap2StatusCode::CTAP2_ERR_CBOR_UNEXPECTED_TYPE);
                },
            }
            i = i + 1;
        }
        assert(named_view(extensions@) =~= Seq::new(
            m.len(),
            |i: int| (m[i].0->TextString_0, m[i].1),
        ));
        Ok(Extensions(extensions))
    }

    /// The node of the extension with a name, see [`extension`].
    pub fn get(&self, name: &str) -> (r: Option<&Value>)
        ensures
            optional_view(r) == extension(self@, name@),
    {
        let ghost entries = extension_entries(self@);
        let mut i: usize = 0;
        while i < self.0.len()
            invariant
                i <= self.0.len(),
                entries == extension_entries(self@),
                forall|j: int| 0 <= j < i ==> entries[j].0 != text_key(name@),
            decreases self.0.len() - i,
        {
            if text_equals(&self.0[i].0, name) {
                proof {
                    lemma_find_key_at(entries, text_key(name@), i as int);
                }
                return Some(&self.0[i].1);
            }
            i = i + 1;
        }
        proof {
            lemma_find_key_absent(entries, text_key(name@));
        }
        None
    }

    /// Whether a request to make a credential asks for the secret, see
    /// [`make_credential_hmac_secret`].
    pub fn has_make_credential_hmac_secret(&self) -> (r: Result<bool, Ctap2StatusCode>)
        ensures
            r == make_credential_hmac_secret(self@),
    {
        match self.get("hmac-secret") {
            Some(value) => read_bool(value),
            None => Ok(false),
        }
    }

    /// The input of the extension in a request for an assertion, see
    /// [`get_assertion_hmac_secret_input`].
    pub fn get_assertion_hmac_secret(&self) -> (r: Option<
        Result<GetAssertionHmacSecretInput, Ctap2StatusCode>,
    >)
        ensures
            match r {
                Some(input) => get_assertion_hmac_secret_input(self@) == Some(view_of(input)),
                None => get_assertion_hmac_secret_input(self@) is None,
            },
    {
        match self.get("hmac-secret") {
            Some(value) => Some(GetAssertionHmacSecretInput::decode(value)),
            None => None,
        }
    }
}

impl GetAssertionHmacSecretInput {
    /// Reads the input of the extension, see [`decode_hmac_secret_input`].
    pub fn decode(cbor_value: &Value) -> (r: Result<GetAssertionHmacSecretInput, Ctap2StatusCode>)
        ensures
            view_of(r) == decode_hmac_secret_input(cbor_value@),
    {
        let input_map = read_map(cbor_value)?;
        let cose_key = read_map(ok_or_missing(map_get_int(input_map, KEY_AGREEMENT_LABEL))?)?;
        let salt_enc = read_byte_string(ok_or_missing(map_get_int(input_map, SALT_ENC_LABEL))?)?;
        let salt_auth = read_byte_string(ok_or_missing(map_get_int(input_map, SALT_AUTH_LABEL))?)?;
        Ok(
            GetAssertionHmacSecretInput {
                key_agreement: CoseKey(clone_entries(cose_key)),
                salt_enc,
                salt_auth,
            },
        )
    }
}

impl GetAssertionHmacSecretOutput {
    /// Writes the output as a byte string.
    pub fn encode(self) -> (r: Value)
        ensures
            r@ == encode_hmac_secret_output(self@),
    {
        Value::byte_string(self.0)
    }

    /// Reads the output of the extension.
    pub fn decode(cbor_value: &Value) -> (r: Result<GetAssertionHmacSecretOutput, Ctap2StatusCode>)
        ensures
            view_of(r) == decode_hmac_secret_output(cbor_value@),
    {
        Ok(GetAssertionHmacSecretOutput(read_byte_string(cbor_value)?))
    }
}

/// Reading what was written for the extensions gives them back.
pub proof fn extensions_round_trip(extensions: Seq<(Seq<char>, ValueView)>)
    ensures
        decode_extensions(encode_extensions(extensions)) == Ok::<_, Ctap2StatusCode>(extensions),
{
    let m = extension_entries(extensions);
    assert(Seq::new(m.len(), |i: int| (m[i].0->TextString_0, m[i].1)) =~= extensions);
}

/// Reading what was written for the output of the extension gives it back.
pub proof fn hmac_secret_output_round_trip(output: Seq<u8>)
    ensures
        decode_hmac_secret_output(encode_hmac_secret_output(output)) == Ok::<_, Ctap2StatusCode>(
            output,
        ),
{
}

} // verus!
