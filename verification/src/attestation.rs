//! The attestation statement of the packed format, which is only written.

use crate::cbor::{
    bytes_node, field, int_node, lemma_view_of_parts, push_field, text_key, values_view, KeyType,
    Value, ValueView,
};
use vstd::prelude::*;

verus! {

/// An attestation statement of the packed format. It is only ever written.
#[derive(Clone, Debug, PartialEq, Eq)]
pub struct PackedAttestationStatement {
    pub alg: i64,
    pub sig: Vec<u8>,
    pub x5c: Option<Vec<Vec<u8>>>,
    pub ecdaa_key_id: Option<Vec<u8>>,
}

/// What a [`PackedAttestationStatement`] holds.
pub struct PackedAttestationStatementView {
    pub alg: i64,
    pub sig: Seq<u8>,
    pub x5c: Option<Seq<Seq<u8>>>,
    pub ecdaa_key_id: Option<Seq<u8>>,
}

/// The certificates of a chain, each as its bytes.
pub open spec fn chain_view(chain: Seq<Vec<u8>>) -> Seq<Seq<u8>> {
    Seq::new(chain.len(), |i: int| chain[i]@)
}

impl View for PackedAttestationStatement {
    type V = PackedAttestationStatementView;

    open spec fn view(&self) -> PackedAttestationStatementView {
        PackedAttestationStatementView {
            alg: self.alg,
            sig: self.sig@,
            x5c: match self.x5c {
                Some(chain) => Some(chain_view(chain@)),
                None => None,
            },
            ecdaa_key_id: match self.ecdaa_key_id {
                Some(id) => Some(id@),
                None => None,
            },
        }
    }
}

/// The array for a certificate chain: one byte string for each certificate.
pub open spec fn encode_chain(chain: Seq<Seq<u8>>) -> ValueView {
    ValueView::Array(Seq::new(chain.len(), |i: int| bytes_node(chain[i])))
}

/// The map for a statement: the algorithm under `alg`, the signature under
/// `sig`, and, where they are there, the certificate chain under `x5c` and
/// the key id under `ecdaaKeyId`.
pub open spec fn encode_statement(statement: PackedAttestationStatementView) -> ValueView {
    ValueView::Mapping(
        field(text_key("alg"@), Some(int_node(statement.alg))) + field(
            text_key("sig"@),
            Some(bytes_node(statement.sig)),
        ) + field(
            text_key("x5c"@),
            match statement.x5c {
                Some(chain) => Some(encode_chain(chain)),
                None => None,
            },
        ) + field(
            text_key("ecdaaKeyId"@),
            match statement.ecdaa_key_id {
                Some(id) => Some(bytes_node(id)),
                None => None,
            },
        ),
    )
}

/// Writes a certificate chain as an array of byte strings.
pub fn encode_certificate_chain(chain: Vec<Vec<u8>>) -> (r: Value)
    ensures
        r@ == encode_chain(chain_view(chain@)),
{
    let mut items: Vec<Value> = Vec::new();
    let mut i: usize = 0;
    while i < chain.len()
        invariant
            i <= chain.len(),
            items@.len() == i,
            forall|j: int| 0 <= j < i ==> (#[trigger] items@[j])@ == bytes_node(chain@[j]@),
        decreases chain.len() - i,
    {
        items.push(Value::byte_string(chain[i].clone()));
        i = i + 1;
    }
    let r = Value::Array(items);
    proof {
        lemma_view_of_parts(r);
        assert(values_view(items@) =~= Seq::new(
            chain_view(chain@).len(),
            |i: int| bytes_node(chain_view(chain@)[i]),
        ));
    }
    r
}

impl PackedAttestationStatement {
    /// Writes the statement as a map, see [`encode_statement`].
    pub fn encode(self) -> (r: Value)
        ensures
            r@ == encode_statement(self@),
    {
        let mut entries: Vec<(KeyType, Value)> = Vec::new();
        push_field(&mut entries, KeyType::text("alg"), Some(Value::integer(self.alg)));
        push_field(&mut entries, KeyType::text("sig"), Some(Value::byte_string(self.sig)));
        let x5c = match self.x5c {
            Some(chain) => Some(encode_certificate_chain(chain)),
            None => None,
        };
        push_field(&mut entries, KeyType::text("x5c"), x5c);
        let ecdaa_key_id = match self.ecdaa_key_id {
            Some(id) => Some(Value::byte_string(id)),
            None => None,
        };
        push_field(&mut entries, KeyType::text("ecdaaKeyId"), ecdaa_key_id);
        let r = Value::Mapping(entries);
        proof {
            lemma_view_of_parts(r);
        }
        r
    }
}

} // verus!
