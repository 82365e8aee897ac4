//! The generic tree that messages are made of, its view, and lookup in its
//! maps.
//!
//! Reading bytes into a tree and writing a tree out as bytes is not done here.
//! A map is what such a reader hands over: its entries in order, looked up by
//! exact key.

use vstd::prelude::*;

verus! {

/// A scalar node of the tree. Only these can key a map.
#[derive(Debug, PartialEq, Eq)]
pub enum KeyType {
    /// A non-negative integer, full 64-bit width.
    Unsigned(u64),
    /// An integer of the negative wire type.
    Negative(i64),
    ByteString(Vec<u8>),
    TextString(String),
}

/// The nodes that hold no data of their own.
#[derive(Clone, Copy, Debug, PartialEq, Eq, Structural)]
pub enum SimpleValue {
    FalseValue,
    TrueValue,
    NullValue,
    Undefined,
}

/// A node of the generic self-describing tree that messages arrive in.
///
/// A map is held as its entries in order. Looking a key up finds the first
/// entry with exactly that key, see [`find_key`].
#[derive(Debug, PartialEq, Eq)]
pub enum Value {
    KeyValue(KeyType),
    Array(Vec<Value>),
    Mapping(Vec<(KeyType, Value)>),
    Simple(SimpleValue),
}

/// What a [`KeyType`] holds.
pub enum KeyView {
    Unsigned(u64),
    Negative(i64),
    ByteString(Seq<u8>),
    TextString(Seq<char>),
}

/// What a [`Value`] holds, down to the leaves.
pub enum ValueView {
    KeyValue(KeyView),
    Array(Seq<ValueView>),
    Mapping(Seq<(KeyView, ValueView)>),
    Simple(SimpleValue),
}

impl View for KeyType {
    type V = KeyView;

    open spec fn view(&self) -> KeyView {
        match self {
            KeyType::Unsigned(u) => KeyView::Unsigned(*u),
            KeyType::Negative(n) => KeyView::Negative(*n),
            KeyType::ByteString(b) => KeyView::ByteString(b@),
            KeyType::TextString(t) => KeyView::TextString(t@),
        }
    }
}

/// The view of a node: the node itself with every byte string, text, array
/// and map in it taken by its content.
pub open spec fn value_view(v: Value) -> ValueView
    decreases v,
{
    match v {
        Value::KeyValue(k) => ValueView::KeyValue(k@),
        Value::Array(a) => ValueView::Array(
            Seq::new(
                a@.len(),
                |i: int|
                    if 0 <= i < a@.len() {
                        value_view(a@[i])
                    } else {
                        arbitrary()
                    },
            ),
        ),
        Value::Mapping(m) => ValueView::Mapping(
            Seq::new(
                m@.len(),
                |i: int|
                    if 0 <= i < m@.len() {
                        (m@[i].0@, value_view(m@[i].1))
                    } else {
                        arbitrary()
                    },
            ),
        ),
        Value::Simple(s) => ValueView::Simple(s),
    }
}

impl View for Value {
    type V = ValueView;

    open spec fn view(&self) -> ValueView {
        value_view(*self)
    }
}

/// The views of the items of an array, in order.
pub open spec fn values_view(items: Seq<Value>) -> Seq<ValueView> {
    Seq::new(items.len(), |i: int| items[i]@)
}

/// The views of the entries of a map, in order.
pub open spec fn entries_view(entries: Seq<(KeyType, Value)>) -> Seq<(KeyView, ValueView)> {
    Seq::new(entries.len(), |i: int| (entries[i].0@, entries[i].1@))
}

/// The view of a composite node is made of the views of its parts.
pub proof fn lemma_view_of_parts(v: Value)
    ensures
        v matches Value::Array(a) ==> v@ == ValueView::Array(values_view(a@)),
        v matches Value::Mapping(m) ==> v@ == ValueView::Mapping(entries_view(m@)),
{
    match v {
        Value::Array(a) => {
            assert(v@->Array_0 =~= values_view(a@));
        },
        Value::Mapping(m) => {
            assert(v@->Mapping_0 =~= entries_view(m@));
        },
        _ => {},
    }
}

/// The key that stands for an integer: of the negative wire type below zero,
/// of the non-negative one from zero on.
pub open spec fn int_key(i: i64) -> KeyView {
    if i >= 0 {
        KeyView::Unsigned(i as u64)
    } else {
        KeyView::Negative(i)
    }
}

/// The node for a signed integer.
pub open spec fn int_node(i: i64) -> ValueView {
    ValueView::KeyValue(int_key(i))
}

/// The node for a non-negative integer.
pub open spec fn unsigned_node(u: u64) -> ValueView {
    ValueView::KeyValue(KeyView::Unsigned(u))
}

/// The node for a byte string.
pub open spec fn bytes_node(b: Seq<u8>) -> ValueView {
    ValueView::KeyValue(KeyView::ByteString(b))
}

/// The key for a text.
pub open spec fn text_key(t: Seq<char>) -> KeyView {
    KeyView::TextString(t)
}

/// The node for a text.
pub open spec fn text_node(t: Seq<char>) -> ValueView {
    ValueView::KeyValue(KeyView::TextString(t))
}

/// The node for a truth value.
pub open spec fn bool_node(b: bool) -> ValueView {
    ValueView::Simple(
        if b {
            SimpleValue::TrueValue
        } else {
            SimpleValue::FalseValue
        },
    )
}

/// The value under `key`: that of the first entry with exactly this key.
pub open spec fn find_key(entries: Seq<(KeyView, ValueView)>, key: KeyView) -> Option<ValueView>
    decreases entries.len(),
{
    if entries.len() == 0 {
        None
    } else if entries[0].0 == key {
        Some(entries[0].1)
    } else {
        find_key(entries.drop_first(), key)
    }
}

/// The entries without the first one under `key`.
pub open spec fn remove_key(entries: Seq<(KeyView, ValueView)>, key: KeyView) -> Seq<
    (KeyView, ValueView),
>
    decreases entries.len(),
{
    if entries.len() == 0 {
        entries
    } else if entries[0].0 == key {
        entries.drop_first()
    } else {
        seq![entries[0]] + remove_key(entries.drop_first(), key)
    }
}

/// A lookup finds the entry at `i` when no earlier entry has the key.
pub proof fn lemma_find_key_at(entries: Seq<(KeyView, ValueView)>, key: KeyView, i: int)
    requires
        0 <= i < entries.len(),
        entries[i].0 == key,
        forall|j: int| 0 <= j < i ==> entries[j].0 != key,
    ensures
        find_key(entries, key) == Some(entries[i].1),
        remove_key(entries, key) == entries.remove(i),
    decreases i,
{
    if i > 0 {
        let rest = entries.drop_first();
        assert forall|j: int| 0 <= j < i - 1 implies rest[j].0 != key by {
            assert(rest[j] == entries[j + 1]);
        }
        lemma_find_key_at(rest, key, i - 1);
        assert(remove_key(entries, key) =~= entries.remove(i));
    } else {
        assert(entries.drop_first() =~= entries.remove(0));
    }
}

/// A lookup finds nothing when no entry has the key.
pub proof fn lemma_find_key_absent(entries: Seq<(KeyView, ValueView)>, key: KeyView)
    requires
        forall|j: int| 0 <= j < entries.len() ==> entries[j].0 != key,
    ensures
        find_key(entries, key) is None,
        remove_key(entries, key) == entries,
    decreases entries.len(),
{
    if entries.len() > 0 {
        let rest = entries.drop_first();
        assert forall|j: int| 0 <= j < rest.len() implies rest[j].0 != key by {
            assert(rest[j] == entries[j + 1]);
        }
        lemma_find_key_absent(rest, key);
        assert(seq![entries[0]] + rest =~= entries);
    }
}

/// A lookup in two runs of entries, one after the other, looks in the first
/// and, where that has no such key, in the second.
pub broadcast proof fn lemma_find_key_concat(
    front: Seq<(KeyView, ValueView)>,
    back: Seq<(KeyView, ValueView)>,
    key: KeyView,
)
    ensures
        #[trigger] find_key(front + back, key) == match find_key(front, key) {
            Some(v) => Some(v),
            None => find_key(back, key),
        },
    decreases front.len(),
{
    if front.len() == 0 {
        assert(front + back =~= back);
    } else {
        assert((front + back).drop_first() =~= front.drop_first() + back);
        lemma_find_key_concat(front.drop_first(), back, key);
    }
}

/// Taking the first entry under one key away leaves every other key's
/// lookup as it was.
pub proof fn lemma_remove_key_keeps_others(
    entries: Seq<(KeyView, ValueView)>,
    removed: KeyView,
    key: KeyView,
)
    requires
        removed != key,
    ensures
        find_key(remove_key(entries, removed), key) == find_key(entries, key),
    decreases entries.len(),
{
    if entries.len() > 0 && entries[0].0 != removed {
        let rest = remove_key(entries.drop_first(), removed);
        lemma_remove_key_keeps_others(entries.drop_first(), removed, key);
        assert((seq![entries[0]] + rest).drop_first() =~= rest);
    }
}

/// An entry under another key, put in at any place, leaves a key's lookup as
/// it was.
pub proof fn lemma_insert_keeps_others(
    entries: Seq<(KeyView, ValueView)>,
    at: int,
    extra: (KeyView, ValueView),
    key: KeyView,
)
    requires
        0 <= at <= entries.len(),
        extra.0 != key,
    ensures
        find_key(entries.insert(at, extra), key) == find_key(entries, key),
    decreases at,
{
    let longer = entries.insert(at, extra);
    if at == 0 {
        assert(longer.drop_first() =~= entries);
    } else {
        assert(longer[0] == entries[0]);
        assert(longer.drop_first() =~= entries.drop_first().insert(at - 1, extra));
        lemma_insert_keeps_others(entries.drop_first(), at - 1, extra, key);
    }
}

/// The entry under `key` for a field of a record: none where the field is
/// absent.
pub open spec fn field(key: KeyView, value: Option<ValueView>) -> Seq<(KeyView, ValueView)> {
    match value {
        Some(v) => seq![(key, v)],
        None => Seq::empty(),
    }
}

/// The view of a node that may be absent.
pub open spec fn optional_view<N: View<V = ValueView>>(value: Option<N>) -> Option<ValueView> {
    match value {
        Some(v) => Some(v@),
        None => None,
    }
}

/// A lookup in the entry of one field finds the field's value under the
/// field's key, and nothing else.
pub broadcast proof fn lemma_find_key_field(key: KeyView, value: Option<ValueView>, sought: KeyView)
    ensures
        #[trigger] find_key(field(key, value), sought) == if key == sought {
            value
        } else {
            None
        },
{
    if value is Some {
        assert(field(key, value).drop_first() =~= Seq::empty());
        assert(find_key(field(key, value).drop_first(), sought) is None);
    }
}

impl Clone for KeyType {
    fn clone(&self) -> (r: Self)
        ensures
            r@ == self@,
    {
        match self {
            KeyType::Unsigned(u) => KeyType::Unsigned(*u),
            KeyType::Negative(n) => KeyType::Negative(*n),
            KeyType::ByteString(b) => KeyType::ByteString(b.clone()),
            KeyType::TextString(t) => KeyType::TextString(t.clone()),
        }
    }
}

/// Whether two byte strings hold the same bytes.
pub fn bytes_equal(a: &Vec<u8>, b: &Vec<u8>) -> (r: bool)
    ensures
        r == (a@ == b@),
{
    if a.len() != b.len() {
        return false;
    }
    let mut i: usize = 0;
    while i < a.len()
        invariant
            i <= a.len(),
            a.len() == b.len(),
            forall|j: int| 0 <= j < i ==> a@[j] == b@[j],
        decreases a.len() - i,
    {
        if a[i] != b[i] {
            return false;
        }
        i = i + 1;
    }
    assert(a@ =~= b@);
    true
}

impl KeyType {
    /// The key for an integer, see [`int_key`].
    pub fn integer(i: i64) -> (r: KeyType)
        ensures
            r@ == int_key(i),
    {
        if i >= 0 {
            KeyType::Unsigned(i as u64)
        } else {
            KeyType::Negative(i)
        }
    }

    /// The key for a text.
    pub fn text(t: &str) -> (r: KeyType)
        ensures
            r@ == text_key(t@),
    {
        KeyType::TextString(t.to_owned())
    }

    /// Whether two keys are exactly the same: of one wire type, with the
    /// same content.
    pub fn same_key(&self, other: &KeyType) -> (r: bool)
        ensures
            r == (self@ == other@),
    {
        match (self, other) {
            (KeyType::Unsigned(a), KeyType::Unsigned(b)) => *a == *b,
            (KeyType::Negative(a), KeyType::Negative(b)) => *a == *b,
            (KeyType::ByteString(a), KeyType::ByteString(b)) => bytes_equal(a, b),
            (KeyType::TextString(a), KeyType::TextString(b)) => *a == *b,
            _ => false,
        }
    }
}

#[verifier::loop_isolation(false)]
fn clone_value(v: &Value) -> (r: Value)
    ensures
        r@ == v@,
    decreases v,
{
    match v {
        Value::KeyValue(k) => Value::KeyValue(k.clone()),
        Value::Array(a) => {
            let mut out: Vec<Value> = Vec::new();
            let mut i: usize = 0;
            while i < a.len()
                invariant
                    i <= a.len(),
                    out@.len() == i,
                    forall|j: int| 0 <= j < i ==> out@[j]@ == a@[j]@,
                decreases a.len() - i,
            {
                out.push(clone_value(&a[i]));
                i = i + 1;
            }
            let r = Value::Array(out);
            assert(r@->Array_0 =~= v@->Array_0);
            r
        },
        Value::Mapping(m) => {
            let mut out: Vec<(KeyType, Value)> = Vec::new();
            let mut i: usize = 0;
            while i < m.len()
                invariant
                    i <= m.len(),
                    out@.len() == i,
                    forall|j: int|
                        0 <= j < i ==> out@[j].0@ == m@[j].0@ && out@[j].1@ == m@[j].1@,
                decreases m.len() - i,
            {
                out.push((m[i].0.clone(), clone_value(&m[i].1)));
                i = i + 1;
            }
            let r = Value::Mapping(out);
            assert(r@->Mapping_0 =~= v@->Mapping_0);
            r
        },
        Value::Simple(s) => Value::Simple(*s),
    }
}

/// A copy of a map's entries.
pub fn clone_entries(entries: &Vec<(KeyType, Value)>) -> (r: Vec<(KeyType, Value)>)
    ensures
        entries_view(r@) == entries_view(entries@),
{
    let mut out: Vec<(KeyType, Value)> = Vec::new();
    let mut i: usize = 0;
    while i < entries.len()
        invariant
            i <= entries.len(),
            out@.len() == i,
            forall|j: int|
                0 <= j < i ==> out@[j].0@ == entries@[j].0@ && out@[j].1@ == entries@[j].1@,
        decreases entries.len() - i,
    {
        out.push((entries[i].0.clone(), clone_value(&entries[i].1)));
        i = i + 1;
    }
    assert(entries_view(out@) =~= entries_view(entries@));
    out
}

impl Clone for Value {
    fn clone(&self) -> (r: Self)
        ensures
            r@ == self@,
    {
        clone_value(self)
    }
}

impl Value {
    /// The node for an integer, see [`int_key`].
    pub fn integer(i: i64) -> (r: Value)
        ensures
            r@ == int_node(i),
    {
        Value::KeyValue(KeyType::integer(i))
    }

    /// The node for a non-negative integer, of the full 64-bit width.
    pub fn unsigned(u: u64) -> (r: Value)
        ensures
            r@ == unsigned_node(u),
    {
        Value::KeyValue(KeyType::Unsigned(u))
    }

    /// The node for a truth value.
    pub fn bool_value(b: bool) -> (r: Value)
        ensures
            r@ == bool_node(b),
    {
        if b {
            Value::Simple(SimpleValue::TrueValue)
        } else {
            Value::Simple(SimpleValue::FalseValue)
        }
    }

    /// The node for a text.
    pub fn text_string(t: &str) -> (r: Value)
        ensures
            r@ == text_node(t@),
    {
        Value::KeyValue(KeyType::TextString(t.to_owned()))
    }

    /// The node for a byte string.
    pub fn byte_string(b: Vec<u8>) -> (r: Value)
        ensures
            r@ == bytes_node(b@),
    {
        Value::KeyValue(KeyType::ByteString(b))
    }
}

/// The value under `key` in a map's entries, see [`find_key`].
pub fn map_get<'a>(entries: &'a Vec<(KeyType, Value)>, key: &KeyType) -> (r: Option<&'a Value>)
    ensures
        optional_view(r) == find_key(entries_view(entries@), key@),
{
    let ghost view = entries_view(entries@);
    let mut i: usize = 0;
    while i < entries.len()
        invariant
            i <= entries.len(),
            view == entries_view(entries@),
            forall|j: int| 0 <= j < i ==> view[j].0 != key@,
        decreases entries.len() - i,
    {
        if entries[i].0.same_key(key) {
            proof {
                lemma_find_key_at(view, key@, i as int);
            }
            return Some(&entries[i].1);
        }
        i = i + 1;
    }
    proof {
        lemma_find_key_absent(view, key@);
    }
    None
}

/// The value under the text `name` in a map's entries.
pub fn map_get_text<'a>(entries: &'a Vec<(KeyType, Value)>, name: &str) -> (r: Option<&'a Value>)
    ensures
        optional_view(r) == find_key(entries_view(entries@), text_key(name@)),
{
    map_get(entries, &KeyType::text(name))
}

/// The value under the integer `label` in a map's entries.
pub fn map_get_int<'a>(entries: &'a Vec<(KeyType, Value)>, label: i64) -> (r: Option<&'a Value>)
    ensures
        optional_view(r) == find_key(entries_view(entries@), int_key(label)),
{
    map_get(entries, &KeyType::integer(label))
}

/// Whether a text is the given one.
pub fn text_equals(text: &String, given: &str) -> (r: bool)
    ensures
        r == (text@ == given@),
{
    *text == given.to_owned()
}

/// Takes the first entry under `key` out of a map's entries and hands its
/// value out, see [`find_key`] and [`remove_key`].
pub fn map_remove(entries: &mut Vec<(KeyType, Value)>, key: &KeyType) -> (r: Option<Value>)
    ensures
        optional_view(r) == find_key(entries_view(old(entries)@), key@),
        entries_view(final(entries)@) == remove_key(entries_view(old(entries)@), key@),
{
    let ghost view = entries_view(entries@);
    let mut i: usize = 0;
    while i < entries.len()
        invariant
            i <= entries.len(),
            entries@ == old(entries)@,
            view == entries_view(entries@),
            forall|j: int| 0 <= j < i ==> view[j].0 != key@,
        decreases entries.len() - i,
    {
        if entries[i].0.same_key(key) {
            proof {
                lemma_find_key_at(view, key@, i as int);
            }
            let entry = entries.remove(i);
            assert(entries_view(entries@) =~= view.remove(i as int));
            return Some(entry.1);
        }
        i = i + 1;
    }
    proof {
        lemma_find_key_absent(view, key@);
    }
    None
}

/// Appends the entry of a field to a map's entries: nothing where the field
/// is absent.
pub fn push_field(entries: &mut Vec<(KeyType, Value)>, key: KeyType, value: Option<Value>)
    ensures
        entries_view(final(entries)@) == entries_view(old(entries)@) + field(
            key@,
            optional_view(value),
        ),
{
    match value {
        Some(v) => {
            entries.push((key, v));
        },
        None => {},
    }
    assert(entries_view(entries@) =~= entries_view(old(entries)@) + field(
        key@,
        optional_view(value),
    ));
}

} // verus!
