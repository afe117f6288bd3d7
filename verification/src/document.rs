//! The generic document tree: an ordered tree of key / operator / value
//! triples in which keys may repeat.
//!
//! A value is either a scalar or a container. A container holds an ordered
//! list of fields followed by an ordered list of bare values, so an object is
//! a container without bare values, an array is a container without fields,
//! and a container that starts as an object and goes on as an array holds
//! both. Reading a scalar as an object or as an array fails; reading a
//! container as text fails.
use vstd::prelude::*;
use vstd::string::*;
use crate::text::{text_eq, texts};

verus! {

/// The operator that stands between a key and its value.
#[derive(Clone, Copy, Debug, PartialEq, Eq, Structural)]
pub enum Operator {
    LessThan,
    LessThanEqual,
    GreaterThan,
    GreaterThanEqual,
    NotEqual,
    Exact,
    Equal,
    Exists,
}

/// A scalar: the raw bytes as they stand in the file, and the text that they
/// decode to.
#[derive(Debug, PartialEq, Eq)]
pub struct Scalar {
    pub bytes: Vec<u8>,
    pub text: String,
}

/// A value of the document tree.
#[derive(Debug, PartialEq, Eq)]
pub enum Value {
    Scalar(Scalar),
    Container(Container),
}

/// An ordered list of fields followed by an ordered list of bare values.
#[derive(Debug, PartialEq, Eq)]
pub struct Container {
    pub fields: Vec<Field>,
    pub values: Vec<Value>,
}

/// One key / operator / value triple. `op` is `None` where the file has a
/// plain `=`.
#[derive(Debug, PartialEq, Eq)]
pub struct Field {
    pub key: String,
    pub op: Option<Operator>,
    pub value: Value,
}

/// A parsed file: its top-level fields, in file order.
#[derive(Debug, PartialEq, Eq)]
pub struct Document {
    pub fields: Vec<Field>,
}

/// The mathematical model of a [`Value`].
pub enum Node {
    Scalar { bytes: Seq<u8>, text: Seq<char> },
    Container { fields: Seq<Entry>, values: Seq<Node> },
}

/// The mathematical model of a [`Field`].
pub struct Entry {
    pub key: Seq<char>,
    pub op: Option<Operator>,
    pub value: Node,
}

impl View for Value {
    type V = Node;

    open spec fn view(&self) -> Node
        decreases self,
    {
        match self {
            Value::Scalar(s) => Node::Scalar { bytes: s.bytes@, text: s.text@ },
            Value::Container(c) => Node::Container {
                fields: view_fields(c.fields@),
                values: view_values(c.values@),
            },
        }
    }
}

impl View for Field {
    type V = Entry;

    open spec fn view(&self) -> Entry
        decreases self,
    {
        Entry { key: self.key@, op: self.op, value: self.value.view() }
    }
}

impl View for Document {
    type V = Seq<Entry>;

    open spec fn view(&self) -> Seq<Entry> {
        view_fields(self.fields@)
    }
}

/// The models of a list of fields, in order.
pub open spec fn view_fields(fields: Seq<Field>) -> Seq<Entry>
    decreases fields,
{
    Seq::new(
        fields.len(),
        |i: int|
            if 0 <= i < fields.len() {
                fields[i].view()
            } else {
                arbitrary()
            },
    )
}

/// The models of a list of values, in order.
pub open spec fn view_values(values: Seq<Value>) -> Seq<Node>
    decreases values,
{
    Seq::new(
        values.len(),
        |i: int|
            if 0 <= i < values.len() {
                values[i].view()
            } else {
                arbitrary()
            },
    )
}

impl Node {
    /// The text of a scalar; nothing for a container.
    pub open spec fn text(self) -> Option<Seq<char>> {
        match self {
            Node::Scalar { text, .. } => Some(text),
            Node::Container { .. } => None,
        }
    }

    /// The raw bytes of a scalar; nothing for a container.
    pub open spec fn bytes(self) -> Option<Seq<u8>> {
        match self {
            Node::Scalar { bytes, .. } => Some(bytes),
            Node::Container { .. } => None,
        }
    }

    /// The fields of a container; nothing for a scalar.
    pub open spec fn object(self) -> Option<Seq<Entry>> {
        match self {
            Node::Scalar { .. } => None,
            Node::Container { fields, .. } => Some(fields),
        }
    }

    /// The bare values of a container; nothing for a scalar.
    pub open spec fn array(self) -> Option<Seq<Node>> {
        match self {
            Node::Scalar { .. } => None,
            Node::Container { values, .. } => Some(values),
        }
    }
}

impl Value {
    /// A scalar that holds `text`, with the UTF-8 bytes of `text` as its raw
    /// bytes.
    pub fn scalar(text: &str) -> (value: Value)
        ensures
            value@ == (Node::Scalar { bytes: text.spec_bytes(), text: text@ }),
    {
        Value::Scalar(Scalar { bytes: text.as_bytes_vec(), text: text.to_owned() })
    }

    /// An object: a container that holds `fields` and no bare values.
    pub fn object(fields: Vec<Field>) -> (value: Value)
        ensures
            value@ == (Node::Container { fields: view_fields(fields@), values: Seq::empty() }),
    {
        let value = Value::Container(Container { fields, values: Vec::new() });
        assert(view_values(Seq::<Value>::empty()) =~= Seq::<Node>::empty());
        value
    }

    /// An array: a container that holds `values` and no fields.
    pub fn array(values: Vec<Value>) -> (value: Value)
        ensures
            value@ == (Node::Container { fields: Seq::empty(), values: view_values(values@) }),
    {
        let value = Value::Container(Container { fields: Vec::new(), values });
        assert(view_fields(Seq::<Field>::empty()) =~= Seq::<Entry>::empty());
        value
    }

    /// Reads the value as text.
    pub fn as_text(&self) -> (text: Option<&String>)
        ensures
            text is Some <==> self@.text() is Some,
            text matches Some(t) ==> self@.text() == Some(t@),
    {
        match self {
            Value::Scalar(s) => Some(&s.text),
            Value::Container(_) => None,
        }
    }

    /// Reads the value as a scalar.
    pub fn as_scalar(&self) -> (scalar: Option<&Scalar>)
        ensures
            scalar is Some <==> self@.bytes() is Some,
            scalar matches Some(s) ==> self@ == (Node::Scalar { bytes: s.bytes@, text: s.text@ }),
    {
        match self {
            Value::Scalar(s) => Some(s),
            Value::Container(_) => None,
        }
    }

    /// Reads the value as an object: the fields of a container.
    pub fn as_object(&self) -> (fields: Option<&Vec<Field>>)
        ensures
            fields is Some <==> self@.object() is Some,
            fields matches Some(f) ==> self@.object() == Some(view_fields(f@)),
            fields matches Some(f) ==> decreases_to!(self => f@),
    {
        match self {
            Value::Scalar(_) => None,
            Value::Container(c) => Some(&c.fields),
        }
    }

    /// Reads the value as an array: the bare values of a container.
    pub fn as_array(&self) -> (values: Option<&Vec<Value>>)
        ensures
            values is Some <==> self@.array() is Some,
            values matches Some(v) ==> self@.array() == Some(view_values(v@)),
            values matches Some(v) ==> decreases_to!(self => v@),
    {
        match self {
            Value::Scalar(_) => None,
            Value::Container(c) => Some(&c.values),
        }
    }

    /// A copy of this value.
    pub fn duplicate(&self) -> (copy: Value)
        ensures
            copy@ == self@,
        decreases self,
    {
        match (self.as_scalar(), self.as_object(), self.as_array()) {
            (Some(s), _, _) => Value::Scalar(
                Scalar { bytes: vstd::slice::slice_to_vec(s.bytes.as_slice()), text: s.text.clone() },
            ),
            (None, Some(old_fields), Some(old_values)) => {
                let mut fields: Vec<Field> = Vec::new();
                let mut i: usize = 0;
                while i < old_fields.len()
                    invariant
                        i <= old_fields.len(),
                        decreases_to!(self => old_fields@),
                        fields@.len() == i,
                        forall|j: int| 0 <= j < i ==> (#[trigger] fields@[j])@ == old_fields@[j]@,
                    decreases old_fields.len() - i,
                {
                    let field = &old_fields[i];
                    fields.push(
                        Field { key: field.key.clone(), op: field.op, value: field.value.duplicate() },
                    );
                    i += 1;
                }
                let mut values: Vec<Value> = Vec::new();
                let mut k: usize = 0;
                while k < old_values.len()
                    invariant
                        k <= old_values.len(),
                        decreases_to!(self => old_values@),
                        values@.len() == k,
                        forall|j: int| 0 <= j < k ==> (#[trigger] values@[j])@ == old_values@[j]@,
                    decreases old_values.len() - k,
                {
                    values.push(old_values[k].duplicate());
                    k += 1;
                }
                assert(view_fields(fields@) =~= view_fields(old_fields@));
                assert(view_values(values@) =~= view_values(old_values@));
                Value::Container(Container { fields, values })
            },
            _ => Value::Container(Container { fields: Vec::new(), values: Vec::new() }),
        }
    }
}

impl Field {
    /// A field with a plain `=` between key and value.
    pub fn new(key: &str, value: Value) -> (field: Field)
        ensures
            field@ == (Entry { key: key@, op: None, value: value@ }),
    {
        Field { key: key.to_owned(), op: None, value }
    }
}

/// The value of the first field named `key`.
pub open spec fn first_of(entries: Seq<Entry>, key: Seq<char>) -> Option<Node>
    decreases entries.len(),
{
    if entries.len() == 0 {
        None
    } else if entries.first().key == key {
        Some(entries.first().value)
    } else {
        first_of(entries.drop_first(), key)
    }
}

/// The value of the last field named `key`.
pub open spec fn last_of(entries: Seq<Entry>, key: Seq<char>) -> Option<Node>
    decreases entries.len(),
{
    if entries.len() == 0 {
        None
    } else if entries.last().key == key {
        Some(entries.last().value)
    } else {
        last_of(entries.drop_last(), key)
    }
}

/// The values of all fields named `key`, in order.
pub open spec fn all_of(entries: Seq<Entry>, key: Seq<char>) -> Seq<Node>
    decreases entries.len(),
{
    if entries.len() == 0 {
        Seq::empty()
    } else if entries.last().key == key {
        all_of(entries.drop_last(), key).push(entries.last().value)
    } else {
        all_of(entries.drop_last(), key)
    }
}

/// Reading `first_of` from the front: the fields before the first match do
/// not matter.
proof fn lemma_first_of_skip(entries: Seq<Entry>, key: Seq<char>, n: int)
    requires
        0 <= n <= entries.len(),
        forall|j: int| 0 <= j < n ==> entries[j].key != key,
    ensures
        first_of(entries, key) == first_of(entries.skip(n), key),
    decreases n,
{
    if n == 0 {
        assert(entries.skip(0) =~= entries);
    } else {
        assert(entries.drop_first().skip(n - 1) =~= entries.skip(n));
        lemma_first_of_skip(entries.drop_first(), key, n - 1);
    }
}

/// The values found by `all_of` are those of fields named `key`, and where
/// the last field is so named, its value is the last found.
proof fn lemma_all_of_last(entries: Seq<Entry>, key: Seq<char>)
    ensures
        all_of(entries, key).len() > 0 <==> has_key(entries, key),
        all_of(entries, key).len() > 0 ==> last_of(entries, key) == Some(
            all_of(entries, key).last(),
        ),
        all_of(entries, key).len() == 0 ==> last_of(entries, key) is None,
    decreases entries.len(),
{
    if entries.len() > 0 {
        let shorter = entries.drop_last();
        lemma_all_of_last(shorter, key);
        if has_key(shorter, key) {
            let i = choose|i: int| 0 <= i < shorter.len() && (#[trigger] shorter[i]).key == key;
            assert(entries[i].key == key);
        }
        if entries.last().key == key {
            assert(entries[entries.len() - 1].key == key);
        } else if has_key(entries, key) {
            let i = choose|i: int| 0 <= i < entries.len() && (#[trigger] entries[i]).key == key;
            assert(shorter[i].key == key);
        }
    }
}

/// The first value found by `all_of` is the value of the first field named
/// `key`.
proof fn lemma_all_of_first(entries: Seq<Entry>, key: Seq<char>)
    ensures
        all_of(entries, key).len() > 0 ==> first_of(entries, key) == Some(
            all_of(entries, key).first(),
        ),
        all_of(entries, key).len() == 0 ==> first_of(entries, key) is None,
    decreases entries.len(),
{
    if entries.len() > 0 {
        let shorter = entries.drop_last();
        lemma_all_of_first(shorter, key);
        lemma_first_of_append(shorter, entries.last(), key);
        assert(shorter.push(entries.last()) =~= entries);
    }
}

/// A field behind the others is the first of its name only where none of
/// the others has the name.
proof fn lemma_first_of_append(entries: Seq<Entry>, entry: Entry, key: Seq<char>)
    ensures
        first_of(entries.push(entry), key) == if first_of(entries, key) is Some {
            first_of(entries, key)
        } else if entry.key == key {
            Some(entry.value)
        } else {
            None
        },
    decreases entries.len(),
{
    let longer = entries.push(entry);
    if entries.len() == 0 {
        assert(longer.first() == entry);
        assert(longer.drop_first().len() == 0);
        assert(first_of(longer.drop_first(), key) is None);
        assert(first_of(entries, key) is None);
    } else {
        assert(longer.first() == entries.first());
        assert(longer.drop_first() =~= entries.drop_first().push(entry));
        lemma_first_of_append(entries.drop_first(), entry, key);
    }
}

/// The three ways of reading a repeated key agree: the key has a first and
/// a last value exactly where it has any, and these are the first and the
/// last of all its values.
pub proof fn lemma_first_last_all(entries: Seq<Entry>, key: Seq<char>)
    ensures
        first_of(entries, key) is Some <==> has_key(entries, key),
        last_of(entries, key) is Some <==> has_key(entries, key),
        all_of(entries, key).len() > 0 <==> has_key(entries, key),
        has_key(entries, key) ==> first_of(entries, key) == Some(all_of(entries, key).first())
            && last_of(entries, key) == Some(all_of(entries, key).last()),
{
    lemma_all_of_last(entries, key);
    lemma_all_of_first(entries, key);
}

/// The value of the first field named `key`, if there is one.
pub fn first<'a>(fields: &'a Vec<Field>, key: &str) -> (found: Option<&'a Value>)
    ensures
        found is Some <==> first_of(view_fields(fields@), key@) is Some,
        found matches Some(v) ==> first_of(view_fields(fields@), key@) == Some(v@),
{
    let mut i: usize = 0;
    while i < fields.len()
        invariant
            i <= fields.len(),
            forall|j: int| 0 <= j < i ==> view_fields(fields@)[j].key != key@,
        decreases fields.len() - i,
    {
        if text_eq(fields[i].key.as_str(), key) {
            proof {
                lemma_first_of_skip(view_fields(fields@), key@, i as int);
            }
            return Some(&fields[i].value);
        }
        i += 1;
    }
    proof {
        lemma_first_of_skip(view_fields(fields@), key@, i as int);
    }
    None
}

/// The value of the last field named `key`, if there is one.
pub fn last<'a>(fields: &'a Vec<Field>, key: &str) -> (found: Option<&'a Value>)
    ensures
        found is Some <==> last_of(view_fields(fields@), key@) is Some,
        found matches Some(v) ==> last_of(view_fields(fields@), key@) == Some(v@),
{
    let mut found: Option<&'a Value> = None;
    let mut i: usize = 0;
    while i < fields.len()
        invariant
            i <= fields.len(),
            found is Some <==> last_of(view_fields(fields@).take(i as int), key@) is Some,
            found matches Some(v) ==> last_of(view_fields(fields@).take(i as int), key@) == Some(
                v@,
            ),
        decreases fields.len() - i,
    {
        let ghost entries = view_fields(fields@);
        assert(entries.take(i + 1).drop_last() =~= entries.take(i as int));
        if text_eq(fields[i].key.as_str(), key) {
            found = Some(&fields[i].value);
        }
        i += 1;
    }
    assert(view_fields(fields@).take(i as int) =~= view_fields(fields@));
    found
}

/// The values of all fields named `key`, in file order.
pub fn all<'a>(fields: &'a Vec<Field>, key: &str) -> (found: Vec<&'a Value>)
    ensures
        found@.len() == all_of(view_fields(fields@), key@).len(),
        forall|k: int| 0 <= k < found@.len() ==> (#[trigger] found@[k])@ == all_of(view_fields(fields@), key@)[k],
{
    let mut found: Vec<&'a Value> = Vec::new();
    let mut i: usize = 0;
    while i < fields.len()
        invariant
            i <= fields.len(),
            found@.len() == all_of(view_fields(fields@).take(i as int), key@).len(),
            forall|k: int| 0 <= k < found@.len() ==> (#[trigger] found@[k])@ == all_of(view_fields(fields@).take(i as int), key@)[k],
        decreases fields.len() - i,
    {
        let ghost entries = view_fields(fields@);
        assert(entries.take(i + 1).drop_last() =~= entries.take(i as int));
        if text_eq(fields[i].key.as_str(), key) {
            found.push(&fields[i].value);
        }
        i += 1;
    }
    assert(view_fields(fields@).take(i as int) =~= view_fields(fields@));
    found
}

/// The number that `jomini::Scalar::to_u64` reads from a scalar's raw bytes,
/// if it reads one.
pub uninterp spec fn scalar_u64(bytes: Seq<u8>) -> Option<u64>;

/// Trusted: `jomini::Scalar::to_u64`, applied to a scalar over `bytes`. The
/// contract names the result: it depends on the bytes alone. An error of the
/// outside function becomes `None`.
#[verifier::external_body]
fn scalar_to_u64(bytes: &[u8]) -> (number: Option<u64>)
    ensures
        number == scalar_u64(bytes@),
{
    jomini::Scalar::new(bytes).to_u64().ok()
}

/// The number that a node holds: that of its raw bytes where it is a scalar.
pub open spec fn number_of(node: Node) -> Option<u64> {
    match node.bytes() {
        Some(bytes) => scalar_u64(bytes),
        None => None,
    }
}

/// Reads the value as an unsigned number.
pub fn read_number(value: &Value) -> (number: Option<u64>)
    ensures
        number == number_of(value@),
{
    match value {
        Value::Scalar(s) => scalar_to_u64(s.bytes.as_slice()),
        Value::Container(_) => None,
    }
}

/// The numbers among `values`, in order; a value that holds no number is
/// left out.
pub open spec fn numbers_in(values: Seq<Node>) -> Seq<u64>
    decreases values.len(),
{
    if values.len() == 0 {
        Seq::empty()
    } else {
        match number_of(values.last()) {
            Some(n) => numbers_in(values.drop_last()).push(n),
            None => numbers_in(values.drop_last()),
        }
    }
}

/// The texts among `values`, in order; a value that is no text is left out.
pub open spec fn texts_in(values: Seq<Node>) -> Seq<Seq<char>>
    decreases values.len(),
{
    if values.len() == 0 {
        Seq::empty()
    } else {
        match values.last().text() {
            Some(t) => texts_in(values.drop_last()).push(t),
            None => texts_in(values.drop_last()),
        }
    }
}

/// Reads the numbers among `values`.
pub fn read_numbers(values: &Vec<Value>) -> (numbers: Vec<u64>)
    ensures
        numbers@ == numbers_in(view_values(values@)),
{
    let mut numbers: Vec<u64> = Vec::new();
    let ghost nodes = view_values(values@);
    let mut i: usize = 0;
    while i < values.len()
        invariant
            i <= values.len(),
            nodes == view_values(values@),
            numbers@ == numbers_in(nodes.take(i as int)),
        decreases values.len() - i,
    {
        assert(nodes.take(i + 1).drop_last() =~= nodes.take(i as int));
        match read_number(&values[i]) {
            Some(n) => {
                numbers.push(n);
            },
            None => {},
        }
        i += 1;
    }
    assert(nodes.take(i as int) =~= nodes);
    numbers
}

/// Reads the texts among `values`.
pub fn read_texts(values: &Vec<Value>) -> (found: Vec<String>)
    ensures
        texts(found@) == texts_in(view_values(values@)),
{
    let mut found: Vec<String> = Vec::new();
    let ghost nodes = view_values(values@);
    let mut i: usize = 0;
    assert(texts(found@) =~= Seq::<Seq<char>>::empty());
    while i < values.len()
        invariant
            i <= values.len(),
            nodes == view_values(values@),
            texts(found@) == texts_in(nodes.take(i as int)),
        decreases values.len() - i,
    {
        assert(nodes.take(i + 1).drop_last() =~= nodes.take(i as int));
        match values[i].as_text() {
            Some(t) => {
                let ghost before = texts(found@);
                found.push(t.clone());
                assert(texts(found@) =~= before.push(t@));
            },
            None => {},
        }
        i += 1;
    }
    assert(nodes.take(i as int) =~= nodes);
    found
}

/// The truth value that a node holds: `yes` is true and `no` is false.
pub open spec fn flag_of(node: Node) -> Option<bool> {
    match node.text() {
        Some(t) => if t == "yes"@ {
            Some(true)
        } else if t == "no"@ {
            Some(false)
        } else {
            None
        },
        None => None,
    }
}

/// Reads the value as a truth value.
pub fn read_flag(value: &Value) -> (flag: Option<bool>)
    ensures
        flag == flag_of(value@),
{
    match value.as_text() {
        Some(t) => if text_eq(t.as_str(), "yes") {
            Some(true)
        } else if text_eq(t.as_str(), "no") {
            Some(false)
        } else {
            None
        },
        None => None,
    }
}

/// The text of the first field named `key`, where that field holds text.
pub open spec fn first_text(entries: Seq<Entry>, key: Seq<char>) -> Option<Seq<char>> {
    match first_of(entries, key) {
        Some(v) => v.text(),
        None => None,
    }
}

/// The text of the last field named `key`, where that field holds text.
pub open spec fn last_text(entries: Seq<Entry>, key: Seq<char>) -> Option<Seq<char>> {
    match last_of(entries, key) {
        Some(v) => v.text(),
        None => None,
    }
}

/// The number of the first field named `key`, where that field holds one.
pub open spec fn first_number(entries: Seq<Entry>, key: Seq<char>) -> Option<u64> {
    match first_of(entries, key) {
        Some(v) => number_of(v),
        None => None,
    }
}

/// The truth value of the first field named `key`, where that field holds
/// one.
pub open spec fn first_flag(entries: Seq<Entry>, key: Seq<char>) -> Option<bool> {
    match first_of(entries, key) {
        Some(v) => flag_of(v),
        None => None,
    }
}

/// The texts among the values of all fields named `key`, in order.
pub open spec fn all_texts(entries: Seq<Entry>, key: Seq<char>) -> Seq<Seq<char>> {
    texts_in(all_of(entries, key))
}

/// Reads the text of the first field named `key`.
pub fn read_first_text(fields: &Vec<Field>, key: &str) -> (text: Option<String>)
    ensures
        text is Some <==> first_text(view_fields(fields@), key@) is Some,
        text matches Some(t) ==> first_text(view_fields(fields@), key@) == Some(t@),
{
    match first(fields, key) {
        Some(v) => match v.as_text() {
            Some(t) => Some(t.clone()),
            None => None,
        },
        None => None,
    }
}

/// Reads the text of the last field named `key`.
pub fn read_last_text(fields: &Vec<Field>, key: &str) -> (text: Option<String>)
    ensures
        text is Some <==> last_text(view_fields(fields@), key@) is Some,
        text matches Some(t) ==> last_text(view_fields(fields@), key@) == Some(t@),
{
    match last(fields, key) {
        Some(v) => match v.as_text() {
            Some(t) => Some(t.clone()),
            None => None,
        },
        None => None,
    }
}

/// Reads the number of the first field named `key`.
pub fn read_first_number(fields: &Vec<Field>, key: &str) -> (number: Option<u64>)
    ensures
        number == first_number(view_fields(fields@), key@),
{
    match first(fields, key) {
        Some(v) => read_number(v),
        None => None,
    }
}

/// Reads the truth value of the first field named `key`.
pub fn read_first_flag(fields: &Vec<Field>, key: &str) -> (flag: Option<bool>)
    ensures
        flag == first_flag(view_fields(fields@), key@),
{
    match first(fields, key) {
        Some(v) => read_flag(v),
        None => None,
    }
}

/// Reads the texts among the values of all fields named `key`.
pub fn read_all_texts(fields: &Vec<Field>, key: &str) -> (found: Vec<String>)
    ensures
        texts(found@) == all_texts(view_fields(fields@), key@),
{
    let mut found: Vec<String> = Vec::new();
    let ghost entries = view_fields(fields@);
    let mut i: usize = 0;
    assert(texts(found@) =~= Seq::<Seq<char>>::empty());
    while i < fields.len()
        invariant
            i <= fields.len(),
            entries == view_fields(fields@),
            texts(found@) == all_texts(entries.take(i as int), key@),
        decreases fields.len() - i,
    {
        assert(entries.take(i + 1).drop_last() =~= entries.take(i as int));
        if text_eq(fields[i].key.as_str(), key) {
            assert(all_of(entries.take(i + 1), key@).drop_last() =~= all_of(
                entries.take(i as int),
                key@,
            ));
            match fields[i].value.as_text() {
                Some(t) => {
                    let ghost before = texts(found@);
                    found.push(t.clone());
                    assert(texts(found@) =~= before.push(t@));
                },
                None => {},
            }
        }
        i += 1;
    }
    assert(entries.take(i as int) =~= entries);
    found
}

/// Whether some field is named `key`.
pub open spec fn has_key(entries: Seq<Entry>, key: Seq<char>) -> bool {
    exists|i: int| 0 <= i < entries.len() && (#[trigger] entries[i]).key == key
}

/// Whether some field named `key` holds the text `yes`.
pub open spec fn says_yes(entries: Seq<Entry>, key: Seq<char>) -> bool {
    exists|i: int|
        0 <= i < entries.len() && (#[trigger] entries[i]).key == key && entries[i].value.text()
            == Some("yes"@)
}

/// The text of the last field named `key` that holds text.
pub open spec fn latest_text(entries: Seq<Entry>, key: Seq<char>) -> Option<Seq<char>>
    decreases entries.len(),
{
    if entries.len() == 0 {
        None
    } else if entries.last().key == key && entries.last().value.text() is Some {
        entries.last().value.text()
    } else {
        latest_text(entries.drop_last(), key)
    }
}

/// The number of the last field named `key` that holds a number.
pub open spec fn latest_number(entries: Seq<Entry>, key: Seq<char>) -> Option<u64>
    decreases entries.len(),
{
    if entries.len() == 0 {
        None
    } else if entries.last().key == key && number_of(entries.last().value) is Some {
        number_of(entries.last().value)
    } else {
        latest_number(entries.drop_last(), key)
    }
}

/// The texts among the bare values of all fields named `key`, in order.
pub open spec fn listed_texts(entries: Seq<Entry>, key: Seq<char>) -> Seq<Seq<char>>
    decreases entries.len(),
{
    if entries.len() == 0 {
        Seq::empty()
    } else if entries.last().key == key {
        match entries.last().value.array() {
            Some(values) => listed_texts(entries.drop_last(), key) + texts_in(values),
            None => listed_texts(entries.drop_last(), key),
        }
    } else {
        listed_texts(entries.drop_last(), key)
    }
}

/// Whether some field is named `key`.
pub fn contains_key(fields: &Vec<Field>, key: &str) -> (found: bool)
    ensures
        found == has_key(view_fields(fields@), key@),
{
    let ghost entries = view_fields(fields@);
    let mut i: usize = 0;
    while i < fields.len()
        invariant
            i <= fields.len(),
            entries == view_fields(fields@),
            forall|j: int| 0 <= j < i ==> (#[trigger] entries[j]).key != key@,
        decreases fields.len() - i,
    {
        if text_eq(fields[i].key.as_str(), key) {
            assert(entries[i as int].key == key@);
            return true;
        }
        i += 1;
    }
    false
}

/// Whether some field named `key` holds the text `yes`.
pub fn read_yes(fields: &Vec<Field>, key: &str) -> (found: bool)
    ensures
        found == says_yes(view_fields(fields@), key@),
{
    let ghost entries = view_fields(fields@);
    let mut i: usize = 0;
    while i < fields.len()
        invariant
            i <= fields.len(),
            entries == view_fields(fields@),
            forall|j: int|
                0 <= j < i ==> !((#[trigger] entries[j]).key == key@ && entries[j].value.text()
                    == Some("yes"@)),
        decreases fields.len() - i,
    {
        if text_eq(fields[i].key.as_str(), key) {
            match fields[i].value.as_text() {
                Some(t) => {
                    if text_eq(t.as_str(), "yes") {
                        assert(entries[i as int].key == key@ && entries[i as int].value.text()
                            == Some("yes"@));
                        return true;
                    }
                },
                None => {},
            }
        }
        i += 1;
    }
    false
}

/// Reads the text of the last field named `key` that holds text.
pub fn read_latest_text(fields: &Vec<Field>, key: &str) -> (text: Option<String>)
    ensures
        text is Some <==> latest_text(view_fields(fields@), key@) is Some,
        text matches Some(t) ==> latest_text(view_fields(fields@), key@) == Some(t@),
{
    let ghost entries = view_fields(fields@);
    let mut text: Option<String> = None;
    let mut i: usize = 0;
    while i < fields.len()
        invariant
            i <= fields.len(),
            entries == view_fields(fields@),
            text is Some <==> latest_text(entries.take(i as int), key@) is Some,
            text matches Some(t) ==> latest_text(entries.take(i as int), key@) == Some(t@),
        decreases fields.len() - i,
    {
        assert(entries.take(i + 1).drop_last() =~= entries.take(i as int));
        if text_eq(fields[i].key.as_str(), key) {
            match fields[i].value.as_text() {
                Some(t) => {
                    text = Some(t.clone());
                },
                None => {},
            }
        }
        i += 1;
    }
    assert(entries.take(i as int) =~= entries);
    text
}

/// Reads the number of the last field named `key` that holds a number.
pub fn read_latest_number(fields: &Vec<Field>, key: &str) -> (number: Option<u64>)
    ensures
        number == latest_number(view_fields(fields@), key@),
{
    let ghost entries = view_fields(fields@);
    let mut number: Option<u64> = None;
    let mut i: usize = 0;
    while i < fields.len()
        invariant
            i <= fields.len(),
            entries == view_fields(fields@),
            number == latest_number(entries.take(i as int), key@),
        decreases fields.len() - i,
    {
        assert(entries.take(i + 1).drop_last() =~= entries.take(i as int));
        if text_eq(fields[i].key.as_str(), key) {
            match read_number(&fields[i].value) {
                Some(n) => {
                    number = Some(n);
                },
                None => {},
            }
        }
        i += 1;
    }
    assert(entries.take(i as int) =~= entries);
    number
}

/// Reads the texts among the bare values of all fields named `key`.
pub fn read_listed_texts(fields: &Vec<Field>, key: &str) -> (found: Vec<String>)
    ensures
        texts(found@) == listed_texts(view_fields(fields@), key@),
{
    let mut found: Vec<String> = Vec::new();
    let ghost entries = view_fields(fields@);
    let mut i: usize = 0;
    assert(texts(found@) =~= Seq::<Seq<char>>::empty());
    while i < fields.len()
        invariant
            i <= fields.len(),
            entries == view_fields(fields@),
            texts(found@) == listed_texts(entries.take(i as int), key@),
        decreases fields.len() - i,
    {
        assert(entries.take(i + 1).drop_last() =~= entries.take(i as int));
        if text_eq(fields[i].key.as_str(), key) {
            match fields[i].value.as_array() {
                Some(values) => {
                    let mut more = read_texts(values);
                    let ghost before = texts(found@);
                    let ghost added = texts(more@);
                    found.append(&mut more);
                    assert(texts(found@) =~= before + added);
                },
                None => {},
            }
        }
        i += 1;
    }
    assert(entries.take(i as int) =~= entries);
    found
}

} // verus!
