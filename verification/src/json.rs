//! JSON documents: the values the rest of the library works on, and how a
//! text becomes one.
use crate::text::same_text;
use vstd::prelude::*;

verus! {

/// A number of a JSON document.
#[derive(Debug, Clone, Copy, PartialEq, Eq)]
pub enum JsonNumber {
    /// An integer that is not negative.
    Unsigned(u64),
    /// A negative integer.
    Signed(i64),
    /// Any other number, as the bits of its double precision value.
    Float(u64),
}

/// A JSON document.
#[derive(Debug, PartialEq, Eq)]
pub enum JsonValue {
    Null,
    Bool(bool),
    Number(JsonNumber),
    String(String),
    Array(Vec<JsonValue>),
    /// The entries in the order in which they are walked.
    Object(Vec<(String, JsonValue)>),
}

/// What a JSON document holds.
pub enum JsonTree {
    Null,
    Bool(bool),
    Number(JsonNumber),
    String(Seq<char>),
    Array(Seq<JsonTree>),
    Object(Seq<(Seq<char>, JsonTree)>),
}

impl JsonValue {
    /// What the document holds.
    pub open spec fn tree(self) -> JsonTree
        decreases self,
    {
        match self {
            JsonValue::Null => JsonTree::Null,
            JsonValue::Bool(flag) => JsonTree::Bool(flag),
            JsonValue::Number(number) => JsonTree::Number(number),
            JsonValue::String(text) => JsonTree::String(text@),
            JsonValue::Array(items) => JsonTree::Array(
                Seq::new(
                    items@.len(),
                    |i: int|
                        if 0 <= i < items@.len() {
                            items@[i].tree()
                        } else {
                            JsonTree::Null
                        },
                ),
            ),
            JsonValue::Object(entries) => JsonTree::Object(
                Seq::new(
                    entries@.len(),
                    |i: int|
                        if 0 <= i < entries@.len() {
                            (entries@[i].0@, entries@[i].1.tree())
                        } else {
                            (Seq::empty(), JsonTree::Null)
                        },
                ),
            ),
        }
    }
}

impl View for JsonValue {
    type V = JsonTree;

    open spec fn view(&self) -> JsonTree {
        self.tree()
    }
}

/// Whether no key occurs twice.
pub open spec fn distinct_keys(entries: Seq<(Seq<char>, JsonTree)>) -> bool {
    forall|i: int, j: int| 0 <= i < j < entries.len() ==> entries[i].0 != entries[j].0
}

/// A document in which no object has two entries under one key.
pub open spec fn well_formed(tree: JsonTree) -> bool
    decreases tree,
{
    match tree {
        JsonTree::Array(items) => forall|i: int|
            0 <= i < items.len() ==> well_formed(#[trigger] items[i]),
        JsonTree::Object(entries) => distinct_keys(entries) && forall|i: int|
            0 <= i < entries.len() ==> well_formed((#[trigger] entries[i]).1),
        _ => true,
    }
}

/// The first value that stands under `key`.
pub open spec fn entry_of(entries: Seq<(Seq<char>, JsonTree)>, key: Seq<char>) -> Option<JsonTree>
    decreases entries.len(),
{
    if entries.len() == 0 {
        None
    } else if entries[0].0 == key {
        Some(entries[0].1)
    } else {
        entry_of(entries.skip(1), key)
    }
}

/// `serde_json::Value`, a JSON document as its crate keeps it.
#[verifier::external_type_specification]
#[verifier::external_body]
pub struct ExValue(serde_json::Value);

/// What a `serde_json::Value` holds.
pub uninterp spec fn value_tree(value: serde_json::Value) -> JsonTree;

/// The document that `serde_json::from_str` reads from a text, or what it says
/// is wrong with the text.
pub uninterp spec fn parsed_json(text: Seq<char>) -> Result<JsonTree, Seq<char>>;

/// What `serde_json::to_string_pretty` writes for a document.
pub uninterp spec fn pretty_json_text(tree: JsonTree) -> Seq<char>;

/// One level of a `serde_json::Value`.
enum Node {
    Null,
    Bool(bool),
    Number(JsonNumber),
    String(String),
    Array(Vec<serde_json::Value>),
    Object(Vec<(String, serde_json::Value)>),
}

impl Node {
    spec fn tree(self) -> JsonTree {
        match self {
            Node::Null => JsonTree::Null,
            Node::Bool(flag) => JsonTree::Bool(flag),
            Node::Number(number) => JsonTree::Number(number),
            Node::String(text) => JsonTree::String(text@),
            Node::Array(items) => JsonTree::Array(
                Seq::new(items@.len(), |i: int| value_tree(items@[i])),
            ),
            Node::Object(entries) => JsonTree::Object(
                Seq::new(entries@.len(), |i: int| (entries@[i].0@, value_tree(entries@[i].1))),
            ),
        }
    }
}

/// Matches on a `serde_json::Value` and hands out what its variant holds: the
/// items of an array in order, the entries of an object in the order in which
/// its map is walked. A map holds no key twice.
#[verifier::external_body]
fn open_value(value: serde_json::Value) -> (node: Node)
    ensures
        node.tree() == value_tree(value),
        node.tree() matches JsonTree::Object(entries) ==> distinct_keys(entries),
{
    match value {
        serde_json::Value::Null => Node::Null,
        serde_json::Value::Bool(flag) => Node::Bool(flag),
        serde_json::Value::Number(number) => Node::Number(match (number.as_u64(), number.as_i64()) {
            (Some(natural), _) => JsonNumber::Unsigned(natural),
            (None, Some(negative)) => JsonNumber::Signed(negative),
            (None, None) => JsonNumber::Float(number.as_f64().unwrap_or_default().to_bits()),
        }),
        serde_json::Value::String(text) => Node::String(text),
        serde_json::Value::Array(items) => Node::Array(items),
        serde_json::Value::Object(entries) => Node::Object(entries.into_iter().collect()),
    }
}

/// Reads a text with `serde_json::from_str`. What comes back, a document or
/// the text of the error, depends on the text alone.
#[verifier::external_body]
fn parse_value(text: &str) -> (result: Result<serde_json::Value, String>)
    ensures
        match result {
            Ok(value) => parsed_json(text@) == Ok::<JsonTree, Seq<char>>(value_tree(value)),
            Err(message) => parsed_json(text@) == Err::<JsonTree, Seq<char>>(message@),
        },
{
    serde_json::from_str::<serde_json::Value>(text).map_err(|error| error.to_string())
}

/// Writes a document with `serde_json::to_string_pretty`. The text depends on
/// what the document holds alone. It is written for every document: the keys
/// of a `serde_json::Value` are strings, and it is written to memory.
#[verifier::external_body]
fn write_value(value: &serde_json::Value) -> (result: Result<String, String>)
    ensures
        result is Ok,
        result->Ok_0@ == pretty_json_text(value_tree(*value)),
{
    serde_json::to_string_pretty(value).map_err(|error| error.to_string())
}

/// Takes a document over, level by level.
fn from_value(value: serde_json::Value) -> (document: JsonValue)
    ensures
        document@ == value_tree(value),
        well_formed(document@),
    decreases value_tree(value),
{
    match open_value(value) {
        Node::Null => JsonValue::Null,
        Node::Bool(flag) => JsonValue::Bool(flag),
        Node::Number(number) => JsonValue::Number(number),
        Node::String(text) => JsonValue::String(text),
        Node::Array(items) => {
            let ghost trees = Seq::new(items@.len(), |i: int| value_tree(items@[i]));
            let ghost values = items@;
            let mut list: Vec<JsonValue> = Vec::new();
            for item in it: items
                invariant
                    it.seq() == values,
                    value_tree(value) == JsonTree::Array(trees),
                    trees == Seq::new(values.len(), |i: int| value_tree(values[i])),
                    list@.len() == it.index(),
                    forall|j: int| 0 <= j < list@.len() ==> (#[trigger] list@[j])@ == trees[j],
                    forall|j: int| 0 <= j < list@.len() ==> well_formed((#[trigger] list@[j])@),
            {
                assert(value_tree(item) == trees[it.index() as int]);
                assert(decreases_to!(value_tree(value) => value_tree(value)->Array_0));
                assert(decreases_to!(trees => trees[it.index() as int]));
                list.push(from_value(item));
            }
            let document = JsonValue::Array(list);
            assert(document.tree()->Array_0 =~= trees);
            document
        },
        Node::Object(entries) => {
            let ghost trees = Seq::new(
                entries@.len(),
                |i: int| (entries@[i].0@, value_tree(entries@[i].1)),
            );
            let ghost values = entries@;
            let mut list: Vec<(String, JsonValue)> = Vec::new();
            for entry in it: entries
                invariant
                    it.seq() == values,
                    value_tree(value) == JsonTree::Object(trees),
                    trees == Seq::new(
                        values.len(),
                        |i: int| (values[i].0@, value_tree(values[i].1)),
                    ),
                    list@.len() == it.index(),
                    forall|j: int|
                        0 <= j < list@.len() ==> (#[trigger] list@[j]).0@ == trees[j].0
                            && list@[j].1@ == trees[j].1,
                    forall|j: int| 0 <= j < list@.len() ==> well_formed((#[trigger] list@[j]).1@),
            {
                assert((entry.0@, value_tree(entry.1)) == trees[it.index() as int]);
                assert(decreases_to!(value_tree(value) => value_tree(value)->Object_0));
                assert(decreases_to!(trees => trees[it.index() as int]));
                assert(decreases_to!(trees[it.index() as int] => trees[it.index() as int].1));
                list.push((entry.0, from_value(entry.1)));
            }
            let document = JsonValue::Object(list);
            assert(document.tree()->Object_0 =~= trees);
            document
        },
    }
}

/// Reads a JSON document from a text.
///
/// # Errors
///
/// Returns the parser's message where the text is no JSON document.
pub fn parse_json(text: &str) -> (result: Result<JsonValue, String>)
    ensures
        match result {
            Ok(document) => parsed_json(text@) == Ok::<JsonTree, Seq<char>>(document@)
                && well_formed(document@),
            Err(message) => parsed_json(text@) == Err::<JsonTree, Seq<char>>(message@),
        },
{
    match parse_value(text) {
        Ok(value) => Ok(from_value(value)),
        Err(message) => Err(message),
    }
}

/// A JSON text, laid out for reading.
pub open spec fn laid_out(text: Seq<char>) -> Result<Seq<char>, Seq<char>> {
    match parsed_json(text) {
        Ok(tree) => Ok(pretty_json_text(tree)),
        Err(message) => Err(message),
    }
}

/// Lays a JSON text out for reading.
///
/// # Errors
///
/// Returns the parser's message where the text is no JSON document.
pub fn lay_out_json(text: &str) -> (result: Result<String, String>)
    ensures
        match result {
            Ok(pretty) => laid_out(text@) == Ok::<Seq<char>, Seq<char>>(pretty@),
            Err(message) => laid_out(text@) == Err::<Seq<char>, Seq<char>>(message@),
        },
{
    match parse_value(text) {
        Ok(value) => write_value(&value),
        Err(message) => Err(message),
    }
}

impl JsonValue {
    /// The value under `key`, where the document is an object that has one.
    pub fn get(&self, key: &str) -> (value: Option<&JsonValue>)
        ensures
            match value {
                Some(v) => self@ matches JsonTree::Object(entries) && entry_of(entries, key@)
                    == Some(v@),
                None => self@ matches JsonTree::Object(entries) ==> entry_of(entries, key@)
                    is None,
            },
    {
        match self {
            JsonValue::Object(entries) => {
                let ghost trees = self.tree()->Object_0;
                assert(trees.skip(0) =~= trees);
                for i in 0..entries.len()
                    invariant
                        self@ == JsonTree::Object(trees),
                        *self == JsonValue::Object(*entries),
                        trees.len() == entries@.len(),
                        entry_of(trees, key@) == entry_of(trees.skip(i as int), key@),
                {
                    let entry = &entries[i];
                    assert(trees[i as int] == (entry.0@, entry.1@));
                    if same_text(entry.0.as_str(), key) {
                        return Some(&entry.1);
                    }
                    assert(trees.skip(i as int).skip(1) =~= trees.skip(i + 1));
                }
                None
            },
            _ => None,
        }
    }
}

/// A document that is a string.
pub fn json_string(text: &str) -> (value: JsonValue)
    ensures
        value@ == JsonTree::String(text@),
{
    JsonValue::String(text.to_owned())
}

/// In a well-formed object, the value found under a key is the only one that
/// stands there.
pub proof fn law_keys_are_unambiguous(entries: Seq<(Seq<char>, JsonTree)>, i: int)
    requires
        well_formed(JsonTree::Object(entries)),
        0 <= i < entries.len(),
    ensures
        entry_of(entries, entries[i].0) == Some(entries[i].1),
    decreases entries.len(),
{
    if i > 0 {
        let rest = entries.skip(1);
        assert(entries[0].0 != entries[i].0);
        assert(distinct_keys(rest));
        assert forall|j: int| 0 <= j < rest.len() implies well_formed((#[trigger] rest[j]).1) by {
            assert(rest[j] == entries[j + 1]);
        }
        law_keys_are_unambiguous(rest, i - 1);
    }
}

/// A key that no entry has names nothing.
pub proof fn law_absent_keys_name_nothing(entries: Seq<(Seq<char>, JsonTree)>, key: Seq<char>)
    requires
        forall|i: int| 0 <= i < entries.len() ==> (#[trigger] entries[i]).0 != key,
    ensures
        entry_of(entries, key) is None,
    decreases entries.len(),
{
    if entries.len() > 0 {
        assert(entries[0].0 != key);
        assert forall|i: int| 0 <= i < entries.len() - 1 implies (#[trigger] entries.skip(1)[i]).0
            != key by {
            assert(entries[i + 1].0 != key);
        }
        law_absent_keys_name_nothing(entries.skip(1), key);
    }
}

/// What is laid out is the document in the text; a text that is no document is
/// reported as the parser reports it.
pub proof fn law_layout_shows_the_document(text: Seq<char>)
    ensures
        parsed_json(text) matches Ok(tree) ==> laid_out(text) == Ok::<Seq<char>, Seq<char>>(
            pretty_json_text(tree),
        ),
        parsed_json(text) matches Err(message) ==> laid_out(text) == Err::<Seq<char>, Seq<char>>(
            message,
        ),
{
}

/// The model of a document has what the document has: the same leaves, the
/// items of an array and the entries of an object each in its place.
pub proof fn law_model_keeps_the_document(value: JsonValue)
    ensures
        value is Null ==> value@ is Null,
        value matches JsonValue::Bool(flag) ==> value@ == JsonTree::Bool(flag),
        value matches JsonValue::Number(number) ==> value@ == JsonTree::Number(number),
        value matches JsonValue::String(text) ==> value@ == JsonTree::String(text@),
        value matches JsonValue::Array(list) ==> {
            &&& value@ matches JsonTree::Array(items)
            &&& items.len() == list@.len()
            &&& forall|i: int| 0 <= i < items.len() ==> #[trigger] items[i] == list@[i]@
        },
        value matches JsonValue::Object(list) ==> {
            &&& value@ matches JsonTree::Object(entries)
            &&& entries.len() == list@.len()
            &&& forall|i: int|
                0 <= i < entries.len() ==> #[trigger] entries[i] == (list@[i].0@, list@[i].1@)
        },
{
}

} // verus!
