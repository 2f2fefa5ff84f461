//! JSON values, seen as the nodes that they hold.
//!
//! A `serde_json::Value` is a tree. Contracts speak of it as a map from the path
//! of each node to what stands there.

use vstd::prelude::*;
use vstd::string::*;

use crate::text;

verus! {

/// `serde_json::Value`, seen from outside: what it holds is given by `json_nodes`.
#[verifier::external_type_specification]
#[verifier::external_body]
pub struct ExValue(serde_json::Value);

/// One step down a JSON tree: to a member of an object, or an item of an array.
pub enum JsonStep {
    Key(Seq<char>),
    Index(nat),
}

/// What stands at one place of a JSON tree.
pub enum JsonNode {
    Null,
    Flag(bool),
    Integer(int),
    /// A number that is no integer of 64 bits, as it is written.
    OtherNumber(Seq<char>),
    Text(Seq<char>),
    /// An array, with its length.
    Array(nat),
    Object,
}

/// The nodes of a JSON tree, by their paths from the root.
pub type JsonNodes = Map<Seq<JsonStep>, JsonNode>;

/// The nodes of a JSON value.
pub uninterp spec fn json_nodes(value: serde_json::Value) -> JsonNodes;

/// What parsing a text as JSON gives: its nodes, or the parser's message.
pub uninterp spec fn json_document(text: Seq<char>) -> Result<JsonNodes, Seq<char>>;

/// A tree of one node.
pub open spec fn leaf(node: JsonNode) -> JsonNodes {
    map![Seq::<JsonStep>::empty() => node]
}

/// A JSON string.
pub open spec fn text_nodes(s: Seq<char>) -> JsonNodes {
    leaf(JsonNode::Text(s))
}

/// A JSON boolean.
pub open spec fn flag_nodes(b: bool) -> JsonNodes {
    leaf(JsonNode::Flag(b))
}

/// A JSON integer.
pub open spec fn integer_nodes(n: int) -> JsonNodes {
    leaf(JsonNode::Integer(n))
}

/// The JSON null.
pub open spec fn null_nodes() -> JsonNodes {
    leaf(JsonNode::Null)
}

/// A JSON string, or null where there is none.
pub open spec fn opt_text_nodes(s: Option<Seq<char>>) -> JsonNodes {
    match s {
        Some(s) => text_nodes(s),
        None => null_nodes(),
    }
}

/// The object with the given members.
pub open spec fn object_nodes(members: Map<Seq<char>, JsonNodes>) -> JsonNodes {
    Map::new(
        |p: Seq<JsonStep>|
            p.len() == 0 || (p[0] matches JsonStep::Key(k) && members.contains_key(k)
                && members[k].contains_key(p.drop_first())),
        |p: Seq<JsonStep>|
            if p.len() == 0 {
                JsonNode::Object
            } else {
                members[p[0]->Key_0][p.drop_first()]
            },
    )
}

/// The array with the given items.
pub open spec fn array_nodes(items: Seq<JsonNodes>) -> JsonNodes {
    Map::new(
        |p: Seq<JsonStep>|
            p.len() == 0 || (p[0] matches JsonStep::Index(i) && i < items.len()
                && items[i as int].contains_key(p.drop_first())),
        |p: Seq<JsonStep>|
            if p.len() == 0 {
                JsonNode::Array(items.len())
            } else {
                items[p[0]->Index_0 as int][p.drop_first()]
            },
    )
}

/// The array of the given strings.
pub open spec fn text_array_nodes(items: Seq<Seq<char>>) -> JsonNodes {
    array_nodes(items.map_values(|s: Seq<char>| text_nodes(s)))
}

/// The nodes of a list of JSON values.
pub open spec fn nodes_of(values: Seq<serde_json::Value>) -> Seq<JsonNodes> {
    values.map_values(|v: serde_json::Value| json_nodes(v))
}

/// The tree below one step of another.
pub open spec fn below(nodes: JsonNodes, step: JsonStep) -> JsonNodes {
    Map::new(
        |p: Seq<JsonStep>| nodes.contains_key(seq![step] + p),
        |p: Seq<JsonStep>| nodes[seq![step] + p],
    )
}

/// The member `key` of a tree, where it is an object that has one.
pub open spec fn member(nodes: JsonNodes, key: Seq<char>) -> Option<JsonNodes> {
    if nodes.contains_key(seq![JsonStep::Key(key)]) {
        Some(below(nodes, JsonStep::Key(key)))
    } else {
        None
    }
}

/// The text of a tree that is a JSON string.
pub open spec fn as_text(nodes: JsonNodes) -> Option<Seq<char>> {
    if nodes.contains_key(Seq::empty()) {
        match nodes[Seq::empty()] {
            JsonNode::Text(s) => Some(s),
            _ => None,
        }
    } else {
        None
    }
}

/// The text of the member `key`, where it is a JSON string.
pub open spec fn member_text(nodes: JsonNodes, key: Seq<char>) -> Option<Seq<char>> {
    match member(nodes, key) {
        Some(m) => as_text(m),
        None => None,
    }
}

/// The items of a tree that is a JSON array.
pub open spec fn as_items(nodes: JsonNodes) -> Option<Seq<JsonNodes>> {
    if nodes.contains_key(Seq::empty()) {
        match nodes[Seq::empty()] {
            JsonNode::Array(n) => Some(
                Seq::new(n, |i: int| below(nodes, JsonStep::Index(i as nat))),
            ),
            _ => None,
        }
    } else {
        None
    }
}

/// The value of a tree that is a JSON boolean.
pub open spec fn as_flag(nodes: JsonNodes) -> Option<bool> {
    if nodes.contains_key(Seq::empty()) {
        match nodes[Seq::empty()] {
            JsonNode::Flag(b) => Some(b),
            _ => None,
        }
    } else {
        None
    }
}

/// The value of a tree that is a JSON integer.
pub open spec fn as_integer(nodes: JsonNodes) -> Option<int> {
    if nodes.contains_key(Seq::empty()) {
        match nodes[Seq::empty()] {
            JsonNode::Integer(n) => Some(n),
            _ => None,
        }
    } else {
        None
    }
}

/// Whether a tree is the JSON null.
pub open spec fn is_null(nodes: JsonNodes) -> bool {
    nodes.contains_key(Seq::empty()) && nodes[Seq::empty()] == JsonNode::Null
}

/// The value of the member `key`, where it is a JSON boolean.
pub open spec fn member_flag(nodes: JsonNodes, key: Seq<char>) -> Option<bool> {
    match member(nodes, key) {
        Some(m) => as_flag(m),
        None => None,
    }
}

/// The value of the member `key`, where it is a JSON integer.
pub open spec fn member_integer(nodes: JsonNodes, key: Seq<char>) -> Option<int> {
    match member(nodes, key) {
        Some(m) => as_integer(m),
        None => None,
    }
}

/// The items of the member `key`, where it is a JSON array.
pub open spec fn member_items(nodes: JsonNodes, key: Seq<char>) -> Option<Seq<JsonNodes>> {
    match member(nodes, key) {
        Some(m) => as_items(m),
        None => None,
    }
}

/// Whether the member `key` is there and is null.
pub open spec fn member_null(nodes: JsonNodes, key: Seq<char>) -> bool {
    member(nodes, key) matches Some(m) && is_null(m)
}

/// Whether the member `key` is the given text where there is one, and null where there is none.
pub open spec fn member_is(nodes: JsonNodes, key: Seq<char>, value: Option<Seq<char>>) -> bool {
    match value {
        Some(s) => member_text(nodes, key) == Some(s),
        None => member_null(nodes, key),
    }
}

/// Whether a tree is an array of exactly the given texts.
pub open spec fn is_text_list(items: Option<Seq<JsonNodes>>, texts: Seq<Seq<char>>) -> bool {
    match items {
        Some(items) => items.len() == texts.len() && forall|i: int|
            0 <= i < texts.len() ==> as_text(#[trigger] items[i]) == Some(texts[i]),
        None => false,
    }
}

/// Whether a tree is an object with members under exactly the given keys.
pub open spec fn has_keys(nodes: JsonNodes, keys: Set<Seq<char>>) -> bool {
    &&& nodes.contains_key(Seq::empty()) && nodes[Seq::empty()] == JsonNode::Object
    &&& forall|key: Seq<char>| (#[trigger] member(nodes, key)) is Some <==> keys.contains(key)
}

/// A tree with another in the place of its member `key`.
pub open spec fn with_member(nodes: JsonNodes, key: Seq<char>, item: JsonNodes) -> JsonNodes {
    Map::new(
        |p: Seq<JsonStep>|
            if p.len() > 0 && p[0] == JsonStep::Key(key) {
                item.contains_key(p.drop_first())
            } else {
                nodes.contains_key(p)
            },
        |p: Seq<JsonStep>|
            if p.len() > 0 && p[0] == JsonStep::Key(key) {
                item[p.drop_first()]
            } else {
                nodes[p]
            },
    )
}

/// `serde_json::from_str` into a `Value`: the value that the text denotes, or the
/// parser's message. What a given text parses to is left to the parser.
#[verifier::external_body]
pub(crate) fn parse(text: &str) -> (r: Result<serde_json::Value, String>)
    ensures
        match r {
            Ok(value) => json_document(text@) == Ok::<JsonNodes, Seq<char>>(json_nodes(value)),
            Err(message) => json_document(text@) == Err::<JsonNodes, Seq<char>>(message@),
        },
{
    serde_json::from_str(text).map_err(|error: serde_json::Error| error.to_string())
}

/// `Value::get` with a text index: the member of an object under that key. A value
/// that is no object has none.
#[verifier::external_body]
pub(crate) fn get<'a>(value: &'a serde_json::Value, key: &str) -> (r: Option<&'a serde_json::Value>)
    ensures
        match r {
            Some(m) => member(json_nodes(*value), key@) == Some(json_nodes(*m)),
            None => member(json_nodes(*value), key@) is None,
        },
{
    value.get(key)
}

/// `Value::as_str`: the text of a JSON string; no other value has one.
#[verifier::external_body]
pub(crate) fn as_str<'a>(value: &'a serde_json::Value) -> (r: Option<&'a str>)
    ensures
        text::opt_str_view(r) == as_text(json_nodes(*value)),
{
    value.as_str()
}

/// `Value::as_array`: the items of a JSON array; no other value has any.
#[verifier::external_body]
pub(crate) fn as_array<'a>(value: &'a serde_json::Value) -> (r: Option<&'a Vec<serde_json::Value>>)
    ensures
        match r {
            Some(items) => as_items(json_nodes(*value)) == Some(nodes_of(items@)),
            None => as_items(json_nodes(*value)) is None,
        },
{
    value.as_array()
}

/// `Value::clone`: a value with the same nodes.
#[verifier::external_body]
pub(crate) fn copy_of(value: &serde_json::Value) -> (r: serde_json::Value)
    ensures
        json_nodes(r) == json_nodes(*value),
{
    value.clone()
}

/// `Value::from(&str)`: the JSON string of that text.
#[verifier::external_body]
pub(crate) fn string(s: &str) -> (r: serde_json::Value)
    ensures
        json_nodes(r) == text_nodes(s@),
{
    serde_json::Value::from(s)
}

/// `Value::from(bool)`: the JSON boolean.
#[verifier::external_body]
pub(crate) fn flag(b: bool) -> (r: serde_json::Value)
    ensures
        json_nodes(r) == flag_nodes(b),
{
    serde_json::Value::from(b)
}

/// `Value::from(u64)`: the JSON integer.
#[verifier::external_body]
pub(crate) fn unsigned(n: u64) -> (r: serde_json::Value)
    ensures
        json_nodes(r) == integer_nodes(n as int),
{
    serde_json::Value::from(n)
}

/// `Value::from(i64)`: the JSON integer.
#[verifier::external_body]
pub(crate) fn signed(n: i64) -> (r: serde_json::Value)
    ensures
        json_nodes(r) == integer_nodes(n as int),
{
    serde_json::Value::from(n)
}

/// `Value::Null`: the JSON null.
#[verifier::external_body]
pub(crate) fn null() -> (r: serde_json::Value)
    ensures
        json_nodes(r) == null_nodes(),
{
    serde_json::Value::Null
}

/// `Value::from(Vec<Value>)`: the JSON array of the items, in order.
#[verifier::external_body]
pub(crate) fn array(items: Vec<serde_json::Value>) -> (r: serde_json::Value)
    ensures
        json_nodes(r) == array_nodes(nodes_of(items@)),
{
    serde_json::Value::from(items)
}

/// `Value::Object` of an empty `Map`: the JSON object without members.
#[verifier::external_body]
pub(crate) fn empty_object() -> (r: serde_json::Value)
    ensures
        json_nodes(r) == object_nodes(Map::empty()),
{
    serde_json::Value::Object(serde_json::Map::new())
}

/// Assignment through `Value`'s index operator with a text index: the member of
/// an object under that key becomes `item`, whether or not it had one.
#[verifier::external_body]
pub(crate) fn set_member(value: &mut serde_json::Value, key: &str, item: serde_json::Value)
    requires
        json_nodes(*old(value)).contains_key(Seq::empty()),
        json_nodes(*old(value))[Seq::empty()] == JsonNode::Object,
    ensures
        json_nodes(*final(value)) == with_member(json_nodes(*old(value)), key@, json_nodes(item)),
{
    value[key] = item;
}

/// Setting a member of an object gives the object with that member.
pub proof fn lemma_with_member(members: Map<Seq<char>, JsonNodes>, key: Seq<char>, item: JsonNodes)
    ensures
        with_member(object_nodes(members), key, item) == object_nodes(members.insert(key, item)),
{
    assert(with_member(object_nodes(members), key, item) =~= object_nodes(
        members.insert(key, item),
    ));
}

/// A JSON object in the making.
pub struct JsonObject {
    value: serde_json::Value,
    members: Ghost<Map<Seq<char>, JsonNodes>>,
}

impl JsonObject {
    /// The members so far.
    pub closed spec fn members(&self) -> Map<Seq<char>, JsonNodes> {
        self.members@
    }

    #[verifier::type_invariant]
    closed spec fn holds_members(&self) -> bool {
        json_nodes(self.value) == object_nodes(self.members@)
    }

    /// The object without members.
    pub fn new() -> (r: JsonObject)
        ensures
            r.members() == Map::<Seq<char>, JsonNodes>::empty(),
    {
        JsonObject { value: empty_object(), members: Ghost(Map::empty()) }
    }

    /// The object with `item` as its member `key`.
    pub fn with(self, key: &str, item: serde_json::Value) -> (r: JsonObject)
        ensures
            r.members() == self.members().insert(key@, json_nodes(item)),
    {
        proof {
            use_type_invariant(&self);
            lemma_with_member(self.members@, key@, json_nodes(item));
        }
        let ghost members = self.members@.insert(key@, json_nodes(item));
        let mut value = self.value;
        set_member(&mut value, key, item);
        JsonObject { value, members: Ghost(members) }
    }

    /// The finished object.
    pub fn finish(self) -> (r: serde_json::Value)
        ensures
            json_nodes(r) == object_nodes(self.members()),
    {
        proof {
            use_type_invariant(&self);
        }
        self.value
    }
}

/// The member `key` of `value`, where it is a JSON string.
pub fn text_member<'a>(value: &'a serde_json::Value, key: &str) -> (r: Option<&'a str>)
    ensures
        text::opt_str_view(r) == member_text(json_nodes(*value), key@),
{
    match get(value, key) {
        Some(m) => as_str(m),
        None => None,
    }
}

/// A JSON string, or null where there is none.
pub fn optional_string(s: &Option<String>) -> (r: serde_json::Value)
    ensures
        json_nodes(r) == opt_text_nodes(text::opt_view(*s)),
{
    match s {
        Some(s) => string(s.as_str()),
        None => null(),
    }
}

/// The JSON array of the given texts.
pub fn text_array(items: &Vec<&str>) -> (r: serde_json::Value)
    ensures
        json_nodes(r) == text_array_nodes(text::slice_views(items@)),
{
    let mut values: Vec<serde_json::Value> = Vec::new();
    let mut i: usize = 0;
    while i < items.len()
        invariant
            i <= items.len(),
            values@.len() == i,
            forall|j: int| 0 <= j < i ==> json_nodes(#[trigger] values@[j]) == text_nodes(items@[j]@),
        decreases items.len() - i,
    {
        values.push(string(items[i]));
        i += 1;
    }
    assert(nodes_of(values@) =~= text::slice_views(items@).map_values(
        |s: Seq<char>| text_nodes(s),
    ));
    array(values)
}

/// The JSON array of the given strings.
pub fn string_array(items: &Vec<String>) -> (r: serde_json::Value)
    ensures
        json_nodes(r) == text_array_nodes(text::views(items@)),
{
    let mut values: Vec<serde_json::Value> = Vec::new();
    let mut i: usize = 0;
    while i < items.len()
        invariant
            i <= items.len(),
            values@.len() == i,
            forall|j: int| 0 <= j < i ==> json_nodes(#[trigger] values@[j]) == text_nodes(items@[j]@),
        decreases items.len() - i,
    {
        values.push(string(items[i].as_str()));
        i += 1;
    }
    assert(nodes_of(values@) =~= text::views(items@).map_values(|s: Seq<char>| text_nodes(s)));
    array(values)
}

/// What an object holds under a key is what its member there is.
pub proof fn lemma_object_member(members: Map<Seq<char>, JsonNodes>, key: Seq<char>)
    requires
        members.contains_key(key) ==> members[key].contains_key(Seq::empty()),
    ensures
        member(object_nodes(members), key) == if members.contains_key(key) {
            Some(members[key])
        } else {
            None
        },
{
    let nodes = object_nodes(members);
    let step = JsonStep::Key(key);
    assert(seq![step].drop_first() =~= Seq::empty());
    assert(nodes.contains_key(seq![step]) <==> members.contains_key(key)
        && members[key].contains_key(seq![step].drop_first()));
    if members.contains_key(key) {
        assert forall|p: Seq<JsonStep>| #[trigger]
            below(nodes, step).contains_key(p) <==> members[key].contains_key(p) by {
            assert((seq![step] + p).drop_first() =~= p);
        }
        assert forall|p: Seq<JsonStep>| #[trigger] below(nodes, step).contains_key(p) implies below(
            nodes,
            step,
        )[p] == members[key][p] by {
            assert((seq![step] + p).drop_first() =~= p);
        }
        assert(below(nodes, step) =~= members[key]);
    }
}

/// A tree has a root.
pub open spec fn has_root(nodes: JsonNodes) -> bool {
    nodes.contains_key(Seq::empty())
}

/// The members of an object can be read back, and there are no others.
pub proof fn lemma_object_reads(members: Map<Seq<char>, JsonNodes>)
    requires
        forall|key: Seq<char>| #[trigger] members.contains_key(key) ==> has_root(members[key]),
    ensures
        has_keys(object_nodes(members), members.dom()),
        forall|key: Seq<char>| #[trigger]
            member(object_nodes(members), key) == if members.contains_key(key) {
                Some(members[key])
            } else {
                None
            },
{
    assert forall|key: Seq<char>| #[trigger] member(object_nodes(members), key) == (
    if members.contains_key(key) {
        Some(members[key])
    } else {
        None
    }) by {
        lemma_object_member(members, key);
    }
}

/// The items of an array can be read back.
pub proof fn lemma_array_reads(items: Seq<JsonNodes>)
    ensures
        has_root(array_nodes(items)),
        as_items(array_nodes(items)) == Some(items),
{
    let nodes = array_nodes(items);
    let read = as_items(nodes)->0;
    assert(read.len() == items.len());
    assert forall|i: int| 0 <= i < items.len() implies #[trigger] read[i] == items[i] by {
        let step = JsonStep::Index(i as nat);
        assert forall|p: Seq<JsonStep>| #[trigger]
            below(nodes, step).contains_key(p) <==> items[i].contains_key(p) by {
            assert((seq![step] + p).drop_first() =~= p);
        }
        assert forall|p: Seq<JsonStep>| #[trigger] below(nodes, step).contains_key(p) implies below(
            nodes,
            step,
        )[p] == items[i][p] by {
            assert((seq![step] + p).drop_first() =~= p);
        }
        assert(below(nodes, step) =~= items[i]);
    }
    assert(read =~= items);
}

/// The texts of an array of texts can be read back.
pub proof fn lemma_text_array_reads(texts: Seq<Seq<char>>)
    ensures
        has_root(text_array_nodes(texts)),
        is_text_list(as_items(text_array_nodes(texts)), texts),
{
    lemma_array_reads(texts.map_values(|s: Seq<char>| text_nodes(s)));
}

/// A text that may be missing is read back as such.
pub proof fn law_optional_texts_read_back(s: Option<Seq<char>>)
    ensures
        s matches Some(t) ==> as_text(opt_text_nodes(s)) == Some(t),
        s is None ==> is_null(opt_text_nodes(s)),
{
}

} // verus!
