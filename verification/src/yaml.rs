//! Documents as YAML values: what `serde_yaml` reads from a text and
//! writes for a value, and the values level by level.

use crate::document::{
    entry_views, lemma_list_view, lemma_table_view, node_views, Entry, EntryView, Node, NodeView,
};
use crate::text::decimal;
use vstd::prelude::*;

verus! {

/// The value type of `serde_yaml`.
#[verifier::external_type_specification]
#[verifier::external_body]
pub struct ExValue(serde_yaml::Value);

/// The error type of `serde_yaml`.
#[verifier::external_type_specification]
#[verifier::external_body]
pub struct ExYamlError(serde_yaml::Error);

/// What a value of `serde_yaml` holds: its kind, and below a sequence, a
/// mapping or a tag what the values there hold, in their order. A number
/// counts by the text that it is shown as, a tag likewise.
pub uninterp spec fn content(value: serde_yaml::Value) -> NodeView;

/// What `serde_yaml::from_slice` reads from a text: what the value holds
/// that it returns, or nothing where it returns an error.
pub uninterp spec fn yaml_document(text: Seq<u8>) -> Option<NodeView>;

/// What `serde_yaml::to_string` writes for a value that holds `content`, or
/// nothing where it returns an error.
pub uninterp spec fn yaml_text(content: NodeView) -> Option<Seq<char>>;

/// One level of a value: its kind and what it holds, with the values below
/// it as they are.
pub enum Opened<'a> {
    Null,
    Bool(bool),
    Number(String),
    Text(&'a str),
    List(Vec<&'a serde_yaml::Value>),
    Table(Vec<(&'a serde_yaml::Value, &'a serde_yaml::Value)>),
    Tagged(String, &'a serde_yaml::Value),
}

/// What a list of values holds.
pub open spec fn contents(values: Seq<&serde_yaml::Value>) -> Seq<NodeView> {
    Seq::new(values.len(), |i: int| content(*values[i]))
}

/// What a list of keys with their values holds.
pub open spec fn entry_contents(
    entries: Seq<(&serde_yaml::Value, &serde_yaml::Value)>,
) -> Seq<EntryView> {
    Seq::new(
        entries.len(),
        |i: int| EntryView { key: content(*entries[i].0), value: content(*entries[i].1) },
    )
}

/// What a level holds, given what the values below it hold.
pub open spec fn opened_content(level: Opened<'_>) -> NodeView {
    match level {
        Opened::Null => NodeView::Null,
        Opened::Bool(b) => NodeView::Bool(b),
        Opened::Number(t) => NodeView::Number(t@),
        Opened::Text(t) => NodeView::Text(t@),
        Opened::List(items) => NodeView::List(contents(items@)),
        Opened::Table(entries) => NodeView::Table(entry_contents(entries@)),
        Opened::Tagged(t, inner) => NodeView::Tagged(t@, Box::new(content(*inner))),
    }
}

/// Tells the variants of `serde_yaml::Value` apart and hands out what the
/// value holds at its top: a truth value, the text that a number or a tag
/// is shown as, a string, or the values of a sequence, a mapping or a tag,
/// in their order. The contract says that this is what `content` names.
#[verifier::external_body]
pub(crate) fn open<'a>(value: &'a serde_yaml::Value) -> (r: Opened<'a>)
    ensures
        opened_content(r) == content(*value),
{
    match value {
        serde_yaml::Value::Null => Opened::Null,
        serde_yaml::Value::Bool(b) => Opened::Bool(*b),
        serde_yaml::Value::Number(n) => Opened::Number(n.to_string()),
        serde_yaml::Value::String(s) => Opened::Text(s.as_str()),
        serde_yaml::Value::Sequence(items) => Opened::List(items.iter().collect()),
        serde_yaml::Value::Mapping(entries) => Opened::Table(entries.iter().collect()),
        serde_yaml::Value::Tagged(t) => Opened::Tagged(t.tag.to_string(), &t.value),
    }
}

/// What a value is made of: its kind and what it holds, with the values
/// below it made already.
pub enum Parts {
    Null,
    Bool(bool),
    Number(u64),
    Text(String),
    List(Vec<serde_yaml::Value>),
    Table(Vec<(serde_yaml::Value, serde_yaml::Value)>),
}

/// What a list of made values holds.
pub open spec fn made_contents(values: Seq<serde_yaml::Value>) -> Seq<NodeView> {
    Seq::new(values.len(), |i: int| content(values[i]))
}

/// What a list of made keys with their values holds.
pub open spec fn made_entries(entries: Seq<(serde_yaml::Value, serde_yaml::Value)>) -> Seq<
    EntryView,
> {
    Seq::new(
        entries.len(),
        |i: int| EntryView { key: content(entries[i].0), value: content(entries[i].1) },
    )
}

/// No two entries have keys that hold the same.
pub open spec fn distinct_keys(entries: Seq<EntryView>) -> bool {
    forall|i: int, j: int|
        0 <= i < j < entries.len() ==> (#[trigger] entries[i]).key != (#[trigger] entries[j]).key
}

/// Every key is a string.
pub open spec fn text_keys(entries: Seq<EntryView>) -> bool {
    forall|i: int| 0 <= i < entries.len() ==> (#[trigger] entries[i]).key is Text
}

/// What the value made of `parts` holds.
pub open spec fn parts_content(parts: Parts) -> NodeView {
    match parts {
        Parts::Null => NodeView::Null,
        Parts::Bool(b) => NodeView::Bool(b),
        Parts::Number(n) => NodeView::Number(decimal(n as nat)),
        Parts::Text(t) => NodeView::Text(t@),
        Parts::List(items) => NodeView::List(made_contents(items@)),
        Parts::Table(entries) => NodeView::Table(made_entries(entries@)),
    }
}

/// Makes a `serde_yaml::Value` of its parts, one variant for each kind; a
/// mapping is collected from its entries in their order. The contract says
/// that the value holds the parts: a whole number is shown in decimal, and
/// a mapping keeps every entry at its place. A mapping merges keys that are
/// equal, and keys of other kinds can be equal though they hold different
/// things (two mappings in another order, zero with either sign), so the
/// keys of a mapping must be strings, each of them another.
#[verifier::external_body]
pub(crate) fn make(parts: Parts) -> (r: serde_yaml::Value)
    requires
        parts matches Parts::Table(entries) ==> text_keys(made_entries(entries@))
            && distinct_keys(made_entries(entries@)),
    ensures
        content(r) == parts_content(parts),
{
    match parts {
        Parts::Null => serde_yaml::Value::Null,
        Parts::Bool(b) => serde_yaml::Value::Bool(b),
        Parts::Number(n) => serde_yaml::Value::Number(n.into()),
        Parts::Text(t) => serde_yaml::Value::String(t),
        Parts::List(items) => serde_yaml::Value::Sequence(items),
        Parts::Table(entries) => serde_yaml::Value::Mapping(entries.into_iter().collect()),
    }
}

/// Calls `serde_yaml::from_slice` for a value. The result is taken to
/// depend on the text alone: `yaml_document` names what the value holds.
#[verifier::external_body]
pub(crate) fn parse_value(text: &[u8]) -> (r: Result<serde_yaml::Value, serde_yaml::Error>)
    ensures
        r is Ok == yaml_document(text@) is Some,
        r is Ok ==> content(r->Ok_0) == yaml_document(text@)->0,
{
    serde_yaml::from_slice(text)
}

/// Calls `serde_yaml::to_string` on a value. The result is taken to depend
/// on what the value holds alone: `yaml_text` names it.
#[verifier::external_body]
pub(crate) fn write_value(value: &serde_yaml::Value) -> (r: Result<String, serde_yaml::Error>)
    ensures
        r is Ok == yaml_text(content(*value)) is Some,
        r is Ok ==> r->Ok_0@ == yaml_text(content(*value))->0,
{
    serde_yaml::to_string(value)
}

/// Shows an error of `serde_yaml` as text. Nothing is claimed of the text.
#[verifier::external_body]
pub(crate) fn error_text(error: &serde_yaml::Error) -> (r: String) {
    error.to_string()
}

/// A value as a tree of the library's own nodes.
pub fn node_of(value: &serde_yaml::Value) -> (r: Node)
    ensures
        r@ == content(*value),
    decreases content(*value),
{
    match open(value) {
        Opened::Null => Node::Null,
        Opened::Bool(b) => Node::Bool(b),
        Opened::Number(t) => Node::Number(t),
        Opened::Text(t) => Node::Text(String::from_str(t)),
        Opened::List(items) => {
            let ghost all = contents(items@);
            let mut nodes: Vec<Node> = Vec::new();
            let mut i: usize = 0;
            while i < items.len()
                invariant
                    i <= items@.len(),
                    nodes@.len() == i,
                    all == contents(items@),
                    content(*value) == NodeView::List(all),
                    forall|j: int| 0 <= j < i ==> (#[trigger] nodes@[j])@ == all[j],
                decreases items@.len() - i,
            {
                assert(all[i as int] == content(*items@[i as int]));
                proof {
                    let c = content(*value);
                    assert(decreases_to!(c => c->List_0));
                    assert(decreases_to!(c->List_0 => c->List_0[i as int]));
                }
                nodes.push(node_of(items[i]));
                i += 1;
            }
            let r = Node::List(nodes);
            proof {
                lemma_list_view(r);
                assert(node_views(nodes@) =~= all);
            }
            r
        },
        Opened::Table(pairs) => {
            let ghost all = entry_contents(pairs@);
            let mut entries: Vec<Entry> = Vec::new();
            let mut i: usize = 0;
            while i < pairs.len()
                invariant
                    i <= pairs@.len(),
                    entries@.len() == i,
                    all == entry_contents(pairs@),
                    content(*value) == NodeView::Table(all),
                    forall|j: int| 0 <= j < i ==> (#[trigger] entries@[j])@ == all[j],
                decreases pairs@.len() - i,
            {
                assert(all[i as int].key == content(*pairs@[i as int].0));
                assert(all[i as int].value == content(*pairs@[i as int].1));
                proof {
                    let c = content(*value);
                    assert(decreases_to!(c => c->Table_0));
                    assert(decreases_to!(c->Table_0 => c->Table_0[i as int]));
                    assert(decreases_to!(c->Table_0[i as int] => c->Table_0[i as int].key));
                    assert(decreases_to!(c->Table_0[i as int] => c->Table_0[i as int].value));
                }
                let key = node_of(pairs[i].0);
                let value = node_of(pairs[i].1);
                entries.push(Entry { key, value });
                i += 1;
            }
            let r = Node::Table(entries);
            proof {
                lemma_table_view(r);
                assert(entry_views(entries@) =~= all);
            }
            r
        },
        Opened::Tagged(tag, inner) => {
            proof {
                let c = content(*value);
                assert(c == NodeView::Tagged(tag@, Box::new(content(*inner))));
                assert(decreases_to!(c => c->Tagged_1));
            }
            Node::Tagged(tag, Box::new(node_of(inner)))
        },
    }
}

} // verus!
