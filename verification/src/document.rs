//! Policy documents as trees: what a structured text holds once it has been
//! read, and the strict schema by which a tree is taken for a policy. A
//! mapping that holds a key which the schema does not declare for it makes
//! the whole document fail.

use crate::module::ValType;
use crate::number::{parse_u32, u32_of};
use crate::policy::{
    Check, CheckView, Complexity, Exports, ExportsView, FunctionItem, FunctionItemView,
    ImportItem, ImportItemView, Imports, ImportsView, Namespace, NamespaceItem,
    NamespaceItemView, NamespaceView, Size, SizeView, Validation, ValidationView,
};
use crate::risk::RiskLevel;
use crate::text::same_text;
use vstd::prelude::*;
use vstd::string::*;

verus! {

/// One node of a document.
#[derive(Debug, PartialEq, Eq)]
pub enum Node {
    /// Nothing: an empty value.
    Null,
    /// A truth value.
    Bool(bool),
    /// A number, as it is written.
    Number(String),
    /// A string.
    Text(String),
    /// A sequence of nodes.
    List(Vec<Node>),
    /// A mapping, as the list of its entries in their order.
    Table(Vec<Entry>),
    /// A value with a tag in front.
    Tagged(String, Box<Node>),
}

/// One entry of a mapping.
#[derive(Debug, PartialEq, Eq)]
pub struct Entry {
    pub key: Node,
    pub value: Node,
}

/// A `Node` as contracts speak of it.
pub enum NodeView {
    Null,
    Bool(bool),
    Number(Seq<char>),
    Text(Seq<char>),
    List(Seq<NodeView>),
    Table(Seq<EntryView>),
    Tagged(Seq<char>, Box<NodeView>),
}

/// An `Entry` as contracts speak of it.
pub struct EntryView {
    pub key: NodeView,
    pub value: NodeView,
}

impl View for Node {
    type V = NodeView;

    open spec fn view(&self) -> NodeView
        decreases self,
    {
        match self {
            Node::Null => NodeView::Null,
            Node::Bool(b) => NodeView::Bool(*b),
            Node::Number(t) => NodeView::Number(t@),
            Node::Text(t) => NodeView::Text(t@),
            Node::List(items) => NodeView::List(
                Seq::new(
                    items@.len(),
                    |i: int|
                        if 0 <= i < items@.len() {
                            items@[i]@
                        } else {
                            NodeView::Null
                        },
                ),
            ),
            Node::Table(entries) => NodeView::Table(
                Seq::new(
                    entries@.len(),
                    |i: int|
                        if 0 <= i < entries@.len() {
                            EntryView { key: entries@[i].key@, value: entries@[i].value@ }
                        } else {
                            EntryView { key: NodeView::Null, value: NodeView::Null }
                        },
                ),
            ),
            Node::Tagged(t, inner) => NodeView::Tagged(t@, Box::new((**inner).view())),
        }
    }
}

impl View for Entry {
    type V = EntryView;

    open spec fn view(&self) -> EntryView {
        EntryView { key: self.key@, value: self.value@ }
    }
}

/// Why a tree is no policy.
#[derive(Clone, Copy, Debug, PartialEq, Eq, Structural)]
pub enum SchemaError {
    /// A mapping holds a key that the schema does not declare for it.
    UnknownField,
    /// A mapping holds a key twice.
    DuplicateField,
    /// A mapping lacks a key that the schema asks for.
    MissingField,
    /// A value is of another kind than the schema asks for.
    WrongKind,
    /// A name names none of the variants that the schema knows.
    UnknownVariant,
    /// A number is no whole number from 0 to 4294967295.
    BadNumber,
}

/// The mappings of the schema.
#[derive(Clone, Copy, Debug, PartialEq, Eq, Structural)]
pub enum Group {
    Validation,
    Check,
    Imports,
    Namespace,
    Exports,
    Size,
    Complexity,
    ImportItem,
    FunctionItem,
    NamespaceItem,
}

/// The keys that the schema declares for each of its mappings.
pub open spec fn declared(group: Group, key: Seq<char>) -> bool {
    match group {
        Group::Validation => key == "validate"@,
        Group::Check => key == "url"@ || key == "allow_wasi"@ || key == "imports"@ || key
            == "exports"@ || key == "size"@ || key == "complexity"@,
        Group::Imports => key == "include"@ || key == "exclude"@ || key == "namespace"@,
        Group::Namespace => key == "include"@ || key == "exclude"@,
        Group::Exports => key == "include"@ || key == "exclude"@ || key == "max"@,
        Group::Size => key == "max"@,
        Group::Complexity => key == "max_risk"@ || key == "max_score"@,
        Group::ImportItem => key == "namespace"@ || key == "name"@ || key == "params"@ || key
            == "results"@,
        Group::FunctionItem => key == "name"@ || key == "params"@ || key == "results"@,
        Group::NamespaceItem => key == "name"@ || key == "functions"@,
    }
}

/// Whether the schema declares a key for a mapping.
pub fn declares(group: Group, key: &str) -> (r: bool)
    ensures
        r == declared(group, key@),
{
    match group {
        Group::Validation => same_text(key, "validate"),
        Group::Check => same_text(key, "url") || same_text(key, "allow_wasi") || same_text(
            key,
            "imports",
        ) || same_text(key, "exports") || same_text(key, "size") || same_text(key, "complexity"),
        Group::Imports => same_text(key, "include") || same_text(key, "exclude") || same_text(
            key,
            "namespace",
        ),
        Group::Namespace => same_text(key, "include") || same_text(key, "exclude"),
        Group::Exports => same_text(key, "include") || same_text(key, "exclude") || same_text(
            key,
            "max",
        ),
        Group::Size => same_text(key, "max"),
        Group::Complexity => same_text(key, "max_risk") || same_text(key, "max_score"),
        Group::ImportItem => same_text(key, "namespace") || same_text(key, "name") || same_text(
            key,
            "params",
        ) || same_text(key, "results"),
        Group::FunctionItem => same_text(key, "name") || same_text(key, "params") || same_text(
            key,
            "results",
        ),
        Group::NamespaceItem => same_text(key, "name") || same_text(key, "functions"),
    }
}

/// The key of an entry, where it is a string.
pub open spec fn key_of(entry: EntryView) -> Option<Seq<char>> {
    match entry.key {
        NodeView::Text(t) => Some(t),
        _ => None,
    }
}

/// Whether one of the first `i` entries has the key `key`.
pub open spec fn seen_before(entries: Seq<EntryView>, i: int, key: Seq<char>) -> bool {
    exists|j: int| 0 <= j < i && j < entries.len() && key_of(#[trigger] entries[j]) == Some(key)
}

/// What is wrong with the key of entry `i`, if anything: it is no string
/// or not declared for the mapping, or an entry before it has it already.
pub open spec fn key_fault(entries: Seq<EntryView>, i: int, group: Group) -> Option<SchemaError> {
    match key_of(entries[i]) {
        None => Some(SchemaError::UnknownField),
        Some(key) => if !declared(group, key) {
            Some(SchemaError::UnknownField)
        } else if seen_before(entries, i, key) {
            Some(SchemaError::DuplicateField)
        } else {
            None
        },
    }
}

/// What is wrong with the keys of the first `n` entries of a mapping, if
/// anything: the fault of the first entry that has one.
pub open spec fn keys_fault(entries: Seq<EntryView>, n: int, group: Group) -> Option<SchemaError>
    decreases n,
{
    if n <= 0 {
        None
    } else {
        match keys_fault(entries, n - 1, group) {
            Some(e) => Some(e),
            None => key_fault(entries, n - 1, group),
        }
    }
}

/// The value that stands at `name` in a mapping: that of the first entry
/// with this key.
pub open spec fn field(entries: Seq<EntryView>, name: Seq<char>) -> Option<NodeView>
    decreases entries.len(),
{
    if entries.len() == 0 {
        None
    } else if key_of(entries[0]) == Some(name) {
        Some(entries[0].value)
    } else {
        field(entries.drop_first(), name)
    }
}

/// The value of a key that a mapping may lack: none where the key is
/// missing, and none where nothing stands at it.
pub open spec fn optional_field(entries: Seq<EntryView>, name: Seq<char>) -> Option<NodeView> {
    match field(entries, name) {
        Some(NodeView::Null) => None,
        other => other,
    }
}

/// The views of a list of nodes.
pub open spec fn node_views(nodes: Seq<Node>) -> Seq<NodeView> {
    Seq::new(nodes.len(), |i: int| nodes[i]@)
}

/// The views of a list of entries.
pub open spec fn entry_views(entries: Seq<Entry>) -> Seq<EntryView> {
    Seq::new(entries.len(), |i: int| entries[i]@)
}

pub(crate) proof fn lemma_list_view(node: Node)
    requires
        node is List,
    ensures
        node@ == NodeView::List(node_views(node->List_0@)),
{
    assert(node@->List_0 =~= node_views(node->List_0@));
}

pub(crate) proof fn lemma_table_view(node: Node)
    requires
        node is Table,
    ensures
        node@ == NodeView::Table(entry_views(node->Table_0@)),
{
    assert(node@->Table_0 =~= entry_views(node->Table_0@));
}

/// A fault among the keys of the first entries is the fault of the mapping.
pub proof fn lemma_keys_fault_stays(entries: Seq<EntryView>, k: int, n: int, group: Group)
    requires
        0 <= k <= n,
        keys_fault(entries, k, group) is Some,
    ensures
        keys_fault(entries, n, group) == keys_fault(entries, k, group),
    decreases n - k,
{
    if k < n {
        lemma_keys_fault_stays(entries, k, n - 1, group);
    }
}

fn check_keys(entries: &Vec<Entry>, group: Group) -> (r: Result<(), SchemaError>)
    ensures
        match keys_fault(entry_views(entries@), entries@.len() as int, group) {
            Some(e) => r == Err::<(), SchemaError>(e),
            None => r is Ok,
        },
{
    let ghost views = entry_views(entries@);
    let mut i: usize = 0;
    while i < entries.len()
        invariant
            i <= entries@.len(),
            views == entry_views(entries@),
            keys_fault(views, i as int, group) is None,
        decreases entries@.len() - i,
    {
        assert(views[i as int] == entries@[i as int]@);
        match &entries[i].key {
            Node::Text(key) => {
                if !declares(group, key.as_str()) {
                    proof {
                        assert(keys_fault(views, i + 1, group) == Some(SchemaError::UnknownField));
                        lemma_keys_fault_stays(views, i + 1, entries@.len() as int, group);
                    }
                    return Err(SchemaError::UnknownField);
                }
                let mut j: usize = 0;
                while j < i
                    invariant
                        j <= i,
                        i < entries@.len(),
                        views == entry_views(entries@),
                        forall|k: int| 0 <= k < j ==> key_of(#[trigger] views[k]) != Some(key@),
                        keys_fault(views, i as int, group) is None,
                        key_of(views[i as int]) == Some(key@),
                        declared(group, key@),
                    decreases i - j,
                {
                    assert(views[j as int] == entries@[j as int]@);
                    if let Node::Text(other) = &entries[j].key {
                        if same_text(other.as_str(), key.as_str()) {
                            assert(key_of(views[j as int]) == Some(key@));
                            assert(seen_before(views, i as int, key@));
                            proof {
                                assert(keys_fault(views, i + 1, group) == Some(
                                    SchemaError::DuplicateField,
                                ));
                                lemma_keys_fault_stays(views, i + 1, entries@.len() as int, group);
                            }
                            return Err(SchemaError::DuplicateField);
                        }
                    }
                    j += 1;
                }
                assert(!seen_before(views, i as int, key@));
            },
            _ => {
                proof {
                    assert(keys_fault(views, i + 1, group) == Some(SchemaError::UnknownField));
                    lemma_keys_fault_stays(views, i + 1, entries@.len() as int, group);
                }
                return Err(SchemaError::UnknownField);
            },
        }
        i += 1;
    }
    Ok(())
}

fn get_field<'a>(entries: &'a Vec<Entry>, name: &str) -> (r: Option<&'a Node>)
    ensures
        r is Some == field(entry_views(entries@), name@) is Some,
        r is Some ==> r->0@ == field(entry_views(entries@), name@)->0,
{
    let ghost views = entry_views(entries@);
    let mut i: usize = 0;
    assert(views.skip(0) =~= views);
    while i < entries.len()
        invariant
            i <= entries@.len(),
            views == entry_views(entries@),
            field(views, name@) == field(views.skip(i as int), name@),
        decreases entries@.len() - i,
    {
        let ghost rest = views.skip(i as int);
        assert(rest[0] == entries@[i as int]@);
        assert(rest.drop_first() =~= views.skip(i + 1));
        if let Node::Text(key) = &entries[i].key {
            if same_text(key.as_str(), name) {
                return Some(&entries[i].value);
            }
        }
        i += 1;
    }
    assert(views.skip(i as int).len() == 0);
    None
}

fn get_optional<'a>(entries: &'a Vec<Entry>, name: &str) -> (r: Option<&'a Node>)
    ensures
        r is Some == optional_field(entry_views(entries@), name@) is Some,
        r is Some ==> r->0@ == optional_field(entry_views(entries@), name@)->0,
{
    match get_field(entries, name) {
        Some(Node::Null) => None,
        other => other,
    }
}

/// A string.
pub open spec fn text_value(node: NodeView) -> Result<Seq<char>, SchemaError> {
    match node {
        NodeView::Text(t) => Ok(t),
        _ => Err(SchemaError::WrongKind),
    }
}

/// A size: a string, or a number as it is written.
pub open spec fn size_value(node: NodeView) -> Result<Seq<char>, SchemaError> {
    match node {
        NodeView::Text(t) => Ok(t),
        NodeView::Number(t) => Ok(t),
        _ => Err(SchemaError::WrongKind),
    }
}

/// A truth value.
pub open spec fn bool_value(node: NodeView) -> Result<bool, SchemaError> {
    match node {
        NodeView::Bool(b) => Ok(b),
        _ => Err(SchemaError::WrongKind),
    }
}

/// A whole number of 32 bits without sign.
pub open spec fn count_value(node: NodeView) -> Result<u32, SchemaError> {
    match node {
        NodeView::Number(t) => match u32_of(t) {
            Some(n) => Ok(n),
            None => Err(SchemaError::BadNumber),
        },
        _ => Err(SchemaError::WrongKind),
    }
}

/// A risk level by its name.
pub open spec fn risk_value(node: NodeView) -> Result<RiskLevel, SchemaError> {
    match node {
        NodeView::Text(t) => if t == "low"@ {
            Ok(RiskLevel::Low)
        } else if t == "medium"@ {
            Ok(RiskLevel::Medium)
        } else if t == "high"@ {
            Ok(RiskLevel::High)
        } else {
            Err(SchemaError::UnknownVariant)
        },
        _ => Err(SchemaError::WrongKind),
    }
}

/// The value type that a name stands for.
pub open spec fn type_named(t: Seq<char>) -> Option<ValType> {
    if t == "I32"@ {
        Some(ValType::I32)
    } else if t == "I64"@ {
        Some(ValType::I64)
    } else if t == "F32"@ {
        Some(ValType::F32)
    } else if t == "F64"@ {
        Some(ValType::F64)
    } else if t == "V128"@ {
        Some(ValType::V128)
    } else if t == "FuncRef"@ {
        Some(ValType::FuncRef)
    } else if t == "ExternRef"@ {
        Some(ValType::ExternRef)
    } else if t == "Bool"@ {
        Some(ValType::Bool)
    } else if t == "S8"@ {
        Some(ValType::S8)
    } else if t == "U8"@ {
        Some(ValType::U8)
    } else if t == "S16"@ {
        Some(ValType::S16)
    } else if t == "U16"@ {
        Some(ValType::U16)
    } else if t == "S32"@ {
        Some(ValType::S32)
    } else if t == "U32"@ {
        Some(ValType::U32)
    } else if t == "S64"@ {
        Some(ValType::S64)
    } else if t == "U64"@ {
        Some(ValType::U64)
    } else if t == "Float32"@ {
        Some(ValType::Float32)
    } else if t == "Float64"@ {
        Some(ValType::Float64)
    } else if t == "Char"@ {
        Some(ValType::Char)
    } else if t == "String"@ {
        Some(ValType::String)
    } else {
        None
    }
}

/// A value type by its name.
pub open spec fn type_value(node: NodeView) -> Result<ValType, SchemaError> {
    match node {
        NodeView::Text(t) => match type_named(t) {
            Some(v) => Ok(v),
            None => Err(SchemaError::UnknownVariant),
        },
        _ => Err(SchemaError::WrongKind),
    }
}

/// The value types of the first nodes of a list, up to the first that is
/// none.
pub open spec fn types_of(items: Seq<NodeView>) -> Result<Seq<ValType>, SchemaError>
    decreases items.len(),
{
    if items.len() == 0 {
        Ok(Seq::empty())
    } else {
        match types_of(items.drop_last()) {
            Err(e) => Err(e),
            Ok(done) => match type_value(items.last()) {
                Err(e) => Err(e),
                Ok(t) => Ok(done.push(t)),
            },
        }
    }
}

/// A list of value types.
pub open spec fn types_value(node: NodeView) -> Result<Seq<ValType>, SchemaError> {
    match node {
        NodeView::List(items) => types_of(items),
        _ => Err(SchemaError::WrongKind),
    }
}

/// A list of value types at a key that a mapping may lack.
pub open spec fn optional_types_at(entries: Seq<EntryView>, name: Seq<char>) -> Result<
    Option<Seq<ValType>>,
    SchemaError,
> {
    match optional_field(entries, name) {
        None => Ok(None),
        Some(node) => match types_value(node) {
            Ok(types) => Ok(Some(types)),
            Err(e) => Err(e),
        },
    }
}

/// A string at a key that a mapping may lack.
pub open spec fn optional_text_at(entries: Seq<EntryView>, name: Seq<char>) -> Result<
    Option<Seq<char>>,
    SchemaError,
> {
    match optional_field(entries, name) {
        None => Ok(None),
        Some(node) => match text_value(node) {
            Ok(t) => Ok(Some(t)),
            Err(e) => Err(e),
        },
    }
}

/// A string at a key that a mapping must have.
pub open spec fn text_at(entries: Seq<EntryView>, name: Seq<char>) -> Result<
    Seq<char>,
    SchemaError,
> {
    match field(entries, name) {
        None => Err(SchemaError::MissingField),
        Some(node) => text_value(node),
    }
}

fn read_text(node: &Node) -> (r: Result<String, SchemaError>)
    ensures
        match text_value(node@) {
            Ok(t) => r is Ok && r->Ok_0@ == t,
            Err(e) => r == Err::<String, SchemaError>(e),
        },
{
    match node {
        Node::Text(t) => Ok(t.clone()),
        _ => Err(SchemaError::WrongKind),
    }
}

fn read_size_text(node: &Node) -> (r: Result<String, SchemaError>)
    ensures
        match size_value(node@) {
            Ok(t) => r is Ok && r->Ok_0@ == t,
            Err(e) => r == Err::<String, SchemaError>(e),
        },
{
    match node {
        Node::Text(t) => Ok(t.clone()),
        Node::Number(t) => Ok(t.clone()),
        _ => Err(SchemaError::WrongKind),
    }
}

fn read_bool(node: &Node) -> (r: Result<bool, SchemaError>)
    ensures
        r == bool_value(node@),
{
    match node {
        Node::Bool(b) => Ok(*b),
        _ => Err(SchemaError::WrongKind),
    }
}

fn read_count(node: &Node) -> (r: Result<u32, SchemaError>)
    ensures
        r == count_value(node@),
{
    match node {
        Node::Number(t) => match parse_u32(t.as_str()) {
            Some(n) => Ok(n),
            None => Err(SchemaError::BadNumber),
        },
        _ => Err(SchemaError::WrongKind),
    }
}

fn read_risk(node: &Node) -> (r: Result<RiskLevel, SchemaError>)
    ensures
        r == risk_value(node@),
{
    match node {
        Node::Text(t) => {
            if same_text(t.as_str(), "low") {
                Ok(RiskLevel::Low)
            } else if same_text(t.as_str(), "medium") {
                Ok(RiskLevel::Medium)
            } else if same_text(t.as_str(), "high") {
                Ok(RiskLevel::High)
            } else {
                Err(SchemaError::UnknownVariant)
            }
        },
        _ => Err(SchemaError::WrongKind),
    }
}

/// The value type that a name stands for.
pub fn type_by_name(t: &str) -> (r: Option<ValType>)
    ensures
        r == type_named(t@),
{
    if same_text(t, "I32") {
        Some(ValType::I32)
    } else if same_text(t, "I64") {
        Some(ValType::I64)
    } else if same_text(t, "F32") {
        Some(ValType::F32)
    } else if same_text(t, "F64") {
        Some(ValType::F64)
    } else if same_text(t, "V128") {
        Some(ValType::V128)
    } else if same_text(t, "FuncRef") {
        Some(ValType::FuncRef)
    } else if same_text(t, "ExternRef") {
        Some(ValType::ExternRef)
    } else if same_text(t, "Bool") {
        Some(ValType::Bool)
    } else if same_text(t, "S8") {
        Some(ValType::S8)
    } else if same_text(t, "U8") {
        Some(ValType::U8)
    } else if same_text(t, "S16") {
        Some(ValType::S16)
    } else if same_text(t, "U16") {
        Some(ValType::U16)
    } else if same_text(t, "S32") {
        Some(ValType::S32)
    } else if same_text(t, "U32") {
        Some(ValType::U32)
    } else if same_text(t, "S64") {
        Some(ValType::S64)
    } else if same_text(t, "U64") {
        Some(ValType::U64)
    } else if same_text(t, "Float32") {
        Some(ValType::Float32)
    } else if same_text(t, "Float64") {
        Some(ValType::Float64)
    } else if same_text(t, "Char") {
        Some(ValType::Char)
    } else if same_text(t, "String") {
        Some(ValType::String)
    } else {
        None
    }
}

fn read_type(node: &Node) -> (r: Result<ValType, SchemaError>)
    ensures
        r == type_value(node@),
{
    match node {
        Node::Text(t) => match type_by_name(t.as_str()) {
            Some(v) => Ok(v),
            None => Err(SchemaError::UnknownVariant),
        },
        _ => Err(SchemaError::WrongKind),
    }
}

fn read_types(node: &Node) -> (r: Result<Vec<ValType>, SchemaError>)
    ensures
        match types_value(node@) {
            Ok(types) => r is Ok && r->Ok_0@ == types,
            Err(e) => r == Err::<Vec<ValType>, SchemaError>(e),
        },
{
    match node {
        Node::List(items) => {
            proof {
                lemma_list_view(*node);
            }
            let ghost views = node_views(items@);
            let mut done: Vec<ValType> = Vec::new();
            let mut i: usize = 0;
            while i < items.len()
                invariant
                    i <= items@.len(),
                    views == node_views(items@),
                    node@ == NodeView::List(views),
                    types_of(views.take(i as int)) == Ok::<Seq<ValType>, SchemaError>(done@),
                decreases items@.len() - i,
            {
                let ghost now = views.take(i + 1);
                assert(now.drop_last() =~= views.take(i as int));
                assert(now.last() == items@[i as int]@);
                match read_type(&items[i]) {
                    Ok(t) => {
                        done.push(t);
                    },
                    Err(e) => {
                        proof {
                            assert(types_of(now) == Err::<Seq<ValType>, SchemaError>(e));
                            lemma_types_fault_stays(views, i + 1);
                        }
                        return Err(e);
                    },
                }
                i += 1;
            }
            assert(views.take(i as int) =~= views);
            Ok(done)
        },
        _ => Err(SchemaError::WrongKind),
    }
}

/// A fault among the first value types of a list is the fault of the list.
proof fn lemma_types_fault_stays(items: Seq<NodeView>, n: int)
    requires
        0 <= n <= items.len(),
        types_of(items.take(n)) is Err,
    ensures
        types_of(items) == types_of(items.take(n)),
    decreases items.len() - n,
{
    if n < items.len() {
        assert(items.take(n + 1).drop_last() =~= items.take(n));
        lemma_types_fault_stays(items, n + 1);
    } else {
        assert(items.take(n) =~= items);
    }
}

fn read_optional_types(entries: &Vec<Entry>, name: &str) -> (r: Result<
    Option<Vec<ValType>>,
    SchemaError,
>)
    ensures
        match optional_types_at(entry_views(entries@), name@) {
            Ok(types) => r is Ok && crate::policy::optional_types(r->Ok_0) == types,
            Err(e) => r == Err::<Option<Vec<ValType>>, SchemaError>(e),
        },
{
    match get_optional(entries, name) {
        None => Ok(None),
        Some(node) => match read_types(node) {
            Ok(types) => Ok(Some(types)),
            Err(e) => Err(e),
        },
    }
}

fn read_optional_text(entries: &Vec<Entry>, name: &str) -> (r: Result<Option<String>, SchemaError>)
    ensures
        match optional_text_at(entry_views(entries@), name@) {
            Ok(text) => r is Ok && crate::policy::optional_text(r->Ok_0) == text,
            Err(e) => r == Err::<Option<String>, SchemaError>(e),
        },
{
    match get_optional(entries, name) {
        None => Ok(None),
        Some(node) => match read_text(node) {
            Ok(t) => Ok(Some(t)),
            Err(e) => Err(e),
        },
    }
}

fn read_text_at(entries: &Vec<Entry>, name: &str) -> (r: Result<String, SchemaError>)
    ensures
        match text_at(entry_views(entries@), name@) {
            Ok(t) => r is Ok && r->Ok_0@ == t,
            Err(e) => r == Err::<String, SchemaError>(e),
        },
{
    match get_field(entries, name) {
        None => Err(SchemaError::MissingField),
        Some(node) => read_text(node),
    }
}

/// A function named by a rule: a bare name, or a mapping with the name
/// and, where the rule states them, the parameters and the results.
pub open spec fn function_item_value(node: NodeView) -> Result<FunctionItemView, SchemaError> {
    match node {
        NodeView::Text(name) => Ok(FunctionItemView::Name(name)),
        NodeView::Table(entries) => match keys_fault(
            entries,
            entries.len() as int,
            Group::FunctionItem,
        ) {
            Some(e) => Err(e),
            None => match text_at(entries, "name"@) {
                Err(e) => Err(e),
                Ok(name) => match optional_types_at(entries, "params"@) {
                    Err(e) => Err(e),
                    Ok(params) => match optional_types_at(entries, "results"@) {
                        Err(e) => Err(e),
                        Ok(results) => Ok(FunctionItemView::Item { name, params, results }),
                    },
                },
            },
        },
        _ => Err(SchemaError::WrongKind),
    }
}

fn read_function_item(node: &Node) -> (r: Result<FunctionItem, SchemaError>)
    ensures
        match function_item_value(node@) {
            Ok(item) => r is Ok && r->Ok_0@ == item,
            Err(e) => r == Err::<FunctionItem, SchemaError>(e),
        },
{
    match node {
        Node::Text(name) => Ok(FunctionItem::Name(name.clone())),
        Node::Table(entries) => {
            proof {
                lemma_table_view(*node);
            }
            check_keys(entries, Group::FunctionItem)?;
            let name = read_text_at(entries, "name")?;
            let params = read_optional_types(entries, "params")?;
            let results = read_optional_types(entries, "results")?;
            Ok(FunctionItem::Item { name, params, results })
        },
        _ => Err(SchemaError::WrongKind),
    }
}

/// An import named by a rule: a bare name, or a mapping with the name
/// and, where the rule states them, the namespace, the parameters and the
/// results.
pub open spec fn import_item_value(node: NodeView) -> Result<ImportItemView, SchemaError> {
    match node {
        NodeView::Text(name) => Ok(ImportItemView::Name(name)),
        NodeView::Table(entries) => match keys_fault(
            entries,
            entries.len() as int,
            Group::ImportItem,
        ) {
            Some(e) => Err(e),
            None => match optional_text_at(entries, "namespace"@) {
                Err(e) => Err(e),
                Ok(namespace) => match text_at(entries, "name"@) {
                    Err(e) => Err(e),
                    Ok(name) => match optional_types_at(entries, "params"@) {
                        Err(e) => Err(e),
                        Ok(params) => match optional_types_at(entries, "results"@) {
                            Err(e) => Err(e),
                            Ok(results) => Ok(
                                ImportItemView::Item { namespace, name, params, results },
                            ),
                        },
                    },
                },
            },
        },
        _ => Err(SchemaError::WrongKind),
    }
}

fn read_import_item(node: &Node) -> (r: Result<ImportItem, SchemaError>)
    ensures
        match import_item_value(node@) {
            Ok(item) => r is Ok && r->Ok_0@ == item,
            Err(e) => r == Err::<ImportItem, SchemaError>(e),
        },
{
    match node {
        Node::Text(name) => Ok(ImportItem::Name(name.clone())),
        Node::Table(entries) => {
            proof {
                lemma_table_view(*node);
            }
            check_keys(entries, Group::ImportItem)?;
            let namespace = read_optional_text(entries, "namespace")?;
            let name = read_text_at(entries, "name")?;
            let params = read_optional_types(entries, "params")?;
            let results = read_optional_types(entries, "results")?;
            Ok(ImportItem::Item { namespace, name, params, results })
        },
        _ => Err(SchemaError::WrongKind),
    }
}

/// The items of the first nodes of a list, up to the first that is none.
pub open spec fn function_items_of(items: Seq<NodeView>) -> Result<Seq<FunctionItemView>, SchemaError>
    decreases items.len(),
{
    if items.len() == 0 {
        Ok(Seq::empty())
    } else {
        match function_items_of(items.drop_last()) {
            Err(e) => Err(e),
            Ok(done) => match function_item_value(items.last()) {
                Err(e) => Err(e),
                Ok(item) => Ok(done.push(item)),
            },
        }
    }
}

/// A list of items.
pub open spec fn function_items_value(node: NodeView) -> Result<Seq<FunctionItemView>, SchemaError> {
    match node {
        NodeView::List(items) => function_items_of(items),
        _ => Err(SchemaError::WrongKind),
    }
}

/// A list of items at a key that a mapping may lack.
pub open spec fn optional_function_items_at(entries: Seq<EntryView>, name: Seq<char>) -> Result<
    Option<Seq<FunctionItemView>>,
    SchemaError,
> {
    match optional_field(entries, name) {
        None => Ok(None),
        Some(node) => match function_items_value(node) {
            Ok(items) => Ok(Some(items)),
            Err(e) => Err(e),
        },
    }
}

proof fn lemma_function_items_fault_stays(items: Seq<NodeView>, n: int)
    requires
        0 <= n <= items.len(),
        function_items_of(items.take(n)) is Err,
    ensures
        function_items_of(items) == function_items_of(items.take(n)),
    decreases items.len() - n,
{
    if n < items.len() {
        assert(items.take(n + 1).drop_last() =~= items.take(n));
        lemma_function_items_fault_stays(items, n + 1);
    } else {
        assert(items.take(n) =~= items);
    }
}

fn read_function_items(node: &Node) -> (r: Result<Vec<FunctionItem>, SchemaError>)
    ensures
        match function_items_value(node@) {
            Ok(items) => r is Ok && crate::policy::function_items(r->Ok_0@) == items,
            Err(e) => r == Err::<Vec<FunctionItem>, SchemaError>(e),
        },
{
    match node {
        Node::List(items) => {
            proof {
                lemma_list_view(*node);
            }
            let ghost views = node_views(items@);
            let mut done: Vec<FunctionItem> = Vec::new();
            let mut i: usize = 0;
            assert(crate::policy::function_items(done@) =~= Seq::<FunctionItemView>::empty());
            while i < items.len()
                invariant
                    i <= items@.len(),
                    views == node_views(items@),
                    node@ == NodeView::List(views),
                    function_items_of(views.take(i as int)) == Ok::<Seq<FunctionItemView>, SchemaError>(
                        crate::policy::function_items(done@),
                    ),
                decreases items@.len() - i,
            {
                let ghost now = views.take(i + 1);
                let ghost before = crate::policy::function_items(done@);
                assert(now.drop_last() =~= views.take(i as int));
                assert(now.last() == items@[i as int]@);
                match read_function_item(&items[i]) {
                    Ok(item) => {
                        done.push(item);
                        assert(crate::policy::function_items(done@) =~= before.push(item@));
                    },
                    Err(e) => {
                        proof {
                            assert(function_items_of(now) == Err::<Seq<FunctionItemView>, SchemaError>(e));
                            lemma_function_items_fault_stays(views, i + 1);
                        }
                        return Err(e);
                    },
                }
                i += 1;
            }
            assert(views.take(i as int) =~= views);
            Ok(done)
        },
        _ => Err(SchemaError::WrongKind),
    }
}

fn read_optional_function_items(entries: &Vec<Entry>, name: &str) -> (r: Result<
    Option<Vec<FunctionItem>>,
    SchemaError,
>)
    ensures
        match optional_function_items_at(entry_views(entries@), name@) {
            Ok(items) => r is Ok && crate::policy::optional_function_items(r->Ok_0) == items,
            Err(e) => r == Err::<Option<Vec<FunctionItem>>, SchemaError>(e),
        },
{
    match get_optional(entries, name) {
        None => Ok(None),
        Some(node) => match read_function_items(node) {
            Ok(items) => Ok(Some(items)),
            Err(e) => Err(e),
        },
    }
}

/// The items of the first nodes of a list, up to the first that is none.
pub open spec fn import_items_of(items: Seq<NodeView>) -> Result<Seq<ImportItemView>, SchemaError>
    decreases items.len(),
{
    if items.len() == 0 {
        Ok(Seq::empty())
    } else {
        match import_items_of(items.drop_last()) {
            Err(e) => Err(e),
            Ok(done) => match import_item_value(items.last()) {
                Err(e) => Err(e),
                Ok(item) => Ok(done.push(item)),
            },
        }
    }
}

/// A list of items.
pub open spec fn import_items_value(node: NodeView) -> Result<Seq<ImportItemView>, SchemaError> {
    match node {
        NodeView::List(items) => import_items_of(items),
        _ => Err(SchemaError::WrongKind),
    }
}

/// A list of items at a key that a mapping may lack.
pub open spec fn optional_import_items_at(entries: Seq<EntryView>, name: Seq<char>) -> Result<
    Option<Seq<ImportItemView>>,
    SchemaError,
> {
    match optional_field(entries, name) {
        None => Ok(None),
        Some(node) => match import_items_value(node) {
            Ok(items) => Ok(Some(items)),
            Err(e) => Err(e),
        },
    }
}

proof fn lemma_import_items_fault_stays(items: Seq<NodeView>, n: int)
    requires
        0 <= n <= items.len(),
        import_items_of(items.take(n)) is Err,
    ensures
        import_items_of(items) == import_items_of(items.take(n)),
    decreases items.len() - n,
{
    if n < items.len() {
        assert(items.take(n + 1).drop_last() =~= items.take(n));
        lemma_import_items_fault_stays(items, n + 1);
    } else {
        assert(items.take(n) =~= items);
    }
}

fn read_import_items(node: &Node) -> (r: Result<Vec<ImportItem>, SchemaError>)
    ensures
        match import_items_value(node@) {
            Ok(items) => r is Ok && crate::policy::import_items(r->Ok_0@) == items,
            Err(e) => r == Err::<Vec<ImportItem>, SchemaError>(e),
        },
{
    match node {
        Node::List(items) => {
            proof {
                lemma_list_view(*node);
            }
            let ghost views = node_views(items@);
            let mut done: Vec<ImportItem> = Vec::new();
            let mut i: usize = 0;
            assert(crate::policy::import_items(done@) =~= Seq::<ImportItemView>::empty());
            while i < items.len()
                invariant
                    i <= items@.len(),
                    views == node_views(items@),
                    node@ == NodeView::List(views),
                    import_items_of(views.take(i as int)) == Ok::<Seq<ImportItemView>, SchemaError>(
                        crate::policy::import_items(done@),
                    ),
                decreases items@.len() - i,
            {
                let ghost now = views.take(i + 1);
                let ghost before = crate::policy::import_items(done@);
                assert(now.drop_last() =~= views.take(i as int));
                assert(now.last() == items@[i as int]@);
                match read_import_item(&items[i]) {
                    Ok(item) => {
                        done.push(item);
                        assert(crate::policy::import_items(done@) =~= before.push(item@));
                    },
                    Err(e) => {
                        proof {
                            assert(import_items_of(now) == Err::<Seq<ImportItemView>, SchemaError>(e));
                            lemma_import_items_fault_stays(views, i + 1);
                        }
                        return Err(e);
                    },
                }
                i += 1;
            }
            assert(views.take(i as int) =~= views);
            Ok(done)
        },
        _ => Err(SchemaError::WrongKind),
    }
}

fn read_optional_import_items(entries: &Vec<Entry>, name: &str) -> (r: Result<
    Option<Vec<ImportItem>>,
    SchemaError,
>)
    ensures
        match optional_import_items_at(entry_views(entries@), name@) {
            Ok(items) => r is Ok && crate::policy::optional_import_items(r->Ok_0) == items,
            Err(e) => r == Err::<Option<Vec<ImportItem>>, SchemaError>(e),
        },
{
    match get_optional(entries, name) {
        None => Ok(None),
        Some(node) => match read_import_items(node) {
            Ok(items) => Ok(Some(items)),
            Err(e) => Err(e),
        },
    }
}

/// The functions that a namespace item names: those of the list at
/// `functions`, and none where the item has no such key.
pub open spec fn functions_at(entries: Seq<EntryView>) -> Result<
    Seq<FunctionItemView>,
    SchemaError,
> {
    match field(entries, "functions"@) {
        None => Ok(Seq::empty()),
        Some(node) => function_items_value(node),
    }
}

/// A namespace named by a rule: a bare name, or a mapping with the name
/// and the functions of the namespace that the rule speaks of.
pub open spec fn namespace_item_value(node: NodeView) -> Result<NamespaceItemView, SchemaError> {
    match node {
        NodeView::Text(name) => Ok(NamespaceItemView::Name(name)),
        NodeView::Table(entries) => match keys_fault(
            entries,
            entries.len() as int,
            Group::NamespaceItem,
        ) {
            Some(e) => Err(e),
            None => match text_at(entries, "name"@) {
                Err(e) => Err(e),
                Ok(name) => match functions_at(entries) {
                    Err(e) => Err(e),
                    Ok(functions) => Ok(NamespaceItemView::Item { name, functions }),
                },
            },
        },
        _ => Err(SchemaError::WrongKind),
    }
}

fn read_namespace_item(node: &Node) -> (r: Result<NamespaceItem, SchemaError>)
    ensures
        match namespace_item_value(node@) {
            Ok(item) => r is Ok && r->Ok_0@ == item,
            Err(e) => r == Err::<NamespaceItem, SchemaError>(e),
        },
{
    match node {
        Node::Text(name) => Ok(NamespaceItem::Name(name.clone())),
        Node::Table(entries) => {
            proof {
                lemma_table_view(*node);
            }
            check_keys(entries, Group::NamespaceItem)?;
            let name = read_text_at(entries, "name")?;
            let functions = match get_field(entries, "functions") {
                None => {
                    assert(crate::policy::function_items(Seq::<FunctionItem>::empty()) =~= Seq::<
                        FunctionItemView,
                    >::empty());
                    Vec::new()
                },
                Some(list) => read_function_items(list)?,
            };
            Ok(NamespaceItem::Item { name, functions })
        },
        _ => Err(SchemaError::WrongKind),
    }
}

/// The items of the first nodes of a list, up to the first that is none.
pub open spec fn namespace_items_of(items: Seq<NodeView>) -> Result<Seq<NamespaceItemView>, SchemaError>
    decreases items.len(),
{
    if items.len() == 0 {
        Ok(Seq::empty())
    } else {
        match namespace_items_of(items.drop_last()) {
            Err(e) => Err(e),
            Ok(done) => match namespace_item_value(items.last()) {
                Err(e) => Err(e),
                Ok(item) => Ok(done.push(item)),
            },
        }
    }
}

/// A list of items.
pub open spec fn namespace_items_value(node: NodeView) -> Result<Seq<NamespaceItemView>, SchemaError> {
    match node {
        NodeView::List(items) => namespace_items_of(items),
        _ => Err(SchemaError::WrongKind),
    }
}

/// A list of items at a key that a mapping may lack.
pub open spec fn optional_namespace_items_at(entries: Seq<EntryView>, name: Seq<char>) -> Result<
    Option<Seq<NamespaceItemView>>,
    SchemaError,
> {
    match optional_field(entries, name) {
        None => Ok(None),
        Some(node) => match namespace_items_value(node) {
            Ok(items) => Ok(Some(items)),
            Err(e) => Err(e),
        },
    }
}

proof fn lemma_namespace_items_fault_stays(items: Seq<NodeView>, n: int)
    requires
        0 <= n <= items.len(),
        namespace_items_of(items.take(n)) is Err,
    ensures
        namespace_items_of(items) == namespace_items_of(items.take(n)),
    decreases items.len() - n,
{
    if n < items.len() {
        assert(items.take(n + 1).drop_last() =~= items.take(n));
        lemma_namespace_items_fault_stays(items, n + 1);
    } else {
        assert(items.take(n) =~= items);
    }
}

fn read_namespace_items(node: &Node) -> (r: Result<Vec<NamespaceItem>, SchemaError>)
    ensures
        match namespace_items_value(node@) {
            Ok(items) => r is Ok && crate::policy::namespace_items(r->Ok_0@) == items,
            Err(e) => r == Err::<Vec<NamespaceItem>, SchemaError>(e),
        },
{
    match node {
        Node::List(items) => {
            proof {
                lemma_list_view(*node);
            }
            let ghost views = node_views(items@);
            let mut done: Vec<NamespaceItem> = Vec::new();
            let mut i: usize = 0;
            assert(crate::policy::namespace_items(done@) =~= Seq::<NamespaceItemView>::empty());
            while i < items.len()
                invariant
                    i <= items@.len(),
                    views == node_views(items@),
                    node@ == NodeView::List(views),
                    namespace_items_of(views.take(i as int)) == Ok::<Seq<NamespaceItemView>, SchemaError>(
                        crate::policy::namespace_items(done@),
                    ),
                decreases items@.len() - i,
            {
                let ghost now = views.take(i + 1);
                let ghost before = crate::policy::namespace_items(done@);
                assert(now.drop_last() =~= views.take(i as int));
                assert(now.last() == items@[i as int]@);
                match read_namespace_item(&items[i]) {
                    Ok(item) => {
                        done.push(item);
                        assert(crate::policy::namespace_items(done@) =~= before.push(item@));
                    },
                    Err(e) => {
                        proof {
                            assert(namespace_items_of(now) == Err::<Seq<NamespaceItemView>, SchemaError>(e));
                            lemma_namespace_items_fault_stays(views, i + 1);
                        }
                        return Err(e);
                    },
                }
                i += 1;
            }
            assert(views.take(i as int) =~= views);
            Ok(done)
        },
        _ => Err(SchemaError::WrongKind),
    }
}

fn read_optional_namespace_items(entries: &Vec<Entry>, name: &str) -> (r: Result<
    Option<Vec<NamespaceItem>>,
    SchemaError,
>)
    ensures
        match optional_namespace_items_at(entry_views(entries@), name@) {
            Ok(items) => r is Ok && crate::policy::optional_namespace_items(r->Ok_0) == items,
            Err(e) => r == Err::<Option<Vec<NamespaceItem>>, SchemaError>(e),
        },
{
    match get_optional(entries, name) {
        None => Ok(None),
        Some(node) => match read_namespace_items(node) {
            Ok(items) => Ok(Some(items)),
            Err(e) => Err(e),
        },
    }
}

/// The rules on namespaces: a mapping with the lists at `include` and
/// `exclude`, as far as it has them.
pub open spec fn namespace_value(node: NodeView) -> Result<NamespaceView, SchemaError> {
    match node {
        NodeView::Table(entries) => match keys_fault(
            entries,
            entries.len() as int,
            Group::Namespace,
        ) {
            Some(e) => Err(e),
            None => match optional_namespace_items_at(entries, "include"@) {
                Err(e) => Err(e),
                Ok(included) => match optional_namespace_items_at(entries, "exclude"@) {
                    Err(e) => Err(e),
                    Ok(exclude) => Ok(NamespaceView { included, exclude }),
                },
            },
        },
        _ => Err(SchemaError::WrongKind),
    }
}

fn read_namespace(node: &Node) -> (r: Result<Namespace, SchemaError>)
    ensures
        match namespace_value(node@) {
            Ok(v) => r is Ok && r->Ok_0@ == v,
            Err(e) => r == Err::<Namespace, SchemaError>(e),
        },
{
    match node {
        Node::Table(entries) => {
            proof {
                lemma_table_view(*node);
            }
            check_keys(entries, Group::Namespace)?;
            let included = read_optional_namespace_items(entries, "include")?;
            let exclude = read_optional_namespace_items(entries, "exclude")?;
            Ok(Namespace { included, exclude })
        },
        _ => Err(SchemaError::WrongKind),
    }
}

/// The rules on namespaces at a key that a mapping may lack.
pub open spec fn optional_namespace_at(entries: Seq<EntryView>, name: Seq<char>) -> Result<
    Option<NamespaceView>,
    SchemaError,
> {
    match optional_field(entries, name) {
        None => Ok(None),
        Some(node) => match namespace_value(node) {
            Ok(v) => Ok(Some(v)),
            Err(e) => Err(e),
        },
    }
}

/// The rules on imports: a mapping with the lists at `include` and
/// `exclude` and the rules on namespaces at `namespace`, as far as it has
/// them.
pub open spec fn imports_value(node: NodeView) -> Result<ImportsView, SchemaError> {
    match node {
        NodeView::Table(entries) => match keys_fault(entries, entries.len() as int, Group::Imports) {
            Some(e) => Err(e),
            None => match optional_import_items_at(entries, "include"@) {
                Err(e) => Err(e),
                Ok(included) => match optional_import_items_at(entries, "exclude"@) {
                    Err(e) => Err(e),
                    Ok(exclude) => match optional_namespace_at(entries, "namespace"@) {
                        Err(e) => Err(e),
                        Ok(namespace) => Ok(ImportsView { included, exclude, namespace }),
                    },
                },
            },
        },
        _ => Err(SchemaError::WrongKind),
    }
}

fn read_imports(node: &Node) -> (r: Result<Imports, SchemaError>)
    ensures
        match imports_value(node@) {
            Ok(v) => r is Ok && r->Ok_0@ == v,
            Err(e) => r == Err::<Imports, SchemaError>(e),
        },
{
    match node {
        Node::Table(entries) => {
            proof {
                lemma_table_view(*node);
            }
            check_keys(entries, Group::Imports)?;
            let included = read_optional_import_items(entries, "include")?;
            let exclude = read_optional_import_items(entries, "exclude")?;
            let namespace = match get_optional(entries, "namespace") {
                None => None,
                Some(n) => Some(read_namespace(n)?),
            };
            Ok(Imports { included, exclude, namespace })
        },
        _ => Err(SchemaError::WrongKind),
    }
}

/// A number at a key that a mapping may lack.
pub open spec fn optional_count_at(entries: Seq<EntryView>, name: Seq<char>) -> Result<
    Option<u32>,
    SchemaError,
> {
    match optional_field(entries, name) {
        None => Ok(None),
        Some(node) => match count_value(node) {
            Ok(n) => Ok(Some(n)),
            Err(e) => Err(e),
        },
    }
}

fn read_optional_count(entries: &Vec<Entry>, name: &str) -> (r: Result<Option<u32>, SchemaError>)
    ensures
        r == optional_count_at(entry_views(entries@), name@),
{
    match get_optional(entries, name) {
        None => Ok(None),
        Some(node) => match read_count(node) {
            Ok(n) => Ok(Some(n)),
            Err(e) => Err(e),
        },
    }
}

/// The rules on exports: a mapping with the lists at `include` and
/// `exclude` and the bound at `max`, as far as it has them.
pub open spec fn exports_value(node: NodeView) -> Result<ExportsView, SchemaError> {
    match node {
        NodeView::Table(entries) => match keys_fault(entries, entries.len() as int, Group::Exports) {
            Some(e) => Err(e),
            None => match optional_function_items_at(entries, "include"@) {
                Err(e) => Err(e),
                Ok(included) => match optional_function_items_at(entries, "exclude"@) {
                    Err(e) => Err(e),
                    Ok(exclude) => match optional_count_at(entries, "max"@) {
                        Err(e) => Err(e),
                        Ok(max) => Ok(ExportsView { included, exclude, max }),
                    },
                },
            },
        },
        _ => Err(SchemaError::WrongKind),
    }
}

fn read_exports(node: &Node) -> (r: Result<Exports, SchemaError>)
    ensures
        match exports_value(node@) {
            Ok(v) => r is Ok && r->Ok_0@ == v,
            Err(e) => r == Err::<Exports, SchemaError>(e),
        },
{
    match node {
        Node::Table(entries) => {
            proof {
                lemma_table_view(*node);
            }
            check_keys(entries, Group::Exports)?;
            let included = read_optional_function_items(entries, "include")?;
            let exclude = read_optional_function_items(entries, "exclude")?;
            let max = read_optional_count(entries, "max")?;
            Ok(Exports { included, exclude, max })
        },
        _ => Err(SchemaError::WrongKind),
    }
}

/// The rule on the size: a mapping with the limit at `max`, if it has one.
pub open spec fn size_group_value(node: NodeView) -> Result<SizeView, SchemaError> {
    match node {
        NodeView::Table(entries) => match keys_fault(entries, entries.len() as int, Group::Size) {
            Some(e) => Err(e),
            None => match optional_field(entries, "max"@) {
                None => Ok(SizeView { max: None }),
                Some(n) => match size_value(n) {
                    Err(e) => Err(e),
                    Ok(t) => Ok(SizeView { max: Some(t) }),
                },
            },
        },
        _ => Err(SchemaError::WrongKind),
    }
}

fn read_size_group(node: &Node) -> (r: Result<Size, SchemaError>)
    ensures
        match size_group_value(node@) {
            Ok(v) => r is Ok && r->Ok_0@ == v,
            Err(e) => r == Err::<Size, SchemaError>(e),
        },
{
    match node {
        Node::Table(entries) => {
            proof {
                lemma_table_view(*node);
            }
            check_keys(entries, Group::Size)?;
            let max = match get_optional(entries, "max") {
                None => None,
                Some(n) => Some(read_size_text(n)?),
            };
            Ok(Size { max })
        },
        _ => Err(SchemaError::WrongKind),
    }
}

/// The bound on the complexity: a mapping with the risk level at
/// `max_risk` and the score at `max_score`, as far as it has them.
pub open spec fn complexity_value(node: NodeView) -> Result<Complexity, SchemaError> {
    match node {
        NodeView::Table(entries) => match keys_fault(
            entries,
            entries.len() as int,
            Group::Complexity,
        ) {
            Some(e) => Err(e),
            None => match optional_field(entries, "max_risk"@) {
                None => match optional_count_at(entries, "max_score"@) {
                    Err(e) => Err(e),
                    Ok(max_score) => Ok(Complexity { max_risk: None, max_score }),
                },
                Some(n) => match risk_value(n) {
                    Err(e) => Err(e),
                    Ok(risk) => match optional_count_at(entries, "max_score"@) {
                        Err(e) => Err(e),
                        Ok(max_score) => Ok(Complexity { max_risk: Some(risk), max_score }),
                    },
                },
            },
        },
        _ => Err(SchemaError::WrongKind),
    }
}

fn read_complexity(node: &Node) -> (r: Result<Complexity, SchemaError>)
    ensures
        r == complexity_value(node@),
{
    match node {
        Node::Table(entries) => {
            proof {
                lemma_table_view(*node);
            }
            check_keys(entries, Group::Complexity)?;
            let max_risk = match get_optional(entries, "max_risk") {
                None => None,
                Some(n) => Some(read_risk(n)?),
            };
            let max_score = read_optional_count(entries, "max_score")?;
            Ok(Complexity { max_risk, max_score })
        },
        _ => Err(SchemaError::WrongKind),
    }
}

/// The truth value at `allow_wasi`, if the mapping has the key.
pub open spec fn allow_wasi_at(entries: Seq<EntryView>) -> Result<Option<bool>, SchemaError> {
    match optional_field(entries, "allow_wasi"@) {
        None => Ok(None),
        Some(n) => match bool_value(n) {
            Err(e) => Err(e),
            Ok(b) => Ok(Some(b)),
        },
    }
}

/// The rules on imports at `imports`, if the mapping has the key.
pub open spec fn imports_at(entries: Seq<EntryView>) -> Result<Option<ImportsView>, SchemaError> {
    match optional_field(entries, "imports"@) {
        None => Ok(None),
        Some(n) => match imports_value(n) {
            Err(e) => Err(e),
            Ok(v) => Ok(Some(v)),
        },
    }
}

/// The rules on exports at `exports`, if the mapping has the key.
pub open spec fn exports_at(entries: Seq<EntryView>) -> Result<Option<ExportsView>, SchemaError> {
    match optional_field(entries, "exports"@) {
        None => Ok(None),
        Some(n) => match exports_value(n) {
            Err(e) => Err(e),
            Ok(v) => Ok(Some(v)),
        },
    }
}

/// The rule on the size at `size`, if the mapping has the key.
pub open spec fn size_at(entries: Seq<EntryView>) -> Result<Option<SizeView>, SchemaError> {
    match optional_field(entries, "size"@) {
        None => Ok(None),
        Some(n) => match size_group_value(n) {
            Err(e) => Err(e),
            Ok(v) => Ok(Some(v)),
        },
    }
}

/// The bound on the complexity at `complexity`, if the mapping has the key.
pub open spec fn complexity_at(entries: Seq<EntryView>) -> Result<Option<Complexity>, SchemaError> {
    match optional_field(entries, "complexity"@) {
        None => Ok(None),
        Some(n) => match complexity_value(n) {
            Err(e) => Err(e),
            Ok(v) => Ok(Some(v)),
        },
    }
}

/// The rule groups of a policy: a mapping with a group at each of the keys
/// that it has. The groups are read in the order `url`, `allow_wasi`,
/// `imports`, `exports`, `size`, `complexity`, and the first that is
/// faulty makes the mapping faulty.
pub open spec fn check_value(node: NodeView) -> Result<CheckView, SchemaError> {
    match node {
        NodeView::Table(entries) => match keys_fault(entries, entries.len() as int, Group::Check) {
            Some(e) => Err(e),
            None => match optional_text_at(entries, "url"@) {
                Err(e) => Err(e),
                Ok(url) => match allow_wasi_at(entries) {
                    Err(e) => Err(e),
                    Ok(allow_wasi) => match imports_at(entries) {
                        Err(e) => Err(e),
                        Ok(imports) => match exports_at(entries) {
                            Err(e) => Err(e),
                            Ok(exports) => match size_at(entries) {
                                Err(e) => Err(e),
                                Ok(size) => match complexity_at(entries) {
                                    Err(e) => Err(e),
                                    Ok(complexity) => Ok(
                                        CheckView {
                                            url,
                                            allow_wasi,
                                            imports,
                                            exports,
                                            size,
                                            complexity,
                                        },
                                    ),
                                },
                            },
                        },
                    },
                },
            },
        },
        _ => Err(SchemaError::WrongKind),
    }
}

/// A policy document: a mapping with the rule groups at `validate`, and
/// with no other key.
pub open spec fn validation_value(node: NodeView) -> Result<ValidationView, SchemaError> {
    match node {
        NodeView::Table(entries) => match keys_fault(
            entries,
            entries.len() as int,
            Group::Validation,
        ) {
            Some(e) => Err(e),
            None => match field(entries, "validate"@) {
                None => Err(SchemaError::MissingField),
                Some(n) => match check_value(n) {
                    Err(e) => Err(e),
                    Ok(validate) => Ok(ValidationView { validate }),
                },
            },
        },
        _ => Err(SchemaError::WrongKind),
    }
}

impl Check {
    /// Reads the rule groups of a policy off a tree. The tree is held to
    /// the schema strictly: a key that the schema does not declare, at
    /// whatever depth, is an error, and so is a value of the wrong kind.
    pub fn from_tree(node: &Node) -> (r: Result<Check, SchemaError>)
        ensures
            match check_value(node@) {
                Ok(v) => r is Ok && r->Ok_0@ == v,
                Err(e) => r == Err::<Check, SchemaError>(e),
            },
    {
        match node {
            Node::Table(entries) => {
                proof {
                    lemma_table_view(*node);
                }
                check_keys(entries, Group::Check)?;
                let url = read_optional_text(entries, "url")?;
                let allow_wasi = match get_optional(entries, "allow_wasi") {
                    None => None,
                    Some(n) => Some(read_bool(n)?),
                };
                let imports = match get_optional(entries, "imports") {
                    None => None,
                    Some(n) => Some(read_imports(n)?),
                };
                let exports = match get_optional(entries, "exports") {
                    None => None,
                    Some(n) => Some(read_exports(n)?),
                };
                let size = match get_optional(entries, "size") {
                    None => None,
                    Some(n) => Some(read_size_group(n)?),
                };
                let complexity = match get_optional(entries, "complexity") {
                    None => None,
                    Some(n) => Some(read_complexity(n)?),
                };
                Ok(Check { url, allow_wasi, imports, exports, size, complexity })
            },
            _ => Err(SchemaError::WrongKind),
        }
    }
}

impl Validation {
    /// Reads a policy document off a tree. The tree is held to the schema
    /// strictly: a key that the schema does not declare, at whatever
    /// depth, is an error, and so is a value of the wrong kind.
    pub fn from_tree(node: &Node) -> (r: Result<Validation, SchemaError>)
        ensures
            match validation_value(node@) {
                Ok(v) => r is Ok && r->Ok_0@ == v,
                Err(e) => r == Err::<Validation, SchemaError>(e),
            },
    {
        match node {
            Node::Table(entries) => {
                proof {
                    lemma_table_view(*node);
                }
                check_keys(entries, Group::Validation)?;
                match get_field(entries, "validate") {
                    None => Err(SchemaError::MissingField),
                    Some(n) => {
                        let validate = Check::from_tree(n)?;
                        Ok(Validation { validate })
                    },
                }
            },
            _ => Err(SchemaError::WrongKind),
        }
    }
}

/// How the keys of the schema and the names of the risk levels are spelled.
pub(crate) proof fn lemma_keys_spelled()
    ensures
        "validate"@.len() == 8,
        "validate"@[0] == 'v',
        "validate"@[1] == 'a',
        "validate"@[2] == 'l',
        "validate"@[3] == 'i',
        "validate"@[4] == 'd',
        "validate"@[5] == 'a',
        "validate"@[6] == 't',
        "validate"@[7] == 'e',
        "url"@.len() == 3,
        "url"@[0] == 'u',
        "url"@[1] == 'r',
        "url"@[2] == 'l',
        "allow_wasi"@.len() == 10,
        "allow_wasi"@[0] == 'a',
        "allow_wasi"@[1] == 'l',
        "allow_wasi"@[2] == 'l',
        "allow_wasi"@[3] == 'o',
        "allow_wasi"@[4] == 'w',
        "allow_wasi"@[5] == '_',
        "allow_wasi"@[6] == 'w',
        "allow_wasi"@[7] == 'a',
        "allow_wasi"@[8] == 's',
        "allow_wasi"@[9] == 'i',
        "imports"@.len() == 7,
        "imports"@[0] == 'i',
        "imports"@[1] == 'm',
        "imports"@[2] == 'p',
        "imports"@[3] == 'o',
        "imports"@[4] == 'r',
        "imports"@[5] == 't',
        "imports"@[6] == 's',
        "exports"@.len() == 7,
        "exports"@[0] == 'e',
        "exports"@[1] == 'x',
        "exports"@[2] == 'p',
        "exports"@[3] == 'o',
        "exports"@[4] == 'r',
        "exports"@[5] == 't',
        "exports"@[6] == 's',
        "size"@.len() == 4,
        "size"@[0] == 's',
        "size"@[1] == 'i',
        "size"@[2] == 'z',
        "size"@[3] == 'e',
        "complexity"@.len() == 10,
        "complexity"@[0] == 'c',
        "complexity"@[1] == 'o',
        "complexity"@[2] == 'm',
        "complexity"@[3] == 'p',
        "complexity"@[4] == 'l',
        "complexity"@[5] == 'e',
        "complexity"@[6] == 'x',
        "complexity"@[7] == 'i',
        "complexity"@[8] == 't',
        "complexity"@[9] == 'y',
        "include"@.len() == 7,
        "include"@[0] == 'i',
        "include"@[1] == 'n',
        "include"@[2] == 'c',
        "include"@[3] == 'l',
        "include"@[4] == 'u',
        "include"@[5] == 'd',
        "include"@[6] == 'e',
        "exclude"@.len() == 7,
        "exclude"@[0] == 'e',
        "exclude"@[1] == 'x',
        "exclude"@[2] == 'c',
        "exclude"@[3] == 'l',
        "exclude"@[4] == 'u',
        "exclude"@[5] == 'd',
        "exclude"@[6] == 'e',
        "namespace"@.len() == 9,
        "namespace"@[0] == 'n',
        "namespace"@[1] == 'a',
        "namespace"@[2] == 'm',
        "namespace"@[3] == 'e',
        "namespace"@[4] == 's',
        "namespace"@[5] == 'p',
        "namespace"@[6] == 'a',
        "namespace"@[7] == 'c',
        "namespace"@[8] == 'e',
        "max"@.len() == 3,
        "max"@[0] == 'm',
        "max"@[1] == 'a',
        "max"@[2] == 'x',
        "max_risk"@.len() == 8,
        "max_risk"@[0] == 'm',
        "max_risk"@[1] == 'a',
        "max_risk"@[2] == 'x',
        "max_risk"@[3] == '_',
        "max_risk"@[4] == 'r',
        "max_risk"@[5] == 'i',
        "max_risk"@[6] == 's',
        "max_risk"@[7] == 'k',
        "max_score"@.len() == 9,
        "max_score"@[0] == 'm',
        "max_score"@[1] == 'a',
        "max_score"@[2] == 'x',
        "max_score"@[3] == '_',
        "max_score"@[4] == 's',
        "max_score"@[5] == 'c',
        "max_score"@[6] == 'o',
        "max_score"@[7] == 'r',
        "max_score"@[8] == 'e',
        "name"@.len() == 4,
        "name"@[0] == 'n',
        "name"@[1] == 'a',
        "name"@[2] == 'm',
        "name"@[3] == 'e',
        "params"@.len() == 6,
        "params"@[0] == 'p',
        "params"@[1] == 'a',
        "params"@[2] == 'r',
        "params"@[3] == 'a',
        "params"@[4] == 'm',
        "params"@[5] == 's',
        "results"@.len() == 7,
        "results"@[0] == 'r',
        "results"@[1] == 'e',
        "results"@[2] == 's',
        "results"@[3] == 'u',
        "results"@[4] == 'l',
        "results"@[5] == 't',
        "results"@[6] == 's',
        "functions"@.len() == 9,
        "functions"@[0] == 'f',
        "functions"@[1] == 'u',
        "functions"@[2] == 'n',
        "functions"@[3] == 'c',
        "functions"@[4] == 't',
        "functions"@[5] == 'i',
        "functions"@[6] == 'o',
        "functions"@[7] == 'n',
        "functions"@[8] == 's',
        "low"@.len() == 3,
        "low"@[0] == 'l',
        "low"@[1] == 'o',
        "low"@[2] == 'w',
        "medium"@.len() == 6,
        "medium"@[0] == 'm',
        "medium"@[1] == 'e',
        "medium"@[2] == 'd',
        "medium"@[3] == 'i',
        "medium"@[4] == 'u',
        "medium"@[5] == 'm',
        "high"@.len() == 4,
        "high"@[0] == 'h',
        "high"@[1] == 'i',
        "high"@[2] == 'g',
        "high"@[3] == 'h',
{
    reveal_strlit("validate");
    reveal_strlit("url");
    reveal_strlit("allow_wasi");
    reveal_strlit("imports");
    reveal_strlit("exports");
    reveal_strlit("size");
    reveal_strlit("complexity");
    reveal_strlit("include");
    reveal_strlit("exclude");
    reveal_strlit("namespace");
    reveal_strlit("max");
    reveal_strlit("max_risk");
    reveal_strlit("max_score");
    reveal_strlit("name");
    reveal_strlit("params");
    reveal_strlit("results");
    reveal_strlit("functions");
    reveal_strlit("low");
    reveal_strlit("medium");
    reveal_strlit("high");
}

} // verus!
