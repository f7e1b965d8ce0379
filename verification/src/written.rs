//! Policies as trees: what a policy is written out as, group by group, so
//! that the schema reads it back as it was.

use crate::document::{lemma_keys_spelled, EntryView, Node, NodeView};
use crate::module::ValType;
use crate::policy::{
    Check, CheckView, Complexity, Exports, ExportsView, FunctionItem, FunctionItemView,
    ImportItem, ImportItemView, Imports, ImportsView, Namespace, NamespaceItem,
    NamespaceItemView, NamespaceView, Size, SizeView, Validation, ValidationView,
};
use crate::yaml::{
    content, distinct_keys, made_contents, made_entries, make, node_of, text_keys, Parts,
};
use vstd::prelude::*;

verus! {

/// The entries of a mapping with one more at the end, where there is a
/// value to put there.
pub open spec fn with_entry(
    entries: Seq<EntryView>,
    key: Seq<char>,
    value: Option<NodeView>,
) -> Seq<EntryView> {
    match value {
        Some(v) => entries.push(EntryView { key: NodeView::Text(key), value: v }),
        None => entries,
    }
}

/// A string at an optional place.
pub open spec fn text_tree(text: Option<Seq<char>>) -> Option<NodeView> {
    match text {
        Some(t) => Some(NodeView::Text(t)),
        None => None,
    }
}

/// A list of value types as the list of their names.
pub open spec fn types_tree(types: Seq<ValType>) -> NodeView {
    NodeView::List(types.map_values(|t: ValType| NodeView::Text(t.name())))
}

/// A list of value types at an optional place.
pub open spec fn optional_types_tree(types: Option<Seq<ValType>>) -> Option<NodeView> {
    match types {
        Some(t) => Some(types_tree(t)),
        None => None,
    }
}

/// A function item as a tree: a bare name as a string, and a detailed
/// item as a mapping of what it states.
pub open spec fn function_item_tree(item: FunctionItemView) -> NodeView {
    match item {
        FunctionItemView::Name(name) => NodeView::Text(name),
        FunctionItemView::Item { name, params, results } => NodeView::Table(
            with_entry(
                with_entry(
                    with_entry(Seq::empty(), "name"@, Some(NodeView::Text(name))),
                    "params"@,
                    optional_types_tree(params),
                ),
                "results"@,
                optional_types_tree(results),
            ),
        ),
    }
}

/// An import item as a tree.
pub open spec fn import_item_tree(item: ImportItemView) -> NodeView {
    match item {
        ImportItemView::Name(name) => NodeView::Text(name),
        ImportItemView::Item { namespace, name, params, results } => NodeView::Table(
            with_entry(
                with_entry(
                    with_entry(
                        with_entry(Seq::empty(), "namespace"@, text_tree(namespace)),
                        "name"@,
                        Some(NodeView::Text(name)),
                    ),
                    "params"@,
                    optional_types_tree(params),
                ),
                "results"@,
                optional_types_tree(results),
            ),
        ),
    }
}

/// A list of function items as a tree.
pub open spec fn function_items_tree(items: Seq<FunctionItemView>) -> NodeView {
    NodeView::List(items.map_values(|i: FunctionItemView| function_item_tree(i)))
}

/// A list of import items as a tree.
pub open spec fn import_items_tree(items: Seq<ImportItemView>) -> NodeView {
    NodeView::List(items.map_values(|i: ImportItemView| import_item_tree(i)))
}

/// A namespace item as a tree.
pub open spec fn namespace_item_tree(item: NamespaceItemView) -> NodeView {
    match item {
        NamespaceItemView::Name(name) => NodeView::Text(name),
        NamespaceItemView::Item { name, functions } => NodeView::Table(
            with_entry(
                with_entry(Seq::empty(), "name"@, Some(NodeView::Text(name))),
                "functions"@,
                Some(function_items_tree(functions)),
            ),
        ),
    }
}

/// A list of namespace items as a tree.
pub open spec fn namespace_items_tree(items: Seq<NamespaceItemView>) -> NodeView {
    NodeView::List(items.map_values(|i: NamespaceItemView| namespace_item_tree(i)))
}

/// The rules on namespaces as a tree.
pub open spec fn namespace_tree(rules: NamespaceView) -> NodeView {
    NodeView::Table(
        with_entry(
            with_entry(
                Seq::empty(),
                "include"@,
                match rules.included {
                    Some(items) => Some(namespace_items_tree(items)),
                    None => None,
                },
            ),
            "exclude"@,
            match rules.exclude {
                Some(items) => Some(namespace_items_tree(items)),
                None => None,
            },
        ),
    )
}

/// The rules on imports as a tree.
pub open spec fn imports_tree(rules: ImportsView) -> NodeView {
    NodeView::Table(
        with_entry(
            with_entry(
                with_entry(
                    Seq::empty(),
                    "include"@,
                    match rules.included {
                        Some(items) => Some(import_items_tree(items)),
                        None => None,
                    },
                ),
                "exclude"@,
                match rules.exclude {
                    Some(items) => Some(import_items_tree(items)),
                    None => None,
                },
            ),
            "namespace"@,
            match rules.namespace {
                Some(namespace) => Some(namespace_tree(namespace)),
                None => None,
            },
        ),
    )
}

/// A number as a tree: its decimal digits.
pub open spec fn count_tree(n: Option<u32>) -> Option<NodeView> {
    match n {
        Some(n) => Some(NodeView::Number(crate::text::decimal(n as nat))),
        None => None,
    }
}

/// The rules on exports as a tree.
pub open spec fn exports_tree(rules: ExportsView) -> NodeView {
    NodeView::Table(
        with_entry(
            with_entry(
                with_entry(
                    Seq::empty(),
                    "include"@,
                    match rules.included {
                        Some(items) => Some(function_items_tree(items)),
                        None => None,
                    },
                ),
                "exclude"@,
                match rules.exclude {
                    Some(items) => Some(function_items_tree(items)),
                    None => None,
                },
            ),
            "max"@,
            count_tree(rules.max),
        ),
    )
}

/// The rule on the size as a tree.
pub open spec fn size_tree(rule: SizeView) -> NodeView {
    NodeView::Table(with_entry(Seq::empty(), "max"@, text_tree(rule.max)))
}

/// The bound on the complexity as a tree.
pub open spec fn complexity_tree(rule: Complexity) -> NodeView {
    NodeView::Table(
        with_entry(
            with_entry(
                Seq::empty(),
                "max_risk"@,
                match rule.max_risk {
                    Some(risk) => Some(NodeView::Text(risk.name())),
                    None => None,
                },
            ),
            "max_score"@,
            count_tree(rule.max_score),
        ),
    )
}

/// The rule groups of a policy as a tree: a mapping with an entry for each
/// group that the policy has, in the order `url`, `allow_wasi`, `imports`,
/// `exports`, `size`, `complexity`.
pub open spec fn check_tree(check: CheckView) -> NodeView {
    NodeView::Table(
        with_entry(
            with_entry(
                with_entry(
                    with_entry(
                        with_entry(
                            with_entry(Seq::empty(), "url"@, text_tree(check.url)),
                            "allow_wasi"@,
                            match check.allow_wasi {
                                Some(b) => Some(NodeView::Bool(b)),
                                None => None,
                            },
                        ),
                        "imports"@,
                        match check.imports {
                            Some(rules) => Some(imports_tree(rules)),
                            None => None,
                        },
                    ),
                    "exports"@,
                    match check.exports {
                        Some(rules) => Some(exports_tree(rules)),
                        None => None,
                    },
                ),
                "size"@,
                match check.size {
                    Some(rule) => Some(size_tree(rule)),
                    None => None,
                },
            ),
            "complexity"@,
            match check.complexity {
                Some(rule) => Some(complexity_tree(rule)),
                None => None,
            },
        ),
    )
}

/// A policy document as a tree: a mapping with the rule groups at
/// `validate`.
pub open spec fn validation_tree(validation: ValidationView) -> NodeView {
    NodeView::Table(
        with_entry(Seq::empty(), "validate"@, Some(check_tree(validation.validate))),
    )
}

/// No entry stands at the key.
pub open spec fn free(entries: Seq<EntryView>, key: Seq<char>) -> bool {
    forall|j: int| 0 <= j < entries.len() ==> (#[trigger] entries[j]).key != NodeView::Text(key)
}

/// What an optional value holds.
pub open spec fn optional_content(value: Option<serde_yaml::Value>) -> Option<NodeView> {
    match value {
        Some(v) => Some(content(v)),
        None => None,
    }
}

fn put(
    entries: &mut Vec<(serde_yaml::Value, serde_yaml::Value)>,
    key: &str,
    value: Option<serde_yaml::Value>,
)
    requires
        text_keys(made_entries(old(entries)@)),
        distinct_keys(made_entries(old(entries)@)),
        free(made_entries(old(entries)@), key@),
    ensures
        made_entries(final(entries)@) == with_entry(
            made_entries(old(entries)@),
            key@,
            optional_content(value),
        ),
        text_keys(made_entries(final(entries)@)),
        distinct_keys(made_entries(final(entries)@)),
        forall|other: Seq<char>|
            other != key@ && free(made_entries(old(entries)@), other) ==> #[trigger] free(
                made_entries(final(entries)@),
                other,
            ),
{
    if let Some(v) = value {
        let ghost before = made_entries(entries@);
        let ghost held = content(v);
        let k = make(Parts::Text(String::from_str(key)));
        entries.push((k, v));
        let ghost now = made_entries(entries@);
        assert(now =~= before.push(EntryView { key: NodeView::Text(key@), value: held }));
        assert forall|i: int| 0 <= i < now.len() implies (#[trigger] now[i]).key is Text by {
            if i < before.len() {
                assert(now[i] == before[i]);
            }
        }
        assert forall|i: int, j: int| 0 <= i < j < now.len() implies (#[trigger] now[i]).key != (
        #[trigger] now[j]).key by {
            if j < before.len() {
                assert(now[i] == before[i] && now[j] == before[j]);
            } else {
                assert(now[i] == before[i]);
            }
        }
        assert forall|other: Seq<char>| other != key@ && free(before, other) implies #[trigger] free(
            now,
            other,
        ) by {
            assert forall|j: int| 0 <= j < now.len() implies (#[trigger] now[j]).key
                != NodeView::Text(other) by {
                if j < before.len() {
                    assert(now[j] == before[j]);
                }
            }
        }
    }
}

fn start() -> (r: Vec<(serde_yaml::Value, serde_yaml::Value)>)
    ensures
        made_entries(r@) == Seq::<EntryView>::empty(),
        text_keys(made_entries(r@)),
        distinct_keys(made_entries(r@)),
        forall|key: Seq<char>| #[trigger] free(made_entries(r@), key),
{
    let r: Vec<(serde_yaml::Value, serde_yaml::Value)> = Vec::new();
    assert(made_entries(r@) =~= Seq::<EntryView>::empty());
    r
}

fn table(entries: Vec<(serde_yaml::Value, serde_yaml::Value)>) -> (r: serde_yaml::Value)
    requires
        text_keys(made_entries(entries@)),
        distinct_keys(made_entries(entries@)),
    ensures
        content(r) == NodeView::Table(made_entries(entries@)),
{
    make(Parts::Table(entries))
}

fn list(items: Vec<serde_yaml::Value>) -> (r: serde_yaml::Value)
    ensures
        content(r) == NodeView::List(made_contents(items@)),
{
    make(Parts::List(items))
}

fn text_value(text: &str) -> (r: serde_yaml::Value)
    ensures
        content(r) == NodeView::Text(text@),
{
    make(Parts::Text(String::from_str(text)))
}

fn optional_text_value(text: &Option<String>) -> (r: Option<serde_yaml::Value>)
    ensures
        optional_content(r) == text_tree(crate::policy::optional_text(*text)),
{
    match text {
        Some(t) => Some(text_value(t.as_str())),
        None => None,
    }
}

fn count_value(n: Option<u32>) -> (r: Option<serde_yaml::Value>)
    ensures
        optional_content(r) == count_tree(n),
{
    match n {
        Some(n) => Some(make(Parts::Number(n as u64))),
        None => None,
    }
}

fn types_value(types: &Vec<ValType>) -> (r: serde_yaml::Value)
    ensures
        content(r) == types_tree(types@),
{
    let mut items: Vec<serde_yaml::Value> = Vec::new();
    let mut i: usize = 0;
    while i < types.len()
        invariant
            i <= types@.len(),
            items@.len() == i,
            forall|j: int|
                0 <= j < i ==> content(#[trigger] items@[j]) == NodeView::Text(types@[j].name()),
        decreases types@.len() - i,
    {
        items.push(text_value(types[i].as_str()));
        i += 1;
    }
    assert(made_contents(items@) =~= types@.map_values(|t: ValType| NodeView::Text(t.name())));
    list(items)
}

fn optional_types_value(types: &Option<Vec<ValType>>) -> (r: Option<serde_yaml::Value>)
    ensures
        optional_content(r) == optional_types_tree(crate::policy::optional_types(*types)),
{
    match types {
        Some(t) => Some(types_value(t)),
        None => None,
    }
}

fn function_item_value(item: &FunctionItem) -> (r: serde_yaml::Value)
    ensures
        content(r) == function_item_tree(item@),
{
    match item {
        FunctionItem::Name(name) => text_value(name.as_str()),
        FunctionItem::Item { name, params, results } => {
            proof {
                lemma_keys_spelled();
            }
            let mut entries = start();
            put(&mut entries, "name", Some(text_value(name.as_str())));
            put(&mut entries, "params", optional_types_value(params));
            put(&mut entries, "results", optional_types_value(results));
            table(entries)
        },
    }
}

fn import_item_value(item: &ImportItem) -> (r: serde_yaml::Value)
    ensures
        content(r) == import_item_tree(item@),
{
    match item {
        ImportItem::Name(name) => text_value(name.as_str()),
        ImportItem::Item { namespace, name, params, results } => {
            proof {
                lemma_keys_spelled();
            }
            let mut entries = start();
            put(&mut entries, "namespace", optional_text_value(namespace));
            put(&mut entries, "name", Some(text_value(name.as_str())));
            put(&mut entries, "params", optional_types_value(params));
            put(&mut entries, "results", optional_types_value(results));
            table(entries)
        },
    }
}

fn function_items_value(items: &[FunctionItem]) -> (r: serde_yaml::Value)
    ensures
        content(r) == function_items_tree(crate::policy::function_items(items@)),
{
    let mut values: Vec<serde_yaml::Value> = Vec::new();
    let mut i: usize = 0;
    while i < items.len()
        invariant
            i <= items@.len(),
            values@.len() == i,
            forall|j: int|
                0 <= j < i ==> content(#[trigger] values@[j]) == function_item_tree(items@[j]@),
        decreases items@.len() - i,
    {
        values.push(function_item_value(&items[i]));
        i += 1;
    }
    assert(made_contents(values@) =~= crate::policy::function_items(items@).map_values(
        |i: FunctionItemView| function_item_tree(i),
    ));
    list(values)
}

fn import_items_value(items: &Vec<ImportItem>) -> (r: serde_yaml::Value)
    ensures
        content(r) == import_items_tree(crate::policy::import_items(items@)),
{
    let mut values: Vec<serde_yaml::Value> = Vec::new();
    let mut i: usize = 0;
    while i < items.len()
        invariant
            i <= items@.len(),
            values@.len() == i,
            forall|j: int|
                0 <= j < i ==> content(#[trigger] values@[j]) == import_item_tree(items@[j]@),
        decreases items@.len() - i,
    {
        values.push(import_item_value(&items[i]));
        i += 1;
    }
    assert(made_contents(values@) =~= crate::policy::import_items(items@).map_values(
        |i: ImportItemView| import_item_tree(i),
    ));
    list(values)
}

fn namespace_item_value(item: &NamespaceItem) -> (r: serde_yaml::Value)
    ensures
        content(r) == namespace_item_tree(item@),
{
    match item {
        NamespaceItem::Name(name) => text_value(name.as_str()),
        NamespaceItem::Item { name, functions } => {
            proof {
                lemma_keys_spelled();
            }
            let mut entries = start();
            put(&mut entries, "name", Some(text_value(name.as_str())));
            put(&mut entries, "functions", Some(function_items_value(functions.as_slice())));
            table(entries)
        },
    }
}

fn namespace_items_value(items: &Vec<NamespaceItem>) -> (r: serde_yaml::Value)
    ensures
        content(r) == namespace_items_tree(crate::policy::namespace_items(items@)),
{
    let mut values: Vec<serde_yaml::Value> = Vec::new();
    let mut i: usize = 0;
    while i < items.len()
        invariant
            i <= items@.len(),
            values@.len() == i,
            forall|j: int|
                0 <= j < i ==> content(#[trigger] values@[j]) == namespace_item_tree(items@[j]@),
        decreases items@.len() - i,
    {
        values.push(namespace_item_value(&items[i]));
        i += 1;
    }
    assert(made_contents(values@) =~= crate::policy::namespace_items(items@).map_values(
        |i: NamespaceItemView| namespace_item_tree(i),
    ));
    list(values)
}

fn namespace_value(rules: &Namespace) -> (r: serde_yaml::Value)
    ensures
        content(r) == namespace_tree(rules@),
{
    proof {
        lemma_keys_spelled();
    }
    let mut entries = start();
    put(
        &mut entries,
        "include",
        match &rules.included {
            Some(items) => Some(namespace_items_value(items)),
            None => None,
        },
    );
    put(
        &mut entries,
        "exclude",
        match &rules.exclude {
            Some(items) => Some(namespace_items_value(items)),
            None => None,
        },
    );
    table(entries)
}

fn imports_value(rules: &Imports) -> (r: serde_yaml::Value)
    ensures
        content(r) == imports_tree(rules@),
{
    proof {
        lemma_keys_spelled();
    }
    let mut entries = start();
    put(
        &mut entries,
        "include",
        match &rules.included {
            Some(items) => Some(import_items_value(items)),
            None => None,
        },
    );
    put(
        &mut entries,
        "exclude",
        match &rules.exclude {
            Some(items) => Some(import_items_value(items)),
            None => None,
        },
    );
    put(
        &mut entries,
        "namespace",
        match &rules.namespace {
            Some(namespace) => Some(namespace_value(namespace)),
            None => None,
        },
    );
    table(entries)
}

fn exports_value(rules: &Exports) -> (r: serde_yaml::Value)
    ensures
        content(r) == exports_tree(rules@),
{
    proof {
        lemma_keys_spelled();
    }
    let mut entries = start();
    put(
        &mut entries,
        "include",
        match &rules.included {
            Some(items) => Some(function_items_value(items.as_slice())),
            None => None,
        },
    );
    put(
        &mut entries,
        "exclude",
        match &rules.exclude {
            Some(items) => Some(function_items_value(items.as_slice())),
            None => None,
        },
    );
    put(&mut entries, "max", count_value(rules.max));
    table(entries)
}

fn size_value(rule: &Size) -> (r: serde_yaml::Value)
    ensures
        content(r) == size_tree(rule@),
{
    let mut entries = start();
    put(&mut entries, "max", optional_text_value(&rule.max));
    table(entries)
}

fn complexity_value(rule: &Complexity) -> (r: serde_yaml::Value)
    ensures
        content(r) == complexity_tree(*rule),
{
    proof {
        lemma_keys_spelled();
    }
    let mut entries = start();
    put(
        &mut entries,
        "max_risk",
        match rule.max_risk {
            Some(risk) => Some(text_value(risk.as_str())),
            None => None,
        },
    );
    put(&mut entries, "max_score", count_value(rule.max_score));
    table(entries)
}

impl Check {
    /// The rule groups as a YAML value, with an entry for each group that
    /// the policy has.
    pub fn to_value(&self) -> (r: serde_yaml::Value)
        ensures
            content(r) == check_tree(self@),
    {
        proof {
            lemma_keys_spelled();
        }
        let mut entries = start();
        put(&mut entries, "url", optional_text_value(&self.url));
        put(
            &mut entries,
            "allow_wasi",
            match self.allow_wasi {
                Some(b) => Some(make(Parts::Bool(b))),
                None => None,
            },
        );
        put(
            &mut entries,
            "imports",
            match &self.imports {
                Some(rules) => Some(imports_value(rules)),
                None => None,
            },
        );
        put(
            &mut entries,
            "exports",
            match &self.exports {
                Some(rules) => Some(exports_value(rules)),
                None => None,
            },
        );
        put(
            &mut entries,
            "size",
            match &self.size {
                Some(rule) => Some(size_value(rule)),
                None => None,
            },
        );
        put(
            &mut entries,
            "complexity",
            match &self.complexity {
                Some(rule) => Some(complexity_value(rule)),
                None => None,
            },
        );
        table(entries)
    }

    /// The rule groups as a tree.
    pub fn to_tree(&self) -> (r: Node)
        ensures
            r@ == check_tree(self@),
    {
        node_of(&self.to_value())
    }
}

impl Validation {
    /// The policy document as a YAML value.
    pub fn to_value(&self) -> (r: serde_yaml::Value)
        ensures
            content(r) == validation_tree(self@),
    {
        let mut entries = start();
        put(&mut entries, "validate", Some(self.validate.to_value()));
        table(entries)
    }

    /// The policy document as a tree.
    pub fn to_tree(&self) -> (r: Node)
        ensures
            r@ == validation_tree(self@),
    {
        node_of(&self.to_value())
    }
}

} // verus!
