//! The schema is strict: a tree that is read as a policy document holds no
//! key that the schema does not declare, in none of its mappings at
//! whatever depth.

use crate::document::{
    check_value, declared, exports_value, field, function_items_of, import_items_of,
    imports_value, key_of, keys_fault, namespace_item_value, namespace_items_of,
    namespace_value, optional_function_items_at, optional_import_items_at,
    optional_namespace_items_at, validation_value, EntryView, Group, NodeView,
};
use vstd::prelude::*;

verus! {

/// Every key of a mapping is a string that the schema declares for it.
/// Of a node that is no mapping this holds for lack of keys.
pub open spec fn only_declared(node: NodeView, group: Group) -> bool {
    match node {
        NodeView::Table(entries) => forall|i: int|
            0 <= i < entries.len() ==> match key_of(#[trigger] entries[i]) {
                Some(key) => declared(group, key),
                None => false,
            },
        _ => true,
    }
}

/// What stands at a key of a mapping; nothing where the node is no mapping
/// or has no such key.
pub open spec fn child(node: NodeView, name: Seq<char>) -> NodeView {
    match node {
        NodeView::Table(entries) => match field(entries, name) {
            Some(v) => v,
            None => NodeView::Null,
        },
        _ => NodeView::Null,
    }
}

/// The nodes of a list; none where the node is no list.
pub open spec fn elements(node: NodeView) -> Seq<NodeView> {
    match node {
        NodeView::List(items) => items,
        _ => Seq::empty(),
    }
}

/// Every mapping in a list holds only keys that are declared for it.
pub open spec fn items_strict(list: NodeView, group: Group) -> bool {
    forall|i: int|
        0 <= i < elements(list).len() ==> only_declared(#[trigger] elements(list)[i], group)
}

/// Every namespace item of a list, and every function item that one of
/// them holds at `functions`, holds only keys that are declared for it.
pub open spec fn namespace_items_strict(list: NodeView) -> bool {
    forall|i: int|
        0 <= i < elements(list).len() ==> only_declared(
            #[trigger] elements(list)[i],
            Group::NamespaceItem,
        ) && items_strict(child(elements(list)[i], "functions"@), Group::FunctionItem)
}

/// No mapping of a policy document, at whatever depth, holds a key that
/// the schema does not declare for it.
pub open spec fn strict(document: NodeView) -> bool {
    let check = child(document, "validate"@);
    let imports = child(check, "imports"@);
    let namespace = child(imports, "namespace"@);
    let exports = child(check, "exports"@);
    &&& only_declared(document, Group::Validation)
    &&& only_declared(check, Group::Check)
    &&& only_declared(imports, Group::Imports)
    &&& items_strict(child(imports, "include"@), Group::ImportItem)
    &&& items_strict(child(imports, "exclude"@), Group::ImportItem)
    &&& only_declared(namespace, Group::Namespace)
    &&& namespace_items_strict(child(namespace, "include"@))
    &&& namespace_items_strict(child(namespace, "exclude"@))
    &&& only_declared(exports, Group::Exports)
    &&& items_strict(child(exports, "include"@), Group::FunctionItem)
    &&& items_strict(child(exports, "exclude"@), Group::FunctionItem)
    &&& only_declared(child(check, "size"@), Group::Size)
    &&& only_declared(child(check, "complexity"@), Group::Complexity)
}

/// A mapping whose keys are without fault holds only declared keys.
pub proof fn lemma_faultless_keys_are_declared(entries: Seq<EntryView>, n: int, group: Group)
    requires
        0 <= n <= entries.len(),
        keys_fault(entries, n, group) is None,
    ensures
        forall|i: int|
            0 <= i < n ==> match key_of(#[trigger] entries[i]) {
                Some(key) => declared(group, key),
                None => false,
            },
    decreases n,
{
    if n > 0 {
        lemma_faultless_keys_are_declared(entries, n - 1, group);
    }
}

/// A mapping with a key that is no string, or that the schema does not
/// declare for it, has faulty keys.
pub proof fn lemma_undeclared_key_is_a_fault(entries: Seq<EntryView>, i: int, group: Group)
    requires
        0 <= i < entries.len(),
        match key_of(entries[i]) {
            Some(key) => !declared(group, key),
            None => true,
        },
    ensures
        keys_fault(entries, entries.len() as int, group) is Some,
{
    if keys_fault(entries, entries.len() as int, group) is None {
        lemma_faultless_keys_are_declared(entries, entries.len() as int, group);
    }
}

proof fn lemma_function_items_strict(items: Seq<NodeView>)
    requires
        function_items_of(items) is Ok,
    ensures
        forall|i: int|
            0 <= i < items.len() ==> only_declared(#[trigger] items[i], Group::FunctionItem),
    decreases items.len(),
{
    if items.len() > 0 {
        lemma_function_items_strict(items.drop_last());
        let last = items.last();
        if let NodeView::Table(entries) = last {
            lemma_faultless_keys_are_declared(entries, entries.len() as int, Group::FunctionItem);
        }
        assert forall|i: int| 0 <= i < items.len() implies only_declared(
            #[trigger] items[i],
            Group::FunctionItem,
        ) by {
            if i < items.len() - 1 {
                assert(items[i] == items.drop_last()[i]);
            }
        }
    }
}

proof fn lemma_import_items_strict(items: Seq<NodeView>)
    requires
        import_items_of(items) is Ok,
    ensures
        forall|i: int|
            0 <= i < items.len() ==> only_declared(#[trigger] items[i], Group::ImportItem),
    decreases items.len(),
{
    if items.len() > 0 {
        lemma_import_items_strict(items.drop_last());
        let last = items.last();
        if let NodeView::Table(entries) = last {
            lemma_faultless_keys_are_declared(entries, entries.len() as int, Group::ImportItem);
        }
        assert forall|i: int| 0 <= i < items.len() implies only_declared(
            #[trigger] items[i],
            Group::ImportItem,
        ) by {
            if i < items.len() - 1 {
                assert(items[i] == items.drop_last()[i]);
            }
        }
    }
}

proof fn lemma_namespace_item_strict(item: NodeView)
    requires
        namespace_item_value(item) is Ok,
    ensures
        only_declared(item, Group::NamespaceItem),
        items_strict(child(item, "functions"@), Group::FunctionItem),
{
    if let NodeView::Table(entries) = item {
        lemma_faultless_keys_are_declared(entries, entries.len() as int, Group::NamespaceItem);
        if let Some(list) = field(entries, "functions"@) {
            if let NodeView::List(functions) = list {
                lemma_function_items_strict(functions);
            }
        }
    }
}

proof fn lemma_namespace_items_strict(items: Seq<NodeView>)
    requires
        namespace_items_of(items) is Ok,
    ensures
        forall|i: int|
            0 <= i < items.len() ==> only_declared(#[trigger] items[i], Group::NamespaceItem)
                && items_strict(child(items[i], "functions"@), Group::FunctionItem),
    decreases items.len(),
{
    if items.len() > 0 {
        lemma_namespace_items_strict(items.drop_last());
        lemma_namespace_item_strict(items.last());
        assert forall|i: int| 0 <= i < items.len() implies only_declared(
            #[trigger] items[i],
            Group::NamespaceItem,
        ) && items_strict(child(items[i], "functions"@), Group::FunctionItem) by {
            if i < items.len() - 1 {
                assert(items[i] == items.drop_last()[i]);
            }
        }
    }
}

proof fn lemma_optional_function_items_strict(entries: Seq<EntryView>, name: Seq<char>)
    requires
        optional_function_items_at(entries, name) is Ok,
    ensures
        items_strict(child(NodeView::Table(entries), name), Group::FunctionItem),
{
    if let Some(NodeView::List(items)) = field(entries, name) {
        lemma_function_items_strict(items);
    }
}

proof fn lemma_optional_import_items_strict(entries: Seq<EntryView>, name: Seq<char>)
    requires
        optional_import_items_at(entries, name) is Ok,
    ensures
        items_strict(child(NodeView::Table(entries), name), Group::ImportItem),
{
    if let Some(NodeView::List(items)) = field(entries, name) {
        lemma_import_items_strict(items);
    }
}

proof fn lemma_optional_namespace_items_strict(entries: Seq<EntryView>, name: Seq<char>)
    requires
        optional_namespace_items_at(entries, name) is Ok,
    ensures
        namespace_items_strict(child(NodeView::Table(entries), name)),
{
    if let Some(NodeView::List(items)) = field(entries, name) {
        lemma_namespace_items_strict(items);
    }
}

proof fn lemma_namespace_strict(node: NodeView)
    requires
        node is Null || namespace_value(node) is Ok,
    ensures
        only_declared(node, Group::Namespace),
        namespace_items_strict(child(node, "include"@)),
        namespace_items_strict(child(node, "exclude"@)),
{
    if let NodeView::Table(entries) = node {
        lemma_faultless_keys_are_declared(entries, entries.len() as int, Group::Namespace);
        lemma_optional_namespace_items_strict(entries, "include"@);
        lemma_optional_namespace_items_strict(entries, "exclude"@);
    }
}

proof fn lemma_imports_strict(node: NodeView)
    requires
        node is Null || imports_value(node) is Ok,
    ensures
        only_declared(node, Group::Imports),
        items_strict(child(node, "include"@), Group::ImportItem),
        items_strict(child(node, "exclude"@), Group::ImportItem),
        only_declared(child(node, "namespace"@), Group::Namespace),
        namespace_items_strict(child(child(node, "namespace"@), "include"@)),
        namespace_items_strict(child(child(node, "namespace"@), "exclude"@)),
{
    if let NodeView::Table(entries) = node {
        lemma_faultless_keys_are_declared(entries, entries.len() as int, Group::Imports);
        lemma_optional_import_items_strict(entries, "include"@);
        lemma_optional_import_items_strict(entries, "exclude"@);
        lemma_namespace_strict(child(node, "namespace"@));
    } else {
        lemma_namespace_strict(NodeView::Null);
    }
}

proof fn lemma_exports_strict(node: NodeView)
    requires
        node is Null || exports_value(node) is Ok,
    ensures
        only_declared(node, Group::Exports),
        items_strict(child(node, "include"@), Group::FunctionItem),
        items_strict(child(node, "exclude"@), Group::FunctionItem),
{
    if let NodeView::Table(entries) = node {
        lemma_faultless_keys_are_declared(entries, entries.len() as int, Group::Exports);
        lemma_optional_function_items_strict(entries, "include"@);
        lemma_optional_function_items_strict(entries, "exclude"@);
    }
}

proof fn lemma_check_strict(check: NodeView)
    requires
        check_value(check) is Ok,
    ensures
        only_declared(check, Group::Check),
        only_declared(child(check, "imports"@), Group::Imports),
        items_strict(child(child(check, "imports"@), "include"@), Group::ImportItem),
        items_strict(child(child(check, "imports"@), "exclude"@), Group::ImportItem),
        only_declared(child(child(check, "imports"@), "namespace"@), Group::Namespace),
        namespace_items_strict(child(child(child(check, "imports"@), "namespace"@), "include"@)),
        namespace_items_strict(child(child(child(check, "imports"@), "namespace"@), "exclude"@)),
        only_declared(child(check, "exports"@), Group::Exports),
        items_strict(child(child(check, "exports"@), "include"@), Group::FunctionItem),
        items_strict(child(child(check, "exports"@), "exclude"@), Group::FunctionItem),
        only_declared(child(check, "size"@), Group::Size),
        only_declared(child(check, "complexity"@), Group::Complexity),
{
    let entries = check->Table_0;
    lemma_faultless_keys_are_declared(entries, entries.len() as int, Group::Check);
    lemma_imports_strict(child(check, "imports"@));
    lemma_exports_strict(child(check, "exports"@));
    if let NodeView::Table(size) = child(check, "size"@) {
        lemma_faultless_keys_are_declared(size, size.len() as int, Group::Size);
    }
    if let NodeView::Table(complexity) = child(check, "complexity"@) {
        lemma_faultless_keys_are_declared(complexity, complexity.len() as int, Group::Complexity);
    }
}

/// A tree that is read as a policy document holds no key that the schema
/// does not declare, in none of its mappings at whatever depth. Put the
/// other way round: one undeclared key anywhere makes the document fail.
pub proof fn lemma_documents_are_strict(document: NodeView)
    requires
        validation_value(document) is Ok,
    ensures
        strict(document),
{
    let entries = document->Table_0;
    lemma_faultless_keys_are_declared(entries, entries.len() as int, Group::Validation);
    lemma_check_strict(child(document, "validate"@));
}

} // verus!
