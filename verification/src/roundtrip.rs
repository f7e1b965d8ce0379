//! The schema reads back what is written by it: a policy that is put into
//! a tree and read off that tree again is the policy that it was.

use crate::document::{
    lemma_keys_spelled,
    check_value, complexity_value, count_value, declared, exports_value, field,
    function_item_value, function_items_value, import_item_value, imports_value, key_fault,
    key_of, keys_fault, namespace_item_value, namespace_value, seen_before, size_group_value,
    type_named, types_value, validation_value, EntryView, Group, NodeView, SchemaError,
};
use crate::module::ValType;
use crate::number::lemma_decimal_is_read_back;
use crate::policy::{
    CheckView, Complexity, ExportsView, FunctionItemView, ImportItemView, ImportsView,
    NamespaceItemView, NamespaceView, SizeView, ValidationView,
};
use crate::written::{
    check_tree, complexity_tree, count_tree, exports_tree, function_item_tree,
    function_items_tree, import_item_tree, import_items_tree, imports_tree, namespace_item_tree,
    namespace_items_tree, namespace_tree, optional_types_tree, size_tree, text_tree, types_tree,
    validation_tree, with_entry,
};
use vstd::prelude::*;
use vstd::string::*;

verus! {

/// No entry of a mapping has the key.
pub open spec fn unused(entries: Seq<EntryView>, key: Seq<char>) -> bool {
    forall|j: int| 0 <= j < entries.len() ==> key_of(#[trigger] entries[j]) != Some(key)
}

proof fn lemma_field_push(entries: Seq<EntryView>, e: EntryView, name: Seq<char>)
    ensures
        field(entries.push(e), name) == match field(entries, name) {
            Some(v) => Some(v),
            None => if key_of(e) == Some(name) {
                Some(e.value)
            } else {
                None
            },
        },
    decreases entries.len(),
{
    if entries.len() == 0 {
        assert(entries.push(e).drop_first() =~= entries);
    } else {
        assert(entries.push(e).drop_first() =~= entries.drop_first().push(e));
        lemma_field_push(entries.drop_first(), e, name);
    }
}

proof fn lemma_field_unused(entries: Seq<EntryView>, name: Seq<char>)
    requires
        unused(entries, name),
    ensures
        field(entries, name) is None,
    decreases entries.len(),
{
    if entries.len() > 0 {
        assert(key_of(entries[0]) != Some(name));
        assert forall|j: int| 0 <= j < entries.drop_first().len() implies key_of(
            #[trigger] entries.drop_first()[j],
        ) != Some(name) by {
            assert(entries.drop_first()[j] == entries[j + 1]);
        }
        lemma_field_unused(entries.drop_first(), name);
    }
}

proof fn lemma_keys_fault_of_prefix(a: Seq<EntryView>, b: Seq<EntryView>, n: int, group: Group)
    requires
        0 <= n <= a.len(),
        n <= b.len(),
        forall|i: int| 0 <= i < n ==> a[i] == b[i],
    ensures
        keys_fault(a, n, group) == keys_fault(b, n, group),
    decreases n,
{
    if n > 0 {
        lemma_keys_fault_of_prefix(a, b, n - 1, group);
        let i = n - 1;
        if let Some(key) = key_of(a[i]) {
            if seen_before(a, i, key) {
                let j = choose|j: int| 0 <= j < i && j < a.len() && key_of(#[trigger] a[j]) == Some(key);
                assert(key_of(b[j]) == Some(key));
            }
            if seen_before(b, i, key) {
                let j = choose|j: int| 0 <= j < i && j < b.len() && key_of(#[trigger] b[j]) == Some(key);
                assert(key_of(a[j]) == Some(key));
            }
        }
        assert(key_fault(a, i, group) == key_fault(b, i, group));
    }
}

/// An entry with a declared key that is not in use yet leaves the keys of
/// a mapping without fault, stands at its key, and leaves what stands at
/// other keys as it was.
proof fn lemma_with_entry(
    entries: Seq<EntryView>,
    key: Seq<char>,
    value: Option<NodeView>,
    group: Group,
)
    requires
        keys_fault(entries, entries.len() as int, group) is None,
        declared(group, key),
        unused(entries, key),
    ensures
        keys_fault(
            with_entry(entries, key, value),
            with_entry(entries, key, value).len() as int,
            group,
        ) is None,
        field(with_entry(entries, key, value), key) == value,
        forall|other: Seq<char>|
            other != key ==> #[trigger] field(with_entry(entries, key, value), other) == field(
                entries,
                other,
            ),
        forall|other: Seq<char>|
            other != key && unused(entries, other) ==> #[trigger] unused(
                with_entry(entries, key, value),
                other,
            ),
{
    lemma_field_unused(entries, key);
    match value {
        Some(v) => {
            let e = EntryView { key: NodeView::Text(key), value: v };
            let now = entries.push(e);
            lemma_keys_fault_of_prefix(now, entries, entries.len() as int, group);
            assert(!seen_before(now, entries.len() as int, key)) by {
                if seen_before(now, entries.len() as int, key) {
                    let j = choose|j: int|
                        0 <= j < entries.len() && j < now.len() && key_of(#[trigger] now[j]) == Some(
                            key,
                        );
                    assert(key_of(entries[j]) == Some(key));
                }
            }
            assert(key_fault(now, entries.len() as int, group) is None);
            lemma_field_push(entries, e, key);
            assert forall|other: Seq<char>| other != key implies #[trigger] field(now, other)
                == field(entries, other) by {
                lemma_field_push(entries, e, other);
            }
            assert forall|other: Seq<char>| other != key && unused(entries, other) implies #[trigger] unused(
                now,
                other,
            ) by {
                assert forall|j: int| 0 <= j < now.len() implies key_of(#[trigger] now[j]) != Some(
                    other,
                ) by {
                    if j < entries.len() {
                        assert(now[j] == entries[j]);
                    }
                }
            }
        },
        None => {},
    }
}

/// How the names of the value types are spelled.
proof fn lemma_types_spelled()
    ensures
        "I32"@.len() == 3,
        "I32"@[0] == 'I',
        "I32"@[1] == '3',
        "I32"@[2] == '2',
        "I64"@.len() == 3,
        "I64"@[0] == 'I',
        "I64"@[1] == '6',
        "I64"@[2] == '4',
        "F32"@.len() == 3,
        "F32"@[0] == 'F',
        "F32"@[1] == '3',
        "F32"@[2] == '2',
        "F64"@.len() == 3,
        "F64"@[0] == 'F',
        "F64"@[1] == '6',
        "F64"@[2] == '4',
        "V128"@.len() == 4,
        "V128"@[0] == 'V',
        "V128"@[1] == '1',
        "V128"@[2] == '2',
        "V128"@[3] == '8',
        "FuncRef"@.len() == 7,
        "FuncRef"@[0] == 'F',
        "FuncRef"@[1] == 'u',
        "FuncRef"@[2] == 'n',
        "FuncRef"@[3] == 'c',
        "FuncRef"@[4] == 'R',
        "FuncRef"@[5] == 'e',
        "FuncRef"@[6] == 'f',
        "ExternRef"@.len() == 9,
        "ExternRef"@[0] == 'E',
        "ExternRef"@[1] == 'x',
        "ExternRef"@[2] == 't',
        "ExternRef"@[3] == 'e',
        "ExternRef"@[4] == 'r',
        "ExternRef"@[5] == 'n',
        "ExternRef"@[6] == 'R',
        "ExternRef"@[7] == 'e',
        "ExternRef"@[8] == 'f',
        "Bool"@.len() == 4,
        "Bool"@[0] == 'B',
        "Bool"@[1] == 'o',
        "Bool"@[2] == 'o',
        "Bool"@[3] == 'l',
        "S8"@.len() == 2,
        "S8"@[0] == 'S',
        "S8"@[1] == '8',
        "U8"@.len() == 2,
        "U8"@[0] == 'U',
        "U8"@[1] == '8',
        "S16"@.len() == 3,
        "S16"@[0] == 'S',
        "S16"@[1] == '1',
        "S16"@[2] == '6',
        "U16"@.len() == 3,
        "U16"@[0] == 'U',
        "U16"@[1] == '1',
        "U16"@[2] == '6',
        "S32"@.len() == 3,
        "S32"@[0] == 'S',
        "S32"@[1] == '3',
        "S32"@[2] == '2',
        "U32"@.len() == 3,
        "U32"@[0] == 'U',
        "U32"@[1] == '3',
        "U32"@[2] == '2',
        "S64"@.len() == 3,
        "S64"@[0] == 'S',
        "S64"@[1] == '6',
        "S64"@[2] == '4',
        "U64"@.len() == 3,
        "U64"@[0] == 'U',
        "U64"@[1] == '6',
        "U64"@[2] == '4',
        "Float32"@.len() == 7,
        "Float32"@[0] == 'F',
        "Float32"@[1] == 'l',
        "Float32"@[2] == 'o',
        "Float32"@[3] == 'a',
        "Float32"@[4] == 't',
        "Float32"@[5] == '3',
        "Float32"@[6] == '2',
        "Float64"@.len() == 7,
        "Float64"@[0] == 'F',
        "Float64"@[1] == 'l',
        "Float64"@[2] == 'o',
        "Float64"@[3] == 'a',
        "Float64"@[4] == 't',
        "Float64"@[5] == '6',
        "Float64"@[6] == '4',
        "Char"@.len() == 4,
        "Char"@[0] == 'C',
        "Char"@[1] == 'h',
        "Char"@[2] == 'a',
        "Char"@[3] == 'r',
        "String"@.len() == 6,
        "String"@[0] == 'S',
        "String"@[1] == 't',
        "String"@[2] == 'r',
        "String"@[3] == 'i',
        "String"@[4] == 'n',
        "String"@[5] == 'g',
{
    reveal_strlit("I32");
    reveal_strlit("I64");
    reveal_strlit("F32");
    reveal_strlit("F64");
    reveal_strlit("V128");
    reveal_strlit("FuncRef");
    reveal_strlit("ExternRef");
    reveal_strlit("Bool");
    reveal_strlit("S8");
    reveal_strlit("U8");
    reveal_strlit("S16");
    reveal_strlit("U16");
    reveal_strlit("S32");
    reveal_strlit("U32");
    reveal_strlit("S64");
    reveal_strlit("U64");
    reveal_strlit("Float32");
    reveal_strlit("Float64");
    reveal_strlit("Char");
    reveal_strlit("String");
}

/// Every value type is known by its own name.
pub proof fn lemma_type_is_named(t: ValType)
    ensures
        type_named(t.name()) == Some(t),
{
    lemma_types_spelled();
}

proof fn lemma_types_round_trip(types: Seq<ValType>)
    ensures
        types_value(types_tree(types)) == Ok::<Seq<ValType>, SchemaError>(types),
    decreases types.len(),
{
    let nodes = types_tree(types)->List_0;
    if types.len() > 0 {
        let shorter = types.drop_last();
        lemma_types_round_trip(shorter);
        assert(nodes.drop_last() =~= types_tree(shorter)->List_0);
        lemma_type_is_named(types.last());
        assert(nodes.last() == NodeView::Text(types.last().name()));
        assert(shorter.push(types.last()) =~= types);
    } else {
        assert(types =~= Seq::<ValType>::empty());
    }
}

proof fn lemma_function_item_round_trip(item: FunctionItemView)
    ensures
        function_item_value(function_item_tree(item)) == Ok::<FunctionItemView, SchemaError>(item),
{
    if let FunctionItemView::Item { name, params, results } = item {
        lemma_keys_spelled();
        let g = Group::FunctionItem;
        let e0 = Seq::<EntryView>::empty();
        let e1 = with_entry(e0, "name"@, Some(NodeView::Text(name)));
        let e2 = with_entry(e1, "params"@, optional_types_tree(params));
        lemma_with_entry(e0, "name"@, Some(NodeView::Text(name)), g);
        lemma_with_entry(e1, "params"@, optional_types_tree(params), g);
        lemma_with_entry(e2, "results"@, optional_types_tree(results), g);
        if let Some(p) = params {
            lemma_types_round_trip(p);
        }
        if let Some(r) = results {
            lemma_types_round_trip(r);
        }
    }
}

proof fn lemma_import_item_round_trip(item: ImportItemView)
    ensures
        import_item_value(import_item_tree(item)) == Ok::<ImportItemView, SchemaError>(item),
{
    if let ImportItemView::Item { namespace, name, params, results } = item {
        lemma_keys_spelled();
        let g = Group::ImportItem;
        let e0 = Seq::<EntryView>::empty();
        let e1 = with_entry(e0, "namespace"@, text_tree(namespace));
        let e2 = with_entry(e1, "name"@, Some(NodeView::Text(name)));
        let e3 = with_entry(e2, "params"@, optional_types_tree(params));
        lemma_with_entry(e0, "namespace"@, text_tree(namespace), g);
        lemma_with_entry(e1, "name"@, Some(NodeView::Text(name)), g);
        lemma_with_entry(e2, "params"@, optional_types_tree(params), g);
        lemma_with_entry(e3, "results"@, optional_types_tree(results), g);
        if let Some(p) = params {
            lemma_types_round_trip(p);
        }
        if let Some(r) = results {
            lemma_types_round_trip(r);
        }
    }
}

proof fn lemma_function_items_round_trip(items: Seq<FunctionItemView>)
    ensures
        function_items_value(function_items_tree(items)) == Ok::<
            Seq<FunctionItemView>,
            SchemaError,
        >(items),
    decreases items.len(),
{
    let nodes = function_items_tree(items)->List_0;
    if items.len() > 0 {
        let shorter = items.drop_last();
        lemma_function_items_round_trip(shorter);
        assert(nodes.drop_last() =~= function_items_tree(shorter)->List_0);
        lemma_function_item_round_trip(items.last());
        assert(nodes.last() == function_item_tree(items.last()));
        assert(shorter.push(items.last()) =~= items);
    } else {
        assert(items =~= Seq::<FunctionItemView>::empty());
    }
}

proof fn lemma_import_items_round_trip(items: Seq<ImportItemView>)
    ensures
        crate::document::import_items_value(import_items_tree(items)) == Ok::<
            Seq<ImportItemView>,
            SchemaError,
        >(items),
    decreases items.len(),
{
    let nodes = import_items_tree(items)->List_0;
    if items.len() > 0 {
        let shorter = items.drop_last();
        lemma_import_items_round_trip(shorter);
        assert(nodes.drop_last() =~= import_items_tree(shorter)->List_0);
        lemma_import_item_round_trip(items.last());
        assert(nodes.last() == import_item_tree(items.last()));
        assert(shorter.push(items.last()) =~= items);
    } else {
        assert(items =~= Seq::<ImportItemView>::empty());
    }
}

proof fn lemma_namespace_item_round_trip(item: NamespaceItemView)
    ensures
        namespace_item_value(namespace_item_tree(item)) == Ok::<NamespaceItemView, SchemaError>(
            item,
        ),
{
    if let NamespaceItemView::Item { name, functions } = item {
        lemma_keys_spelled();
        let g = Group::NamespaceItem;
        let e0 = Seq::<EntryView>::empty();
        let e1 = with_entry(e0, "name"@, Some(NodeView::Text(name)));
        lemma_with_entry(e0, "name"@, Some(NodeView::Text(name)), g);
        lemma_with_entry(e1, "functions"@, Some(function_items_tree(functions)), g);
        lemma_function_items_round_trip(functions);
    }
}

proof fn lemma_namespace_items_round_trip(items: Seq<NamespaceItemView>)
    ensures
        crate::document::namespace_items_value(namespace_items_tree(items)) == Ok::<
            Seq<NamespaceItemView>,
            SchemaError,
        >(items),
    decreases items.len(),
{
    let nodes = namespace_items_tree(items)->List_0;
    if items.len() > 0 {
        let shorter = items.drop_last();
        lemma_namespace_items_round_trip(shorter);
        assert(nodes.drop_last() =~= namespace_items_tree(shorter)->List_0);
        lemma_namespace_item_round_trip(items.last());
        assert(nodes.last() == namespace_item_tree(items.last()));
        assert(shorter.push(items.last()) =~= items);
    } else {
        assert(items =~= Seq::<NamespaceItemView>::empty());
    }
}

proof fn lemma_namespace_round_trip(rules: NamespaceView)
    ensures
        namespace_value(namespace_tree(rules)) == Ok::<NamespaceView, SchemaError>(rules),
{
    lemma_keys_spelled();
    let g = Group::Namespace;
    let included = match rules.included {
        Some(items) => Some(namespace_items_tree(items)),
        None => None,
    };
    let exclude = match rules.exclude {
        Some(items) => Some(namespace_items_tree(items)),
        None => None,
    };
    let e0 = Seq::<EntryView>::empty();
    let e1 = with_entry(e0, "include"@, included);
    lemma_with_entry(e0, "include"@, included, g);
    lemma_with_entry(e1, "exclude"@, exclude, g);
    if let Some(items) = rules.included {
        lemma_namespace_items_round_trip(items);
    }
    if let Some(items) = rules.exclude {
        lemma_namespace_items_round_trip(items);
    }
}

proof fn lemma_imports_round_trip(rules: ImportsView)
    ensures
        imports_value(imports_tree(rules)) == Ok::<ImportsView, SchemaError>(rules),
{
    lemma_keys_spelled();
    let g = Group::Imports;
    let included = match rules.included {
        Some(items) => Some(import_items_tree(items)),
        None => None,
    };
    let exclude = match rules.exclude {
        Some(items) => Some(import_items_tree(items)),
        None => None,
    };
    let namespace = match rules.namespace {
        Some(n) => Some(namespace_tree(n)),
        None => None,
    };
    let e0 = Seq::<EntryView>::empty();
    let e1 = with_entry(e0, "include"@, included);
    let e2 = with_entry(e1, "exclude"@, exclude);
    lemma_with_entry(e0, "include"@, included, g);
    lemma_with_entry(e1, "exclude"@, exclude, g);
    lemma_with_entry(e2, "namespace"@, namespace, g);
    if let Some(items) = rules.included {
        lemma_import_items_round_trip(items);
    }
    if let Some(items) = rules.exclude {
        lemma_import_items_round_trip(items);
    }
    if let Some(n) = rules.namespace {
        lemma_namespace_round_trip(n);
    }
}

proof fn lemma_count_round_trip(n: u32)
    ensures
        count_value(count_tree(Some(n))->0) == Ok::<u32, SchemaError>(n),
{
    lemma_decimal_is_read_back(n);
}

proof fn lemma_exports_round_trip(rules: ExportsView)
    ensures
        exports_value(exports_tree(rules)) == Ok::<ExportsView, SchemaError>(rules),
{
    lemma_keys_spelled();
    let g = Group::Exports;
    let included = match rules.included {
        Some(items) => Some(function_items_tree(items)),
        None => None,
    };
    let exclude = match rules.exclude {
        Some(items) => Some(function_items_tree(items)),
        None => None,
    };
    let e0 = Seq::<EntryView>::empty();
    let e1 = with_entry(e0, "include"@, included);
    let e2 = with_entry(e1, "exclude"@, exclude);
    lemma_with_entry(e0, "include"@, included, g);
    lemma_with_entry(e1, "exclude"@, exclude, g);
    lemma_with_entry(e2, "max"@, count_tree(rules.max), g);
    if let Some(items) = rules.included {
        lemma_function_items_round_trip(items);
    }
    if let Some(items) = rules.exclude {
        lemma_function_items_round_trip(items);
    }
    if let Some(n) = rules.max {
        lemma_count_round_trip(n);
    }
}

proof fn lemma_size_round_trip(rule: SizeView)
    ensures
        size_group_value(size_tree(rule)) == Ok::<SizeView, SchemaError>(rule),
{
    lemma_keys_spelled();
    lemma_with_entry(Seq::<EntryView>::empty(), "max"@, text_tree(rule.max), Group::Size);
}

proof fn lemma_complexity_round_trip(rule: Complexity)
    ensures
        complexity_value(complexity_tree(rule)) == Ok::<Complexity, SchemaError>(rule),
{
    lemma_keys_spelled();
    let g = Group::Complexity;
    let risk = match rule.max_risk {
        Some(risk) => Some(NodeView::Text(risk.name())),
        None => None,
    };
    let e0 = Seq::<EntryView>::empty();
    let e1 = with_entry(e0, "max_risk"@, risk);
    lemma_with_entry(e0, "max_risk"@, risk, g);
    lemma_with_entry(e1, "max_score"@, count_tree(rule.max_score), g);
    if let Some(n) = rule.max_score {
        lemma_count_round_trip(n);
    }
}

/// The rule groups of a policy, written as a tree, are read back as they
/// were.
pub proof fn lemma_check_round_trip(check: CheckView)
    ensures
        check_value(check_tree(check)) == Ok::<CheckView, SchemaError>(check),
{
    lemma_keys_spelled();
    let g = Group::Check;
    let allow_wasi = match check.allow_wasi {
        Some(b) => Some(NodeView::Bool(b)),
        None => None,
    };
    let imports = match check.imports {
        Some(rules) => Some(imports_tree(rules)),
        None => None,
    };
    let exports = match check.exports {
        Some(rules) => Some(exports_tree(rules)),
        None => None,
    };
    let size = match check.size {
        Some(rule) => Some(size_tree(rule)),
        None => None,
    };
    let complexity = match check.complexity {
        Some(rule) => Some(complexity_tree(rule)),
        None => None,
    };
    let e0 = Seq::<EntryView>::empty();
    let e1 = with_entry(e0, "url"@, text_tree(check.url));
    let e2 = with_entry(e1, "allow_wasi"@, allow_wasi);
    let e3 = with_entry(e2, "imports"@, imports);
    let e4 = with_entry(e3, "exports"@, exports);
    let e5 = with_entry(e4, "size"@, size);
    lemma_with_entry(e0, "url"@, text_tree(check.url), g);
    lemma_with_entry(e1, "allow_wasi"@, allow_wasi, g);
    lemma_with_entry(e2, "imports"@, imports, g);
    lemma_with_entry(e3, "exports"@, exports, g);
    lemma_with_entry(e4, "size"@, size, g);
    lemma_with_entry(e5, "complexity"@, complexity, g);
    if let Some(rules) = check.imports {
        lemma_imports_round_trip(rules);
    }
    if let Some(rules) = check.exports {
        lemma_exports_round_trip(rules);
    }
    if let Some(rule) = check.size {
        lemma_size_round_trip(rule);
    }
    if let Some(rule) = check.complexity {
        lemma_complexity_round_trip(rule);
    }
}

/// A policy document, written as a tree, is read back as it was.
pub proof fn lemma_validation_round_trip(validation: ValidationView)
    ensures
        validation_value(validation_tree(validation)) == Ok::<ValidationView, SchemaError>(
            validation,
        ),
{
    lemma_keys_spelled();
    lemma_with_entry(
        Seq::<EntryView>::empty(),
        "validate"@,
        Some(check_tree(validation.validate)),
        Group::Validation,
    );
    lemma_check_round_trip(validation.validate);
}

/// Different policies are written as different trees.
pub proof fn lemma_different_policies_different_trees(a: CheckView, b: CheckView)
    requires
        a != b,
    ensures
        check_tree(a) != check_tree(b),
{
    lemma_check_round_trip(a);
    lemma_check_round_trip(b);
}

} // verus!
