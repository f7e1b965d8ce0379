//! The policy generator: the most permissive policy that a given module
//! satisfies, as a starting point for a policy written by hand.

use crate::engine::{
    evaluation, findings, import_allowed, imports_allowed, effective_type, export_required,
    exports_required, namespace_required, namespaces_required, obstacle, stated_limit,
    Findings,
};
use crate::lookup::{
    find_export, find_import, first_match, lemma_find_import_finds,
};
use crate::module::{
    copy_types, lemma_distinct_namespaces, texts, ExportView, ImportView,
    Module, ModuleView,
};
use crate::policy::{
    function_items, import_items, namespace_items, Check, CheckView, Complexity, Exports,
    ExportsView, FunctionItem, FunctionItemView, ImportItem, ImportItemView, Imports,
    ImportsView, Namespace, NamespaceItem, NamespaceItemView, NamespaceView, Size, SizeView,
    Validation, ValidationView,
};
use crate::risk::{RiskBounds, RiskLevel};
use crate::size::size_limit;
use vstd::prelude::*;

verus! {

/// The whitelist item that stands for an import: the import itself, with
/// its namespace and its signature.
pub open spec fn item_of_import(import: ImportView) -> ImportItemView {
    ImportItemView::Item {
        namespace: Some(import.module_name),
        name: import.func.name,
        params: Some(import.func.ty.params),
        results: Some(import.func.ty.results),
    }
}

/// The required item that stands for an export: the export itself, with
/// its signature.
pub open spec fn item_of_export(export: ExportView) -> FunctionItemView {
    FunctionItemView::Item {
        name: export.func.name,
        params: Some(export.func.ty.params),
        results: Some(export.func.ty.results),
    }
}

/// The number of exports as the bound of a policy holds it: the number
/// itself, or the largest bound there is where the number is above it.
pub open spec fn export_count(module: ModuleView) -> u32 {
    if module.exports.len() > u32::MAX {
        u32::MAX
    } else {
        module.exports.len() as u32
    }
}

/// The policy generated for a module: every import whitelisted and every
/// export required, each with its signature; every namespace required; the
/// number of exports, the shown size and the risk level of the module as
/// the bounds; the system interface allowed where the module imports it.
/// A module whose complexity is not known gets no bound on it.
pub open spec fn generated(
    module: ModuleView,
    bounds: RiskBounds,
    shown_size: Seq<char>,
) -> ValidationView {
    ValidationView {
        validate: CheckView {
            url: None,
            allow_wasi: if module.uses_wasi() {
                Some(true)
            } else {
                None
            },
            imports: Some(
                ImportsView {
                    included: Some(module.imports.map_values(|i: ImportView| item_of_import(i))),
                    exclude: None,
                    namespace: if module.namespaces().len() > 0 {
                        Some(
                            NamespaceView {
                                included: Some(
                                    module.namespaces().map_values(
                                        |n: Seq<char>| NamespaceItemView::Name(n),
                                    ),
                                ),
                                exclude: None,
                            },
                        )
                    } else {
                        None
                    },
                },
            ),
            exports: Some(
                ExportsView {
                    included: Some(module.exports.map_values(|e: ExportView| item_of_export(e))),
                    exclude: None,
                    max: Some(export_count(module)),
                },
            ),
            size: Some(SizeView { max: Some(shown_size) }),
            complexity: match module.complexity {
                Some(score) => Some(
                    Complexity { max_risk: Some(RiskLevel::of(score, bounds)), max_score: None },
                ),
                None => None,
            },
        },
    }
}

/// Generates the policy that a module satisfies as it stands.
///
/// `shown_size` is the size of the module as it is shown to a person; it
/// becomes the size limit of the policy.
pub fn generate_checkfile(module: &Module, bounds: &RiskBounds, shown_size: &str) -> (r:
    Validation)
    ensures
        r@ == generated(module@, *bounds, shown_size@),
{
    let namespaces = module.get_import_namespaces();

    let allow_wasi = if module.uses_wasi() {
        Some(true)
    } else {
        None
    };

    let mut include_imports: Vec<ImportItem> = Vec::new();
    let mut i: usize = 0;
    while i < module.imports.len()
        invariant
            i <= module.imports@.len(),
            import_items(include_imports@) == module@.imports.take(i as int).map_values(
                |i: ImportView| item_of_import(i),
            ),
        decreases module.imports@.len() - i,
    {
        let imp = &module.imports[i];
        let item = ImportItem::Item {
            namespace: Some(imp.module_name.clone()),
            name: imp.func.name.clone(),
            params: Some(copy_types(imp.func.ty.params.as_slice())),
            results: Some(copy_types(imp.func.ty.results.as_slice())),
        };
        assert(item@ == item_of_import(module@.imports[i as int]));
        let ghost before = import_items(include_imports@);
        include_imports.push(item);
        assert(import_items(include_imports@) =~= before.push(item@));
        assert(import_items(include_imports@) =~= module@.imports.take(i + 1).map_values(
            |i: ImportView| item_of_import(i),
        ));
        i += 1;
    }
    assert(module@.imports.take(i as int) =~= module@.imports);

    let mut include_namespaces: Vec<NamespaceItem> = Vec::new();
    let mut j: usize = 0;
    while j < namespaces.len()
        invariant
            j <= namespaces@.len(),
            namespace_items(include_namespaces@) == texts(namespaces@).take(j as int).map_values(
                |n: Seq<char>| NamespaceItemView::Name(n),
            ),
        decreases namespaces@.len() - j,
    {
        let item = NamespaceItem::Name(String::from_str(namespaces[j]));
        assert(item@ == NamespaceItemView::Name(texts(namespaces@)[j as int]));
        let ghost before = namespace_items(include_namespaces@);
        include_namespaces.push(item);
        assert(namespace_items(include_namespaces@) =~= before.push(item@));
        assert(namespace_items(include_namespaces@) =~= texts(namespaces@).take(
            j + 1,
        ).map_values(|n: Seq<char>| NamespaceItemView::Name(n)));
        j += 1;
    }
    assert(texts(namespaces@).take(j as int) =~= texts(namespaces@));
    let namespace = if namespaces.len() > 0 {
        Some(Namespace { included: Some(include_namespaces), exclude: None })
    } else {
        None
    };

    let mut include_exports: Vec<FunctionItem> = Vec::new();
    let mut k: usize = 0;
    while k < module.exports.len()
        invariant
            k <= module.exports@.len(),
            function_items(include_exports@) == module@.exports.take(k as int).map_values(
                |e: ExportView| item_of_export(e),
            ),
        decreases module.exports@.len() - k,
    {
        let exp = &module.exports[k];
        let item = FunctionItem::Item {
            name: exp.func.name.clone(),
            params: Some(copy_types(exp.func.ty.params.as_slice())),
            results: Some(copy_types(exp.func.ty.results.as_slice())),
        };
        assert(item@ == item_of_export(module@.exports[k as int]));
        let ghost before = function_items(include_exports@);
        include_exports.push(item);
        assert(function_items(include_exports@) =~= before.push(item@));
        assert(function_items(include_exports@) =~= module@.exports.take(k + 1).map_values(
            |e: ExportView| item_of_export(e),
        ));
        k += 1;
    }
    assert(module@.exports.take(k as int) =~= module@.exports);
    let export_count: u32 = if module.exports.len() > u32::MAX as usize {
        u32::MAX
    } else {
        module.exports.len() as u32
    };

    let complexity = match module.complexity {
        Some(score) => Some(
            Complexity { max_risk: Some(RiskLevel::classify(score, bounds)), max_score: None },
        ),
        None => None,
    };

    Validation {
        validate: Check {
            url: None,
            allow_wasi,
            imports: Some(Imports { included: Some(include_imports), exclude: None, namespace }),
            exports: Some(
                Exports { included: Some(include_exports), exclude: None, max: Some(export_count) },
            ),
            size: Some(Size { max: Some(String::from_str(shown_size)) }),
            complexity,
        },
    }
}

/// The first signature under which `name` is imported from `namespace`,
/// if it is imported from there at all.
pub open spec fn first_import(
    imports: Seq<ImportView>,
    namespace: Seq<char>,
    name: Seq<char>,
) -> Option<crate::module::FunctionTypeView>
    decreases imports.len(),
{
    if imports.len() == 0 {
        None
    } else if imports[0].module_name == namespace && imports[0].func.name == name {
        Some(imports[0].func.ty)
    } else {
        first_import(imports.drop_first(), namespace, name)
    }
}

/// Where a function is imported from one namespace more than once, the
/// first and the last of these imports have the same signature.
pub open spec fn consistent_imports(imports: Seq<ImportView>) -> bool {
    forall|i: int|
        0 <= i < imports.len() ==> first_import(
            imports,
            (#[trigger] imports[i]).module_name,
            imports[i].func.name,
        ) == find_import(imports, imports[i].module_name, imports[i].func.name)
}

/// Exports of the same name have the same signature.
pub open spec fn consistent_exports(exports: Seq<ExportView>) -> bool {
    forall|i: int|
        0 <= i < exports.len() ==> find_export(exports, (#[trigger] exports[i]).func.name) == Some(
            exports[i].func.ty,
        )
}

/// The modules that satisfy the policy generated for them. The others are
/// those for which generation loses what the evaluation needs: the shown
/// size states less than the size, or no size at all; the complexity lies
/// above even the bound of the high risk level; there are more exports
/// than a bound can hold; or one function is imported or exported under
/// two signatures.
pub open spec fn faithfully_generated(
    module: ModuleView,
    bounds: RiskBounds,
    shown_size: Seq<char>,
) -> bool {
    &&& module.exports.len() <= u32::MAX
    &&& size_limit(shown_size) matches Some(limit) && module.size <= limit
    &&& module.complexity matches Some(score) ==> score <= RiskLevel::of(score, bounds).bound(
        bounds,
    )
    &&& consistent_imports(module.imports)
    &&& consistent_exports(module.exports)
}

proof fn lemma_first_match_generated(imports: Seq<ImportView>, namespace: Seq<char>, name: Seq<char>)
    ensures
        first_match(imports.map_values(|i: ImportView| item_of_import(i)), namespace, name)
            == match first_import(imports, namespace, name) {
            Some(ty) => Some(
                ImportItemView::Item {
                    namespace: Some(namespace),
                    name,
                    params: Some(ty.params),
                    results: Some(ty.results),
                },
            ),
            None => None,
        },
    decreases imports.len(),
{
    let items = imports.map_values(|i: ImportView| item_of_import(i));
    if imports.len() > 0 {
        assert(items.drop_first() =~= imports.drop_first().map_values(
            |i: ImportView| item_of_import(i),
        ));
        assert(items[0] == item_of_import(imports[0]));
        lemma_first_match_generated(imports.drop_first(), namespace, name);
    }
}

proof fn lemma_imports_allowed_unchanged(
    base: Findings,
    imports: Seq<ImportView>,
    all: Seq<ImportView>,
    items: Seq<ImportItemView>,
)
    requires
        forall|i: int|
            0 <= i < imports.len() ==> import_allowed(
                base,
                #[trigger] imports[i],
                effective_type(all, imports[i]),
                items,
            ) == base,
    ensures
        imports_allowed(base, imports, all, items) == base,
    decreases imports.len(),
{
    if imports.len() > 0 {
        let shorter = imports.drop_last();
        assert forall|i: int| 0 <= i < shorter.len() implies import_allowed(
            base,
            #[trigger] shorter[i],
            effective_type(all, shorter[i]),
            items,
        ) == base by {
            assert(shorter[i] == imports[i]);
        }
        lemma_imports_allowed_unchanged(base, shorter, all, items);
        assert(imports.last() == imports[imports.len() - 1]);
    }
}

proof fn lemma_exports_required_unchanged(
    base: Findings,
    items: Seq<FunctionItemView>,
    module: ModuleView,
)
    requires
        forall|i: int| 0 <= i < items.len() ==> export_required(base, #[trigger] items[i], module) == base,
    ensures
        exports_required(base, items, module) == base,
    decreases items.len(),
{
    if items.len() > 0 {
        let shorter = items.drop_last();
        assert forall|i: int| 0 <= i < shorter.len() implies export_required(
            base,
            #[trigger] shorter[i],
            module,
        ) == base by {
            assert(shorter[i] == items[i]);
        }
        lemma_exports_required_unchanged(base, shorter, module);
        assert(items.last() == items[items.len() - 1]);
    }
}

proof fn lemma_namespaces_required_unchanged(
    base: Findings,
    items: Seq<NamespaceItemView>,
    module: ModuleView,
)
    requires
        forall|i: int|
            0 <= i < items.len() ==> namespace_required(base, #[trigger] items[i], module) == base,
    ensures
        namespaces_required(base, items, module) == base,
    decreases items.len(),
{
    if items.len() > 0 {
        let shorter = items.drop_last();
        assert forall|i: int| 0 <= i < shorter.len() implies namespace_required(
            base,
            #[trigger] shorter[i],
            module,
        ) == base by {
            assert(shorter[i] == items[i]);
        }
        lemma_namespaces_required_unchanged(base, shorter, module);
        assert(items.last() == items[items.len() - 1]);
    }
}

/// A module satisfies the policy that is generated for it: the evaluation
/// of that policy on the module gives a report without entries. This holds
/// of every module for which generation keeps what the evaluation needs.
pub proof fn lemma_generated_policy_is_satisfied(
    module: ModuleView,
    bounds: RiskBounds,
    shown_size: Seq<char>,
)
    requires
        faithfully_generated(module, bounds, shown_size),
    ensures
        evaluation(
            generated(module, bounds, shown_size).validate,
            module,
            bounds,
            shown_size,
            stated_limit(generated(module, bounds, shown_size).validate),
        ) == Ok::<Findings, crate::policy::PolicyError>(Map::empty()),
{
    let policy = generated(module, bounds, shown_size).validate;
    let limit = stated_limit(policy);
    let base: Findings = Map::empty();
    assert(limit == size_limit(shown_size));
    assert(obstacle(policy, module, limit) is None);

    // the whitelist of imports
    let import_list = module.imports.map_values(|i: ImportView| item_of_import(i));
    assert forall|i: int| 0 <= i < module.imports.len() implies import_allowed(
        base,
        #[trigger] module.imports[i],
        effective_type(module.imports, module.imports[i]),
        import_list,
    ) == base by {
        let import = module.imports[i];
        lemma_first_match_generated(module.imports, import.module_name, import.func.name);
        lemma_find_import_finds(module.imports, i);
    }
    lemma_imports_allowed_unchanged(base, module.imports, module.imports, import_list);

    // the required namespaces
    let names = module.namespaces();
    let name_list = names.map_values(|n: Seq<char>| NamespaceItemView::Name(n));
    lemma_distinct_namespaces(module.imports);
    assert forall|i: int| 0 <= i < name_list.len() implies namespace_required(
        base,
        #[trigger] name_list[i],
        module,
    ) == base by {
        assert(name_list[i] == NamespaceItemView::Name(names[i]));
        assert(names.contains(names[i]));
        assert(module.imports_from(names[i]));
        assert(name_list[i].functions().len() == 0);
    }
    lemma_namespaces_required_unchanged(base, name_list, module);

    // the required exports
    let export_list = module.exports.map_values(|e: ExportView| item_of_export(e));
    assert forall|i: int| 0 <= i < export_list.len() implies export_required(
        base,
        #[trigger] export_list[i],
        module,
    ) == base by {
        assert(export_list[i] == item_of_export(module.exports[i]));
    }
    lemma_exports_required_unchanged(base, export_list, module);

    crate::score::lemma_within_limit_scores_zero(module.exports.len(), export_count(module) as nat);
    assert(findings(policy, module, bounds, shown_size, limit) == base);
}

/// Modules that differ in an import, in an export or in the size that is
/// shown for them get different policies.
pub proof fn lemma_different_modules_get_different_policies(
    a: ModuleView,
    a_size: Seq<char>,
    b: ModuleView,
    b_size: Seq<char>,
    bounds: RiskBounds,
)
    requires
        a.imports != b.imports || a.exports != b.exports || a_size != b_size,
    ensures
        generated(a, bounds, a_size) != generated(b, bounds, b_size),
{
    let x = generated(a, bounds, a_size).validate;
    let y = generated(b, bounds, b_size).validate;
    if x == y {
        let xi = x.imports->0.included->0;
        let yi = y.imports->0.included->0;
        assert(xi == yi);
        assert(a.imports.len() == xi.len());
        assert(b.imports.len() == yi.len());
        assert forall|i: int| 0 <= i < a.imports.len() implies a.imports[i] == b.imports[i] by {
            assert(xi[i] == item_of_import(a.imports[i]));
            assert(yi[i] == item_of_import(b.imports[i]));
        }
        assert(a.imports =~= b.imports);
        let xe = x.exports->0.included->0;
        let ye = y.exports->0.included->0;
        assert(xe == ye);
        assert(a.exports.len() == xe.len());
        assert(b.exports.len() == ye.len());
        assert forall|i: int| 0 <= i < a.exports.len() implies a.exports[i] == b.exports[i] by {
            assert(xe[i] == item_of_export(a.exports[i]));
            assert(ye[i] == item_of_export(b.exports[i]));
        }
        assert(a.exports =~= b.exports);
        assert(x.size->0.max->0 == a_size);
        assert(y.size->0.max->0 == b_size);
    }
}

} // verus!
