//! The policy engine: what a report holds once a policy has been held
//! against a module, and the evaluation that produces it.
//!
//! Every rule is stated as a function from the report before the rule to
//! the report after it. A rule that holds leaves the report as it was; one
//! that is broken puts an entry at its path, in place of any that stood
//! there.

use crate::lookup::{
    find_export, find_import, find_import_by_name, first_match, imports_from, lookup_export,
    lookup_import, lookup_import_by_name, lookup_item,
};
use crate::module::{FunctionType, FunctionTypeView, ImportView, Module, ModuleView};
use crate::policy::{
    function_items, import_items, namespace_items, CheckView, Complexity, ComplexityKind,
    Exports, ExportsView, FunctionItem, FunctionItemView, ImportItem, ImportItemView, Imports,
    ImportsView, Namespace, NamespaceItem, NamespaceItemView, NamespaceView, PolicyError,
    Validation,
};
use crate::report::{
    presence, presence_text, with_type_checks, Classification, FailureView, Report,
};
use crate::risk::{RiskBounds, RiskLevel};
use crate::score::{capped, score, severity, Scaling};
use crate::size::{read_size, size_limit};
use crate::text::{decimal, decimal_text, join2, join3, join4, truth, truth_text};
use vstd::prelude::*;

verus! {

/// The mapping that a report stands for.
pub type Findings = Map<Seq<char>, FailureView>;

/// The report after one check: unchanged where the check holds, and with
/// an entry at `path` where it does not.
pub open spec fn outcome(
    base: Findings,
    path: Seq<char>,
    expected: Seq<char>,
    actual: Seq<char>,
    valid: bool,
    severity: nat,
    classification: Classification,
) -> Findings {
    if valid {
        base
    } else {
        base.insert(
            path,
            FailureView { actual, expected, severity: capped(severity), classification },
        )
    }
}

/// A function name with its namespace in front, where there is one.
pub open spec fn prefixed(namespace: Option<Seq<char>>, name: Seq<char>) -> Seq<char> {
    match namespace {
        Some(ns) => ns + "::"@ + name,
        None => name,
    }
}

/// `allow_wasi`: broken where the policy forbids the system interface and
/// the module imports it.
pub open spec fn wasi_rule(base: Findings, allowed: bool, module: ModuleView) -> Findings {
    outcome(
        base,
        "allow_wasi"@,
        truth(allowed),
        truth(module.uses_wasi()),
        !(!allowed && module.uses_wasi()),
        10,
        Classification::AbiCompatibility,
    )
}

/// The signature that counts for an import: that of the last import of the
/// same namespace and name.
pub open spec fn effective_type(all: Seq<ImportView>, import: ImportView) -> FunctionTypeView {
    match find_import(all, import.module_name, import.func.name) {
        Some(ty) => ty,
        None => import.func.ty,
    }
}

/// `imports.include` for one import of the module: broken where no item of
/// the list names the import by namespace and name; where one does, the
/// signature is held against what the first such item expects.
pub open spec fn import_allowed(
    base: Findings,
    import: ImportView,
    ty: FunctionTypeView,
    items: Seq<ImportItemView>,
) -> Findings {
    let path = "imports.include."@ + import.module_name + "::"@ + import.func.name;
    match first_match(items, import.module_name, import.func.name) {
        None => outcome(
            base,
            path,
            presence(false),
            presence(true),
            false,
            8,
            Classification::AbiCompatibility,
        ),
        Some(item) => with_type_checks(base, path, ty, item.params(), item.results()),
    }
}

/// `imports.include` for the first imports of a module, in their order.
pub open spec fn imports_allowed(
    base: Findings,
    imports: Seq<ImportView>,
    all: Seq<ImportView>,
    items: Seq<ImportItemView>,
) -> Findings
    decreases imports.len(),
{
    if imports.len() == 0 {
        base
    } else {
        import_allowed(
            imports_allowed(base, imports.drop_last(), all, items),
            imports.last(),
            effective_type(all, imports.last()),
            items,
        )
    }
}

/// The signature of the import that an item of `imports.exclude` names: by
/// namespace and name where the item states a namespace, by name alone
/// where it does not.
pub open spec fn named_import(item: ImportItemView, module: ModuleView) -> Option<
    FunctionTypeView,
> {
    match item.namespace() {
        Some(ns) => find_import(module.imports, ns, item.name()),
        None => match find_import_by_name(module.imports, item.name()) {
            Some(import) => Some(import.func.ty),
            None => None,
        },
    }
}

/// `imports.exclude` for one item: broken where the module has the import.
/// Where it has, the signature is held against what the item expects as
/// well.
pub open spec fn import_excluded(base: Findings, item: ImportItemView, module: ModuleView) -> Findings {
    let path = "imports.exclude."@ + prefixed(item.namespace(), item.name());
    let found = named_import(item, module);
    let first = match found {
        Some(ty) => with_type_checks(base, path, ty, item.params(), item.results()),
        None => base,
    };
    outcome(
        first,
        path,
        presence(false),
        presence(found is Some),
        found is None,
        5,
        Classification::AbiCompatibility,
    )
}

/// `imports.exclude` for a list of items, in their order.
pub open spec fn imports_excluded(
    base: Findings,
    items: Seq<ImportItemView>,
    module: ModuleView,
) -> Findings
    decreases items.len(),
{
    if items.len() == 0 {
        base
    } else {
        import_excluded(imports_excluded(base, items.drop_last(), module), items.last(), module)
    }
}

/// A function that `imports.namespace.include` names under a namespace:
/// broken where the module does not import it from there; where it does,
/// the signature is held against what the item expects.
pub open spec fn function_required(
    base: Findings,
    namespace: Seq<char>,
    item: FunctionItemView,
    module: ModuleView,
) -> Findings {
    let path = "imports.namespace.include."@ + namespace + "::"@ + item.name();
    let found = find_import(module.imports, namespace, item.name());
    let first = outcome(
        base,
        path,
        presence(true),
        presence(found is Some),
        found is Some,
        8,
        Classification::AbiCompatibility,
    );
    match found {
        Some(ty) => with_type_checks(first, path, ty, item.params(), item.results()),
        None => first,
    }
}

/// The functions that `imports.namespace.include` names under a namespace.
pub open spec fn functions_required(
    base: Findings,
    namespace: Seq<char>,
    items: Seq<FunctionItemView>,
    module: ModuleView,
) -> Findings
    decreases items.len(),
{
    if items.len() == 0 {
        base
    } else {
        function_required(
            functions_required(base, namespace, items.drop_last(), module),
            namespace,
            items.last(),
            module,
        )
    }
}

/// `imports.namespace.include` for one item: broken where the module
/// imports nothing from the namespace. The functions that the item names
/// follow.
pub open spec fn namespace_required(
    base: Findings,
    item: NamespaceItemView,
    module: ModuleView,
) -> Findings {
    let present = module.imports_from(item.name());
    let first = outcome(
        base,
        "imports.namespace.include."@ + item.name(),
        presence(true),
        presence(present),
        present,
        8,
        Classification::AbiCompatibility,
    );
    functions_required(first, item.name(), item.functions(), module)
}

/// `imports.namespace.include` for a list of items, in their order.
pub open spec fn namespaces_required(
    base: Findings,
    items: Seq<NamespaceItemView>,
    module: ModuleView,
) -> Findings
    decreases items.len(),
{
    if items.len() == 0 {
        base
    } else {
        namespace_required(
            namespaces_required(base, items.drop_last(), module),
            items.last(),
            module,
        )
    }
}

/// A function that `imports.namespace.exclude` names under a namespace:
/// broken where the module imports it from there.
pub open spec fn function_excluded(
    base: Findings,
    namespace: Seq<char>,
    item: FunctionItemView,
    module: ModuleView,
) -> Findings {
    let path = "imports.namespace.exclude."@ + namespace + "::"@ + item.name();
    let found = find_import(module.imports, namespace, item.name());
    let first = match found {
        Some(ty) => with_type_checks(base, path, ty, item.params(), item.results()),
        None => base,
    };
    outcome(
        first,
        path,
        presence(false),
        presence(found is Some),
        found is None,
        10,
        Classification::AbiCompatibility,
    )
}

/// The functions that `imports.namespace.exclude` names under a namespace.
pub open spec fn functions_excluded(
    base: Findings,
    namespace: Seq<char>,
    items: Seq<FunctionItemView>,
    module: ModuleView,
) -> Findings
    decreases items.len(),
{
    if items.len() == 0 {
        base
    } else {
        function_excluded(
            functions_excluded(base, namespace, items.drop_last(), module),
            namespace,
            items.last(),
            module,
        )
    }
}

/// `imports.namespace.exclude` for one item: broken where the module
/// imports anything from the namespace. The functions that the item names
/// follow.
pub open spec fn namespace_excluded(
    base: Findings,
    item: NamespaceItemView,
    module: ModuleView,
) -> Findings {
    let present = module.imports_from(item.name());
    let first = outcome(
        base,
        "imports.namespace.exclude."@ + item.name(),
        presence(false),
        presence(present),
        !present,
        10,
        Classification::AbiCompatibility,
    );
    functions_excluded(first, item.name(), item.functions(), module)
}

/// `imports.namespace.exclude` for a list of items, in their order.
pub open spec fn namespaces_excluded(
    base: Findings,
    items: Seq<NamespaceItemView>,
    module: ModuleView,
) -> Findings
    decreases items.len(),
{
    if items.len() == 0 {
        base
    } else {
        namespace_excluded(
            namespaces_excluded(base, items.drop_last(), module),
            items.last(),
            module,
        )
    }
}

/// The rules on namespaces: the required ones, then the forbidden ones.
pub open spec fn namespace_rules(base: Findings, rules: NamespaceView, module: ModuleView) -> Findings {
    let first = match rules.included {
        Some(items) => namespaces_required(base, items, module),
        None => base,
    };
    match rules.exclude {
        Some(items) => namespaces_excluded(first, items, module),
        None => first,
    }
}

/// The rules on imports: the whitelist, the blacklist, the namespaces.
pub open spec fn import_rules(base: Findings, rules: ImportsView, module: ModuleView) -> Findings {
    let first = match rules.included {
        Some(items) => imports_allowed(base, module.imports, module.imports, items),
        None => base,
    };
    let second = match rules.exclude {
        Some(items) => imports_excluded(first, items, module),
        None => first,
    };
    match rules.namespace {
        Some(namespace) => namespace_rules(second, namespace, module),
        None => second,
    }
}

/// `exports.max`: broken where the module has more exports than `max`.
/// The severity is the overage in tenths of the limit, rounded up.
pub open spec fn export_bound(base: Findings, max: u32, module: ModuleView) -> Findings {
    outcome(
        base,
        "exports.max"@,
        "<= "@ + decimal(max as nat),
        decimal(module.exports.len()),
        module.exports.len() <= max,
        severity(module.exports.len(), max as nat, Scaling::Overage),
        Classification::Security,
    )
}

/// `exports.include` for one item: broken where the module lacks the
/// export; where it has it, the signature is held against what the item
/// expects.
pub open spec fn export_required(base: Findings, item: FunctionItemView, module: ModuleView) -> Findings {
    let path = "exports.include."@ + item.name();
    let found = find_export(module.exports, item.name());
    let first = outcome(
        base,
        path,
        presence(true),
        presence(found is Some),
        found is Some,
        10,
        Classification::AbiCompatibility,
    );
    match found {
        Some(ty) => with_type_checks(first, path, ty, item.params(), item.results()),
        None => first,
    }
}

/// `exports.include` for a list of items, in their order.
pub open spec fn exports_required(
    base: Findings,
    items: Seq<FunctionItemView>,
    module: ModuleView,
) -> Findings
    decreases items.len(),
{
    if items.len() == 0 {
        base
    } else {
        export_required(exports_required(base, items.drop_last(), module), items.last(), module)
    }
}

/// `exports.exclude` for one item: broken where the module has the export.
pub open spec fn export_excluded(base: Findings, item: FunctionItemView, module: ModuleView) -> Findings {
    let path = "exports.exclude."@ + item.name();
    let found = find_export(module.exports, item.name());
    let first = match found {
        Some(ty) => with_type_checks(base, path, ty, item.params(), item.results()),
        None => base,
    };
    outcome(
        first,
        path,
        presence(false),
        presence(found is Some),
        found is None,
        5,
        Classification::AbiCompatibility,
    )
}

/// `exports.exclude` for a list of items, in their order.
pub open spec fn exports_excluded(
    base: Findings,
    items: Seq<FunctionItemView>,
    module: ModuleView,
) -> Findings
    decreases items.len(),
{
    if items.len() == 0 {
        base
    } else {
        export_excluded(exports_excluded(base, items.drop_last(), module), items.last(), module)
    }
}

/// The rules on exports: the bound, the required set, the blacklist.
pub open spec fn export_rules(base: Findings, rules: ExportsView, module: ModuleView) -> Findings {
    let first = match rules.max {
        Some(max) => export_bound(base, max, module),
        None => base,
    };
    let second = match rules.included {
        Some(items) => exports_required(first, items, module),
        None => first,
    };
    match rules.exclude {
        Some(items) => exports_excluded(second, items, module),
        None => second,
    }
}

/// `size.max`: broken where the module is larger than the limit. The
/// severity is the number of times that the limit fits into the size.
pub open spec fn size_rule(
    base: Findings,
    max: Seq<char>,
    limit: u64,
    module: ModuleView,
    shown_size: Seq<char>,
) -> Findings {
    outcome(
        base,
        "size.max"@,
        "<= "@ + max,
        shown_size,
        module.size <= limit,
        severity(module.size as nat, limit as nat, Scaling::Ratio),
        Classification::ResourceLimit,
    )
}

/// `complexity.max_risk`: broken where the score of the module lies above
/// the bound of the risk level. The severity is the number of times that
/// the bound fits into the score.
pub open spec fn risk_rule(base: Findings, risk: RiskLevel, score: u32, bounds: RiskBounds) -> Findings {
    outcome(
        base,
        "complexity.max_risk"@,
        "<= "@ + risk.name(),
        RiskLevel::of(score, bounds).name(),
        risk.bound(bounds) >= score,
        severity(score as nat, risk.bound(bounds) as nat, Scaling::Ratio),
        Classification::ResourceLimit,
    )
}

/// Why a policy cannot be evaluated on a module, if it cannot: its size
/// limit is no size, or it bounds a complexity that is not known, or its
/// complexity group does not set the one bound that is supported.
pub open spec fn obstacle(policy: CheckView, module: ModuleView, limit: Option<u64>) -> Option<
    PolicyError,
> {
    if policy.size_max() is Some && limit is None {
        Some(PolicyError::InvalidSize)
    } else {
        match policy.complexity {
            Some(complexity) => if module.complexity is None {
                Some(PolicyError::UnknownComplexity)
            } else {
                match complexity.spec_kind() {
                    Err(e) => Some(e),
                    Ok(_) => None,
                }
            },
            None => None,
        }
    }
}

/// All rules of a policy in turn, where nothing stands in the way of the
/// evaluation.
pub open spec fn findings(
    policy: CheckView,
    module: ModuleView,
    bounds: RiskBounds,
    shown_size: Seq<char>,
    limit: Option<u64>,
) -> Findings {
    let first = match policy.allow_wasi {
        Some(allowed) => wasi_rule(Map::empty(), allowed, module),
        None => Map::empty(),
    };
    let second = match policy.imports {
        Some(rules) => import_rules(first, rules, module),
        None => first,
    };
    let third = match policy.exports {
        Some(rules) => export_rules(second, rules, module),
        None => second,
    };
    let fourth = match (policy.size_max(), limit) {
        (Some(max), Some(limit)) => size_rule(third, max, limit, module, shown_size),
        _ => third,
    };
    match (policy.complexity, module.complexity) {
        (Some(Complexity { max_risk: Some(risk), .. }), Some(score)) => risk_rule(
            fourth,
            risk,
            score,
            bounds,
        ),
        _ => fourth,
    }
}

/// What the evaluation of a policy on a module comes to: an error where
/// something stands in its way, and otherwise the report of all rules.
/// `shown_size` is the size of the module as it is shown to a person, and
/// `limit` the number of bytes that the size limit of the policy states.
pub open spec fn evaluation(
    policy: CheckView,
    module: ModuleView,
    bounds: RiskBounds,
    shown_size: Seq<char>,
    limit: Option<u64>,
) -> Result<Findings, PolicyError> {
    match obstacle(policy, module, limit) {
        Some(e) => Err(e),
        None => Ok(findings(policy, module, bounds, shown_size, limit)),
    }
}

/// The number of bytes that the size limit of a policy states, if the
/// policy has one and it is a size.
pub open spec fn stated_limit(policy: CheckView) -> Option<u64> {
    match policy.size_max() {
        Some(max) => size_limit(max),
        None => None,
    }
}

fn check_wasi(report: &mut Report, allowed: bool, module: &Module)
    ensures
        final(report)@ == wasi_rule(old(report)@, allowed, module@),
{
    let actual = module.uses_wasi();
    report.validate_fn(
        "allow_wasi",
        truth_text(allowed),
        truth_text(actual),
        !(!allowed && actual),
        10,
        Classification::AbiCompatibility,
    );
}

fn check_imports_allowed(report: &mut Report, items: &Vec<ImportItem>, module: &Module)
    ensures
        final(report)@ == imports_allowed(
            old(report)@,
            module@.imports,
            module@.imports,
            import_items(items@),
        ),
{
    let ghost all = module@.imports;
    let ghost list = import_items(items@);
    let mut i: usize = 0;
    while i < module.imports.len()
        invariant
            i <= module.imports@.len(),
            all == module@.imports,
            list == import_items(items@),
            report@ == imports_allowed(old(report)@, all.take(i as int), all, list),
        decreases module.imports@.len() - i,
    {
        let ghost now = all.take(i + 1);
        assert(now.drop_last() =~= all.take(i as int));
        assert(now.last() == module.imports@[i as int]@);
        let import = &module.imports[i];
        let namespace = import.module_name.as_str();
        let name = import.func.name.as_str();
        let path = join4("imports.include.", namespace, "::", name);
        let ty = match lookup_import(&module.imports, namespace, name) {
            Some(ty) => ty,
            None => &import.func.ty,
        };
        match lookup_item(items, namespace, name) {
            None => {
                report.validate_fn(
                    path.as_str(),
                    presence_text(false),
                    presence_text(true),
                    false,
                    8,
                    Classification::AbiCompatibility,
                );
            },
            Some(item) => {
                report.validate_fn_type(path.as_str(), ty, item.params(), item.results());
            },
        }
        i += 1;
    }
    assert(all.take(i as int) =~= all);
}

/// The name of a function with the namespace that an item states for it in
/// front, where the item states one.
pub fn namespace_prefix(import_item: &ImportItem, fn_name: &str) -> (r: String)
    ensures
        r@ == prefixed(import_item@.namespace(), fn_name@),
{
    match import_item.namespace() {
        Some(ns) => join3(ns, "::", fn_name),
        None => String::from_str(fn_name),
    }
}

fn check_import_excluded(report: &mut Report, item: &ImportItem, module: &Module)
    ensures
        final(report)@ == import_excluded(old(report)@, item@, module@),
{
    let name = item.name().as_str();
    let found: Option<&FunctionType> = match item.namespace() {
        Some(ns) => lookup_import(&module.imports, ns, name),
        None => match lookup_import_by_name(&module.imports, name) {
            Some(import) => Some(&import.func.ty),
            None => None,
        },
    };
    let prefixed_name = namespace_prefix(item, name);
    let path = join2("imports.exclude.", prefixed_name.as_str());
    let test = found.is_some();
    if let Some(ty) = found {
        report.validate_fn_type(path.as_str(), ty, item.params(), item.results());
    }
    report.validate_fn(
        path.as_str(),
        presence_text(false),
        presence_text(test),
        !test,
        5,
        Classification::AbiCompatibility,
    );
}

fn check_imports_excluded(report: &mut Report, items: &Vec<ImportItem>, module: &Module)
    ensures
        final(report)@ == imports_excluded(old(report)@, import_items(items@), module@),
{
    let ghost list = import_items(items@);
    let mut i: usize = 0;
    while i < items.len()
        invariant
            i <= items@.len(),
            list == import_items(items@),
            report@ == imports_excluded(old(report)@, list.take(i as int), module@),
        decreases items@.len() - i,
    {
        let ghost now = list.take(i + 1);
        assert(now.drop_last() =~= list.take(i as int));
        assert(now.last() == items@[i as int]@);
        check_import_excluded(report, &items[i], module);
        i += 1;
    }
    assert(list.take(i as int) =~= list);
}

fn check_function_required(
    report: &mut Report,
    namespace: &str,
    item: &FunctionItem,
    module: &Module,
)
    ensures
        final(report)@ == function_required(old(report)@, namespace@, item@, module@),
{
    let name = item.name().as_str();
    let path = join4("imports.namespace.include.", namespace, "::", name);
    let found = lookup_import(&module.imports, namespace, name);
    let test = found.is_some();
    report.validate_fn(
        path.as_str(),
        presence_text(true),
        presence_text(test),
        test,
        8,
        Classification::AbiCompatibility,
    );
    if let Some(ty) = found {
        report.validate_fn_type(path.as_str(), ty, item.params(), item.results());
    }
}

fn check_function_excluded(
    report: &mut Report,
    namespace: &str,
    item: &FunctionItem,
    module: &Module,
)
    ensures
        final(report)@ == function_excluded(old(report)@, namespace@, item@, module@),
{
    let name = item.name().as_str();
    let path = join4("imports.namespace.exclude.", namespace, "::", name);
    let found = lookup_import(&module.imports, namespace, name);
    let test = found.is_some();
    if let Some(ty) = found {
        report.validate_fn_type(path.as_str(), ty, item.params(), item.results());
    }
    report.validate_fn(
        path.as_str(),
        presence_text(false),
        presence_text(test),
        !test,
        10,
        Classification::AbiCompatibility,
    );
}

fn check_namespace_required(report: &mut Report, item: &NamespaceItem, module: &Module)
    ensures
        final(report)@ == namespace_required(old(report)@, item@, module@),
{
    let name = item.name().as_str();
    let functions = item.functions();
    let test = imports_from(&module.imports, name);
    report.validate_fn(
        join2("imports.namespace.include.", name).as_str(),
        presence_text(true),
        presence_text(test),
        test,
        8,
        Classification::AbiCompatibility,
    );
    let ghost first = report@;
    let ghost list = function_items(functions@);
    let mut i: usize = 0;
    while i < functions.len()
        invariant
            i <= functions@.len(),
            list == function_items(functions@),
            report@ == functions_required(first, name@, list.take(i as int), module@),
        decreases functions@.len() - i,
    {
        let ghost now = list.take(i + 1);
        assert(now.drop_last() =~= list.take(i as int));
        assert(now.last() == functions@[i as int]@);
        check_function_required(report, name, &functions[i], module);
        i += 1;
    }
    assert(list.take(i as int) =~= list);
}

fn check_namespace_excluded(report: &mut Report, item: &NamespaceItem, module: &Module)
    ensures
        final(report)@ == namespace_excluded(old(report)@, item@, module@),
{
    let name = item.name().as_str();
    let functions = item.functions();
    let test = imports_from(&module.imports, name);
    report.validate_fn(
        join2("imports.namespace.exclude.", name).as_str(),
        presence_text(false),
        presence_text(test),
        !test,
        10,
        Classification::AbiCompatibility,
    );
    let ghost first = report@;
    let ghost list = function_items(functions@);
    let mut i: usize = 0;
    while i < functions.len()
        invariant
            i <= functions@.len(),
            list == function_items(functions@),
            report@ == functions_excluded(first, name@, list.take(i as int), module@),
        decreases functions@.len() - i,
    {
        let ghost now = list.take(i + 1);
        assert(now.drop_last() =~= list.take(i as int));
        assert(now.last() == functions@[i as int]@);
        check_function_excluded(report, name, &functions[i], module);
        i += 1;
    }
    assert(list.take(i as int) =~= list);
}

fn check_namespaces(report: &mut Report, rules: &Namespace, module: &Module)
    ensures
        final(report)@ == namespace_rules(old(report)@, rules@, module@),
{
    if let Some(items) = &rules.included {
        let ghost list = namespace_items(items@);
        let mut i: usize = 0;
        while i < items.len()
            invariant
                i <= items@.len(),
                list == namespace_items(items@),
                report@ == namespaces_required(old(report)@, list.take(i as int), module@),
            decreases items@.len() - i,
        {
            let ghost now = list.take(i + 1);
            assert(now.drop_last() =~= list.take(i as int));
            assert(now.last() == items@[i as int]@);
            check_namespace_required(report, &items[i], module);
            i += 1;
        }
        assert(list.take(i as int) =~= list);
    }
    let ghost first = report@;
    if let Some(items) = &rules.exclude {
        let ghost list = namespace_items(items@);
        let mut i: usize = 0;
        while i < items.len()
            invariant
                i <= items@.len(),
                list == namespace_items(items@),
                report@ == namespaces_excluded(first, list.take(i as int), module@),
            decreases items@.len() - i,
        {
            let ghost now = list.take(i + 1);
            assert(now.drop_last() =~= list.take(i as int));
            assert(now.last() == items@[i as int]@);
            check_namespace_excluded(report, &items[i], module);
            i += 1;
        }
        assert(list.take(i as int) =~= list);
    }
}

fn check_imports(report: &mut Report, rules: &Imports, module: &Module)
    ensures
        final(report)@ == import_rules(old(report)@, rules@, module@),
{
    if let Some(items) = &rules.included {
        check_imports_allowed(report, items, module);
    }
    if let Some(items) = &rules.exclude {
        check_imports_excluded(report, items, module);
    }
    if let Some(namespace) = &rules.namespace {
        check_namespaces(report, namespace, module);
    }
}

fn check_export_required(report: &mut Report, item: &FunctionItem, module: &Module)
    ensures
        final(report)@ == export_required(old(report)@, item@, module@),
{
    let name = item.name().as_str();
    let path = join2("exports.include.", name);
    let found = lookup_export(&module.exports, name);
    let test = found.is_some();
    report.validate_fn(
        path.as_str(),
        presence_text(true),
        presence_text(test),
        test,
        10,
        Classification::AbiCompatibility,
    );
    if let Some(ty) = found {
        report.validate_fn_type(path.as_str(), ty, item.params(), item.results());
    }
}

fn check_export_excluded(report: &mut Report, item: &FunctionItem, module: &Module)
    ensures
        final(report)@ == export_excluded(old(report)@, item@, module@),
{
    let name = item.name().as_str();
    let path = join2("exports.exclude.", name);
    let found = lookup_export(&module.exports, name);
    let test = found.is_some();
    if let Some(ty) = found {
        report.validate_fn_type(path.as_str(), ty, item.params(), item.results());
    }
    report.validate_fn(
        path.as_str(),
        presence_text(false),
        presence_text(test),
        !test,
        5,
        Classification::AbiCompatibility,
    );
}

fn check_exports(report: &mut Report, rules: &Exports, module: &Module)
    ensures
        final(report)@ == export_rules(old(report)@, rules@, module@),
{
    if let Some(max) = rules.max {
        let num: u64 = module.exports.len() as u64;
        report.validate_fn(
            "exports.max",
            join2("<= ", decimal_text(max as u64).as_str()),
            decimal_text(num),
            num <= max as u64,
            score(num, max as u64, Scaling::Overage),
            Classification::Security,
        );
    }
    let ghost first = report@;
    if let Some(items) = &rules.included {
        let ghost list = function_items(items@);
        let mut i: usize = 0;
        while i < items.len()
            invariant
                i <= items@.len(),
                list == function_items(items@),
                report@ == exports_required(first, list.take(i as int), module@),
            decreases items@.len() - i,
        {
            let ghost now = list.take(i + 1);
            assert(now.drop_last() =~= list.take(i as int));
            assert(now.last() == items@[i as int]@);
            check_export_required(report, &items[i], module);
            i += 1;
        }
        assert(list.take(i as int) =~= list);
    }
    let ghost second = report@;
    if let Some(items) = &rules.exclude {
        let ghost list = function_items(items@);
        let mut i: usize = 0;
        while i < items.len()
            invariant
                i <= items@.len(),
                list == function_items(items@),
                report@ == exports_excluded(second, list.take(i as int), module@),
            decreases items@.len() - i,
        {
            let ghost now = list.take(i + 1);
            assert(now.drop_last() =~= list.take(i as int));
            assert(now.last() == items@[i as int]@);
            check_export_excluded(report, &items[i], module);
            i += 1;
        }
        assert(list.take(i as int) =~= list);
    }
}

fn check_size(report: &mut Report, max: &str, limit: u64, module: &Module, shown_size: &str)
    ensures
        final(report)@ == size_rule(old(report)@, max@, limit, module@, shown_size@),
{
    report.validate_fn(
        "size.max",
        join2("<= ", max),
        String::from_str(shown_size),
        module.size <= limit,
        score(module.size, limit, Scaling::Ratio),
        Classification::ResourceLimit,
    );
}

fn check_risk(report: &mut Report, risk: RiskLevel, complexity: u32, bounds: &RiskBounds)
    ensures
        final(report)@ == risk_rule(old(report)@, risk, complexity, *bounds),
{
    let bound = risk.max(bounds);
    report.validate_fn(
        "complexity.max_risk",
        join2("<= ", risk.as_str()),
        RiskLevel::classify(complexity, bounds).to_string(),
        bound >= complexity,
        score(complexity as u64, bound as u64, Scaling::Ratio),
        Classification::ResourceLimit,
    );
}

/// Evaluates a policy on a module, given the number of bytes that its size
/// limit states (`None` where the policy states no size, or what it states
/// is none) and the size of the module as it is shown to a person.
///
/// The policy is not evaluated in part: where its size limit is no size,
/// where it bounds the complexity of a module whose complexity is not
/// known, or where its complexity group asks for anything but a risk
/// level, the outcome is that error and no report.
pub fn evaluate(
    validation: &Validation,
    module: &Module,
    bounds: &RiskBounds,
    shown_size: &str,
    limit: Option<u64>,
) -> (r: Result<Report, PolicyError>)
    ensures
        match evaluation(validation@.validate, module@, *bounds, shown_size@, limit) {
            Ok(findings) => r is Ok && r->Ok_0@ == findings,
            Err(e) => r == Err::<Report, PolicyError>(e),
        },
{
    let policy = &validation.validate;
    let max: Option<&String> = match &policy.size {
        Some(size) => match &size.max {
            Some(max) => Some(max),
            None => None,
        },
        None => None,
    };
    if max.is_some() && limit.is_none() {
        return Err(PolicyError::InvalidSize);
    }
    let risk: Option<(RiskLevel, u32)> = match &policy.complexity {
        Some(complexity) => {
            let score = match module.complexity {
                Some(score) => score,
                None => {
                    return Err(PolicyError::UnknownComplexity);
                },
            };
            match complexity.kind() {
                Ok(ComplexityKind::MaxRisk(risk)) => Some((risk, score)),
                Ok(ComplexityKind::MaxScore(_)) => {
                    return Err(PolicyError::UnsupportedComplexityCheck);
                },
                Err(e) => {
                    return Err(e);
                },
            }
        },
        None => None,
    };
    let mut report = Report::new();
    if let Some(allowed) = policy.allow_wasi {
        check_wasi(&mut report, allowed, module);
    }
    if let Some(rules) = &policy.imports {
        check_imports(&mut report, rules, module);
    }
    if let Some(rules) = &policy.exports {
        check_exports(&mut report, rules, module);
    }
    if let Some(max) = max {
        if let Some(limit) = limit {
            check_size(&mut report, max.as_str(), limit, module, shown_size);
        }
    }
    if let Some((risk, score)) = risk {
        check_risk(&mut report, risk, score, bounds);
    }
    Ok(report)
}

/// Evaluates a policy on a module: every rule of the policy that the
/// module breaks is in the report, at the path of the rule.
///
/// `shown_size` is the size of the module as it is shown to a person; it
/// stands in the report where the module is too large.
pub fn validate(
    validation: Validation,
    module: Module,
    bounds: &RiskBounds,
    shown_size: &str,
) -> (r: Result<Report, PolicyError>)
    ensures
        match evaluation(
            validation@.validate,
            module@,
            *bounds,
            shown_size@,
            stated_limit(validation@.validate),
        ) {
            Ok(findings) => r is Ok && r->Ok_0@ == findings,
            Err(e) => r == Err::<Report, PolicyError>(e),
        },
{
    let limit = match &validation.validate.size {
        Some(size) => match &size.max {
            Some(max) => read_size(max.as_str()),
            None => None,
        },
        None => None,
    };
    evaluate(&validation, &module, bounds, shown_size, limit)
}

} // verus!
