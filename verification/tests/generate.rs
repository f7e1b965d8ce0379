use modsurfer::engine::validate;
use modsurfer::generate::generate_checkfile;
use modsurfer::module::{Export, Function, FunctionType, Import, Module, ValType};
use modsurfer::policy::{
    Complexity, FunctionItem, ImportItem, NamespaceItem, Size,
};
use modsurfer::risk::{RiskBounds, RiskLevel};

fn import(namespace: &str, name: &str, params: Vec<ValType>, results: Vec<ValType>) -> Import {
    Import {
        module_name: namespace.to_string(),
        func: Function { name: name.to_string(), ty: FunctionType { params, results } },
    }
}

fn export(name: &str, params: Vec<ValType>, results: Vec<ValType>) -> Export {
    Export { func: Function { name: name.to_string(), ty: FunctionType { params, results } } }
}

fn sample() -> Module {
    let mut module = Module::default();
    module.imports.push(import("wasi_snapshot_preview1", "fd_write", vec![ValType::I32; 4], vec![ValType::I32]));
    module.imports.push(import("env", "abort", vec![ValType::I32], vec![]));
    module.imports.push(import("wasi_snapshot_preview1", "proc_exit", vec![ValType::I32], vec![]));
    module.exports.push(export("_start", vec![], vec![]));
    module.exports.push(export("memory_size", vec![], vec![ValType::I64]));
    module.size = 2_000_000;
    module.complexity = Some(3000);
    module
}

#[test]
fn generated_policy_lists_what_the_module_has() {
    let module = sample();
    let policy = generate_checkfile(&module, &RiskBounds::default(), "2 MiB").validate;
    assert_eq!(policy.url, None);
    assert_eq!(policy.allow_wasi, Some(true));
    let imports = policy.imports.unwrap();
    assert_eq!(imports.exclude, None);
    assert_eq!(
        imports.included,
        Some(vec![
            ImportItem::Item {
                namespace: Some("wasi_snapshot_preview1".to_string()),
                name: "fd_write".to_string(),
                params: Some(vec![ValType::I32; 4]),
                results: Some(vec![ValType::I32]),
            },
            ImportItem::Item {
                namespace: Some("env".to_string()),
                name: "abort".to_string(),
                params: Some(vec![ValType::I32]),
                results: Some(vec![]),
            },
            ImportItem::Item {
                namespace: Some("wasi_snapshot_preview1".to_string()),
                name: "proc_exit".to_string(),
                params: Some(vec![ValType::I32]),
                results: Some(vec![]),
            },
        ])
    );
    let namespace = imports.namespace.unwrap();
    assert_eq!(namespace.exclude, None);
    assert_eq!(
        namespace.included,
        Some(vec![
            NamespaceItem::Name("wasi_snapshot_preview1".to_string()),
            NamespaceItem::Name("env".to_string()),
        ])
    );
    let exports = policy.exports.unwrap();
    assert_eq!(exports.max, Some(2));
    assert_eq!(exports.exclude, None);
    assert_eq!(
        exports.included,
        Some(vec![
            FunctionItem::Item {
                name: "_start".to_string(),
                params: Some(vec![]),
                results: Some(vec![]),
            },
            FunctionItem::Item {
                name: "memory_size".to_string(),
                params: Some(vec![]),
                results: Some(vec![ValType::I64]),
            },
        ])
    );
    assert_eq!(policy.size, Some(Size { max: Some("2 MiB".to_string()) }));
    assert_eq!(
        policy.complexity,
        Some(Complexity { max_risk: Some(RiskLevel::Medium), max_score: None })
    );
}

#[test]
fn generated_policy_of_an_empty_module_is_nearly_empty() {
    let policy = generate_checkfile(&Module::default(), &RiskBounds::default(), "0 B").validate;
    assert_eq!(policy.allow_wasi, None);
    let imports = policy.imports.unwrap();
    assert_eq!(imports.included, Some(vec![]));
    assert_eq!(imports.namespace, None);
    let exports = policy.exports.unwrap();
    assert_eq!(exports.included, Some(vec![]));
    assert_eq!(exports.max, Some(0));
    assert_eq!(policy.complexity, None);
}

#[test]
fn module_satisfies_the_policy_generated_for_it() {
    let module = sample();
    let bounds = RiskBounds::default();
    let policy = generate_checkfile(&module, &bounds, "2 MiB");
    let report = validate(policy, module, &bounds, "2 MiB").unwrap();
    assert!(!report.has_failures());
    let empty = Module::default();
    let policy = generate_checkfile(&empty, &bounds, "0 B");
    assert!(!validate(policy, empty, &bounds, "0 B").unwrap().has_failures());
}

#[test]
fn shown_size_that_rounds_down_breaks_the_generated_policy() {
    let module = sample();
    let bounds = RiskBounds::default();
    let policy = generate_checkfile(&module, &bounds, "1.9 MiB");
    let report = validate(policy, module, &bounds, "1.9 MiB").unwrap();
    assert_eq!(report.len(), 1);
    assert_eq!(report.get("size.max").unwrap().severity(), 1);
}

#[test]
fn import_under_two_signatures_breaks_the_generated_policy() {
    let mut module = Module::default();
    module.imports.push(import("env", "f", vec![ValType::I32], vec![]));
    module.imports.push(import("env", "f", vec![ValType::I64], vec![]));
    let bounds = RiskBounds::default();
    let policy = generate_checkfile(&module, &bounds, "0 B");
    let report = validate(policy, module, &bounds, "0 B").unwrap();
    assert_eq!(report.len(), 1);
    assert_eq!(report.path_at(0), "imports.include.env::f.params");
}
