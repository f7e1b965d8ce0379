use modsurfer::engine::{evaluate, namespace_prefix, validate};
use modsurfer::module::{Export, Function, FunctionType, Import, Module, ValType};
use modsurfer::policy::{
    Check, Complexity, Exports, FunctionItem, ImportItem, Imports, Namespace, NamespaceItem,
    PolicyError, Size, Validation,
};
use modsurfer::report::{Classification, Report};
use modsurfer::risk::{RiskBounds, RiskLevel};

fn import(namespace: &str, name: &str, params: Vec<ValType>, results: Vec<ValType>) -> Import {
    Import {
        module_name: namespace.to_string(),
        func: Function { name: name.to_string(), ty: FunctionType { params, results } },
    }
}

fn export(name: &str, params: Vec<ValType>, results: Vec<ValType>) -> Export {
    Export { func: Function { name: name.to_string(), ty: FunctionType { params, results } } }
}

fn policy(check: Check) -> Validation {
    Validation { validate: check }
}

fn run(check: Check, module: Module) -> Report {
    validate(policy(check), module, &RiskBounds::default(), "0 B").unwrap()
}

fn paths(report: &Report) -> Vec<String> {
    (0..report.len()).map(|i| report.path_at(i).to_string()).collect()
}

fn import_item(namespace: &str, name: &str) -> ImportItem {
    ImportItem::Item {
        namespace: Some(namespace.to_string()),
        name: name.to_string(),
        params: None,
        results: None,
    }
}

#[test]
fn wasi_import_is_reported_when_forbidden() {
    let mut module = Module::default();
    module.imports.push(import("wasi_snapshot_preview1", "fd_write", vec![], vec![]));
    let report = run(Check { allow_wasi: Some(false), ..Check::default() }, module);
    assert!(report.has_failures());
    assert_eq!(report.len(), 1);
    assert_eq!(report.path_at(0), "allow_wasi");
    let detail = report.get("allow_wasi").unwrap();
    assert_eq!(detail.severity(), 10);
    assert_eq!(detail.classification(), Classification::AbiCompatibility);
    assert_eq!(detail.expected(), "false");
    assert_eq!(detail.actual(), "true");
}

#[test]
fn wasi_import_is_fine_when_allowed_or_absent() {
    let mut module = Module::default();
    module.imports.push(import("wasi_snapshot_preview1", "fd_write", vec![], vec![]));
    let report = run(Check { allow_wasi: Some(true), ..Check::default() }, module);
    assert!(!report.has_failures());
    let report = run(Check { allow_wasi: Some(false), ..Check::default() }, Module::default());
    assert!(!report.has_failures());
    assert_eq!(report.exit_status(), 0);
}

#[test]
fn module_above_size_limit_is_reported() {
    let mut module = Module::default();
    module.size = 2_000_000;
    let check = Check { size: Some(Size { max: Some("1MB".to_string()) }), ..Check::default() };
    let report = validate(policy(check), module, &RiskBounds::default(), "1.9 MiB").unwrap();
    assert_eq!(report.len(), 1);
    let detail = report.get("size.max").unwrap();
    assert_eq!(detail.classification(), Classification::ResourceLimit);
    assert_eq!(detail.severity(), 1);
    assert_eq!(detail.expected(), "<= 1MB");
    assert_eq!(detail.actual(), "1.9 MiB");
    assert_eq!(report.exit_status(), 1);
}

#[test]
fn size_severity_counts_how_often_the_limit_fits_and_stops_at_ten() {
    let check = || Check { size: Some(Size { max: Some("1 KiB".to_string()) }), ..Check::default() };
    let mut module = Module::default();
    module.size = 1024;
    assert!(!run(check(), module).has_failures());
    let mut module = Module::default();
    module.size = 1025;
    assert_eq!(run(check(), module).get("size.max").unwrap().severity(), 1);
    let mut module = Module::default();
    module.size = 5 * 1024 + 3;
    assert_eq!(run(check(), module).get("size.max").unwrap().severity(), 5);
    let mut module = Module::default();
    module.size = 4_000_000;
    assert_eq!(run(check(), module).get("size.max").unwrap().severity(), 10);
}

#[test]
fn size_limit_of_zero_counts_as_one_when_scoring() {
    let check = Check { size: Some(Size { max: Some("0".to_string()) }), ..Check::default() };
    let mut module = Module::default();
    module.size = 3;
    assert_eq!(run(check, module).get("size.max").unwrap().severity(), 3);
    let check = Check { size: Some(Size { max: Some("0".to_string()) }), ..Check::default() };
    assert!(!run(check, Module::default()).has_failures());
}

#[test]
fn malformed_size_limit_is_an_error() {
    let check = Check { size: Some(Size { max: Some("^_^".to_string()) }), ..Check::default() };
    let outcome = validate(policy(check), Module::default(), &RiskBounds::default(), "0 B");
    assert_eq!(outcome, Err(PolicyError::InvalidSize));
    let check = Check {
        size: Some(Size { max: Some("000000000000000000001".to_string()) }),
        ..Check::default()
    };
    let outcome = validate(policy(check), Module::default(), &RiskBounds::default(), "0 B");
    assert_eq!(outcome, Err(PolicyError::InvalidSize));
}

#[test]
fn size_group_without_limit_constrains_nothing() {
    let check = Check { size: Some(Size { max: None }), ..Check::default() };
    let mut module = Module::default();
    module.size = u64::MAX;
    assert!(!run(check, module).has_failures());
}

#[test]
fn evaluate_takes_the_limit_as_given() {
    let check = Check { size: Some(Size { max: Some("whatever".to_string()) }), ..Check::default() };
    let mut module = Module::default();
    module.size = 25;
    let bounds = RiskBounds::default();
    let report = evaluate(&policy(check), &module, &bounds, "25 B", Some(10)).unwrap();
    let detail = report.get("size.max").unwrap();
    assert_eq!(detail.expected(), "<= whatever");
    assert_eq!(detail.actual(), "25 B");
    assert_eq!(detail.severity(), 2);
    let check = Check { size: Some(Size { max: Some("whatever".to_string()) }), ..Check::default() };
    assert_eq!(
        evaluate(&policy(check), &module, &bounds, "25 B", None),
        Err(PolicyError::InvalidSize)
    );
}

#[test]
fn whitelist_reports_each_import_that_is_not_listed() {
    let mut module = Module::default();
    module.imports.push(import("env", "a", vec![], vec![]));
    module.imports.push(import("env", "b", vec![], vec![]));
    let check = Check {
        imports: Some(Imports {
            included: Some(vec![import_item("env", "a")]),
            exclude: None,
            namespace: None,
        }),
        ..Check::default()
    };
    let report = run(check, module);
    assert_eq!(paths(&report), vec!["imports.include.env::b".to_string()]);
    let detail = report.get("imports.include.env::b").unwrap();
    assert_eq!(detail.severity(), 8);
    assert_eq!(detail.classification(), Classification::AbiCompatibility);
    assert_eq!(detail.expected(), "excluded");
    assert_eq!(detail.actual(), "included");
}

#[test]
fn required_exports_report_each_export_that_is_missing() {
    let mut module = Module::default();
    module.exports.push(export("a", vec![], vec![]));
    module.exports.push(export("b", vec![], vec![]));
    let check = Check {
        exports: Some(Exports {
            included: Some(vec![
                FunctionItem::Name("a".to_string()),
                FunctionItem::Name("c".to_string()),
            ]),
            exclude: None,
            max: None,
        }),
        ..Check::default()
    };
    let report = run(check, module);
    assert_eq!(paths(&report), vec!["exports.include.c".to_string()]);
    let detail = report.get("exports.include.c").unwrap();
    assert_eq!(detail.severity(), 10);
    assert_eq!(detail.classification(), Classification::AbiCompatibility);
    assert_eq!(detail.expected(), "included");
    assert_eq!(detail.actual(), "excluded");
}

#[test]
fn whitelist_item_without_namespace_names_no_import() {
    let mut module = Module::default();
    module.imports.push(import("env", "a", vec![], vec![]));
    let check = Check {
        imports: Some(Imports {
            included: Some(vec![ImportItem::Name("a".to_string())]),
            exclude: None,
            namespace: None,
        }),
        ..Check::default()
    };
    let report = run(check, module);
    assert_eq!(paths(&report), vec!["imports.include.env::a".to_string()]);
}

#[test]
fn empty_whitelist_reports_every_import_and_an_absent_one_none() {
    let mut module = Module::default();
    module.imports.push(import("env", "a", vec![], vec![]));
    module.imports.push(import("host", "b", vec![], vec![]));
    let check = Check {
        imports: Some(Imports { included: Some(vec![]), exclude: None, namespace: None }),
        ..Check::default()
    };
    let report = run(check, module.clone());
    assert_eq!(
        paths(&report),
        vec!["imports.include.env::a".to_string(), "imports.include.host::b".to_string()]
    );
    let check = Check {
        imports: Some(Imports { included: None, exclude: None, namespace: None }),
        ..Check::default()
    };
    assert!(!run(check, module).has_failures());
}

#[test]
fn whitelist_checks_the_signature_of_a_listed_import() {
    let mut module = Module::default();
    module.imports.push(import("env", "a", vec![ValType::I32, ValType::I64], vec![ValType::F32]));
    let item = ImportItem::Item {
        namespace: Some("env".to_string()),
        name: "a".to_string(),
        params: Some(vec![ValType::I32]),
        results: Some(vec![]),
    };
    let check = Check {
        imports: Some(Imports { included: Some(vec![item]), exclude: None, namespace: None }),
        ..Check::default()
    };
    let report = run(check, module);
    assert_eq!(
        paths(&report),
        vec![
            "imports.include.env::a.params".to_string(),
            "imports.include.env::a.results".to_string()
        ]
    );
    let params = report.get("imports.include.env::a.params").unwrap();
    assert_eq!(params.expected(), "[I32]");
    assert_eq!(params.actual(), "[I32, I64]");
    assert_eq!(params.severity(), 8);
    assert_eq!(params.classification(), Classification::AbiCompatibility);
    let results = report.get("imports.include.env::a.results").unwrap();
    assert_eq!(results.expected(), "[]");
    assert_eq!(results.actual(), "[F32]");
}

#[test]
fn matching_signature_leaves_no_entry() {
    let mut module = Module::default();
    module.imports.push(import("env", "a", vec![ValType::I32], vec![ValType::ExternRef]));
    let item = ImportItem::Item {
        namespace: Some("env".to_string()),
        name: "a".to_string(),
        params: Some(vec![ValType::I32]),
        results: Some(vec![ValType::ExternRef]),
    };
    let check = Check {
        imports: Some(Imports { included: Some(vec![item]), exclude: None, namespace: None }),
        ..Check::default()
    };
    assert!(!run(check, module).has_failures());
}

#[test]
fn last_import_of_a_name_gives_the_signature_that_counts() {
    let mut module = Module::default();
    module.imports.push(import("env", "a", vec![ValType::I32], vec![]));
    module.imports.push(import("env", "a", vec![ValType::I64], vec![]));
    let item = ImportItem::Item {
        namespace: Some("env".to_string()),
        name: "a".to_string(),
        params: Some(vec![ValType::I64]),
        results: None,
    };
    let check = Check {
        imports: Some(Imports { included: Some(vec![item]), exclude: None, namespace: None }),
        ..Check::default()
    };
    assert!(!run(check, module).has_failures());
}

#[test]
fn excluded_import_is_reported_by_namespace_and_name() {
    let mut module = Module::default();
    module.imports.push(import("env", "abort", vec![ValType::I32], vec![]));
    let check = Check {
        imports: Some(Imports {
            included: None,
            exclude: Some(vec![import_item("env", "abort"), import_item("env", "exit")]),
            namespace: None,
        }),
        ..Check::default()
    };
    let report = run(check, module);
    assert_eq!(paths(&report), vec!["imports.exclude.env::abort".to_string()]);
    let detail = report.get("imports.exclude.env::abort").unwrap();
    assert_eq!(detail.severity(), 5);
    assert_eq!(detail.classification(), Classification::AbiCompatibility);
    assert_eq!(detail.expected(), "excluded");
    assert_eq!(detail.actual(), "included");
}

#[test]
fn excluded_import_by_bare_name_is_found_in_any_namespace() {
    let mut module = Module::default();
    module.imports.push(import("zeta", "abort", vec![ValType::I64], vec![]));
    module.imports.push(import("alpha", "abort", vec![ValType::I32], vec![]));
    let item = ImportItem::Item {
        namespace: None,
        name: "abort".to_string(),
        params: Some(vec![ValType::I32]),
        results: None,
    };
    let check = Check {
        imports: Some(Imports { included: None, exclude: Some(vec![item]), namespace: None }),
        ..Check::default()
    };
    let report = run(check, module);
    assert_eq!(
        paths(&report),
        vec!["imports.exclude.abort".to_string(), "imports.exclude.abort.params".to_string()]
    );
    let params = report.get("imports.exclude.abort.params").unwrap();
    assert_eq!(params.expected(), "[I32]");
    assert_eq!(params.actual(), "[I64]");
    let check = Check {
        imports: Some(Imports {
            included: None,
            exclude: Some(vec![ImportItem::Name("missing".to_string())]),
            namespace: None,
        }),
        ..Check::default()
    };
    let mut module = Module::default();
    module.imports.push(import("env", "abort", vec![], vec![]));
    assert!(!run(check, module).has_failures());
}

#[test]
fn required_namespace_and_its_functions_are_reported_when_missing() {
    let mut module = Module::default();
    module.imports.push(import("env", "log", vec![ValType::I32], vec![]));
    let rules = Namespace {
        included: Some(vec![
            NamespaceItem::Name("host".to_string()),
            NamespaceItem::Item {
                name: "env".to_string(),
                functions: vec![
                    FunctionItem::Name("log".to_string()),
                    FunctionItem::Name("trace".to_string()),
                    FunctionItem::Item {
                        name: "log".to_string(),
                        params: Some(vec![]),
                        results: None,
                    },
                ],
            },
        ]),
        exclude: None,
    };
    let check = Check {
        imports: Some(Imports { included: None, exclude: None, namespace: Some(rules) }),
        ..Check::default()
    };
    let report = run(check, module);
    assert_eq!(
        paths(&report),
        vec![
            "imports.namespace.include.env::log.params".to_string(),
            "imports.namespace.include.env::trace".to_string(),
            "imports.namespace.include.host".to_string(),
        ]
    );
    let host = report.get("imports.namespace.include.host").unwrap();
    assert_eq!(host.severity(), 8);
    assert_eq!(host.expected(), "included");
    assert_eq!(host.actual(), "excluded");
    assert_eq!(host.classification(), Classification::AbiCompatibility);
    let trace = report.get("imports.namespace.include.env::trace").unwrap();
    assert_eq!(trace.severity(), 8);
    let params = report.get("imports.namespace.include.env::log.params").unwrap();
    assert_eq!(params.expected(), "[]");
    assert_eq!(params.actual(), "[I32]");
}

#[test]
fn excluded_namespace_and_its_functions_are_reported_when_present() {
    let mut module = Module::default();
    module.imports.push(import("env", "log", vec![], vec![]));
    let rules = Namespace {
        included: None,
        exclude: Some(vec![
            NamespaceItem::Name("host".to_string()),
            NamespaceItem::Item {
                name: "env".to_string(),
                functions: vec![
                    FunctionItem::Name("log".to_string()),
                    FunctionItem::Name("trace".to_string()),
                ],
            },
        ]),
    };
    let check = Check {
        imports: Some(Imports { included: None, exclude: None, namespace: Some(rules) }),
        ..Check::default()
    };
    let report = run(check, module);
    assert_eq!(
        paths(&report),
        vec![
            "imports.namespace.exclude.env".to_string(),
            "imports.namespace.exclude.env::log".to_string(),
        ]
    );
    let env = report.get("imports.namespace.exclude.env").unwrap();
    assert_eq!(env.severity(), 10);
    assert_eq!(env.expected(), "excluded");
    assert_eq!(env.actual(), "included");
    assert_eq!(env.classification(), Classification::AbiCompatibility);
    assert_eq!(report.get("imports.namespace.exclude.env::log").unwrap().severity(), 10);
}

#[test]
fn too_many_exports_are_scored_by_the_overage() {
    let module_with = |n: usize| {
        let mut module = Module::default();
        for i in 0..n {
            module.exports.push(export(&format!("f{}", i), vec![], vec![]));
        }
        module
    };
    let check = |max: u32| Check {
        exports: Some(Exports { included: None, exclude: None, max: Some(max) }),
        ..Check::default()
    };
    assert!(!run(check(2), module_with(2)).has_failures());
    let report = run(check(2), module_with(3));
    let detail = report.get("exports.max").unwrap();
    assert_eq!(detail.severity(), 5);
    assert_eq!(detail.classification(), Classification::Security);
    assert_eq!(detail.expected(), "<= 2");
    assert_eq!(detail.actual(), "3");
    assert_eq!(run(check(3), module_with(4)).get("exports.max").unwrap().severity(), 4);
    assert_eq!(run(check(2), module_with(5)).get("exports.max").unwrap().severity(), 10);
    assert_eq!(run(check(10), module_with(11)).get("exports.max").unwrap().severity(), 1);
    assert_eq!(run(check(10), module_with(12)).get("exports.max").unwrap().severity(), 2);
}

#[test]
fn export_bound_of_zero_is_broken_by_any_export() {
    let mut module = Module::default();
    module.exports.push(export("run", vec![], vec![]));
    let check = Check {
        exports: Some(Exports { included: None, exclude: None, max: Some(0) }),
        ..Check::default()
    };
    let report = run(check, module);
    let detail = report.get("exports.max").unwrap();
    assert_eq!(detail.severity(), 10);
    assert_eq!(detail.expected(), "<= 0");
    assert_eq!(detail.actual(), "1");
    let check = Check {
        exports: Some(Exports { included: None, exclude: None, max: Some(0) }),
        ..Check::default()
    };
    assert!(!run(check, Module::default()).has_failures());
}

#[test]
fn export_severity_never_falls_as_exports_are_added() {
    let check = || Check {
        exports: Some(Exports { included: None, exclude: None, max: Some(7) }),
        ..Check::default()
    };
    let mut module = Module::default();
    let mut last = 0;
    for i in 0..30 {
        module.exports.push(export(&format!("f{}", i), vec![], vec![]));
        let report = run(check(), module.clone());
        let severity = report.get("exports.max").map(|d| d.severity()).unwrap_or(0);
        assert!(severity >= last);
        assert!(severity <= 10);
        last = severity;
    }
    assert_eq!(last, 10);
}

#[test]
fn excluded_export_is_reported_with_its_signature() {
    let mut module = Module::default();
    module.exports.push(export("debug", vec![ValType::I32], vec![]));
    let check = Check {
        exports: Some(Exports {
            included: None,
            exclude: Some(vec![
                FunctionItem::Item {
                    name: "debug".to_string(),
                    params: Some(vec![]),
                    results: Some(vec![]),
                },
                FunctionItem::Name("trace".to_string()),
            ]),
            max: None,
        }),
        ..Check::default()
    };
    let report = run(check, module);
    assert_eq!(
        paths(&report),
        vec!["exports.exclude.debug".to_string(), "exports.exclude.debug.params".to_string()]
    );
    let detail = report.get("exports.exclude.debug").unwrap();
    assert_eq!(detail.severity(), 5);
    assert_eq!(detail.classification(), Classification::AbiCompatibility);
    assert_eq!(detail.expected(), "excluded");
    assert_eq!(detail.actual(), "included");
}

#[test]
fn required_export_is_checked_against_its_signature() {
    let mut module = Module::default();
    module.exports.push(export("run", vec![ValType::I32], vec![ValType::I32]));
    let check = Check {
        exports: Some(Exports {
            included: Some(vec![FunctionItem::Item {
                name: "run".to_string(),
                params: Some(vec![ValType::I32]),
                results: Some(vec![ValType::I64]),
            }]),
            exclude: None,
            max: None,
        }),
        ..Check::default()
    };
    let report = run(check, module);
    assert_eq!(paths(&report), vec!["exports.include.run.results".to_string()]);
    let detail = report.get("exports.include.run.results").unwrap();
    assert_eq!(detail.expected(), "[I64]");
    assert_eq!(detail.actual(), "[I32]");
}

#[test]
fn complexity_above_the_risk_level_is_reported() {
    let check = |risk| Check {
        complexity: Some(Complexity { max_risk: Some(risk), max_score: None }),
        ..Check::default()
    };
    let mut module = Module::default();
    module.complexity = Some(6000);
    let report = run(check(RiskLevel::Low), module.clone());
    let detail = report.get("complexity.max_risk").unwrap();
    assert_eq!(detail.severity(), 2);
    assert_eq!(detail.classification(), Classification::ResourceLimit);
    assert_eq!(detail.expected(), "<= low");
    assert_eq!(detail.actual(), "medium");
    assert!(!run(check(RiskLevel::Medium), module.clone()).has_failures());
    assert!(!run(check(RiskLevel::High), module).has_failures());
    let mut module = Module::default();
    module.complexity = Some(2500);
    assert!(!run(check(RiskLevel::Low), module).has_failures());
    let mut module = Module::default();
    module.complexity = Some(1_000_000);
    let report = run(check(RiskLevel::Low), module);
    let detail = report.get("complexity.max_risk").unwrap();
    assert_eq!(detail.severity(), 10);
    assert_eq!(detail.actual(), "high");
}

#[test]
fn complexity_is_measured_against_the_bounds_given() {
    let check = Check {
        complexity: Some(Complexity { max_risk: Some(RiskLevel::Medium), max_score: None }),
        ..Check::default()
    };
    let mut module = Module::default();
    module.complexity = Some(90);
    let bounds = RiskBounds { low: 10, medium: 20, high: 30 };
    let report = validate(policy(check), module, &bounds, "0 B").unwrap();
    let detail = report.get("complexity.max_risk").unwrap();
    assert_eq!(detail.severity(), 4);
    assert_eq!(detail.actual(), "high");
}

#[test]
fn complexity_rule_needs_a_known_complexity() {
    let check = Check {
        complexity: Some(Complexity { max_risk: Some(RiskLevel::Low), max_score: None }),
        ..Check::default()
    };
    let outcome = validate(policy(check), Module::default(), &RiskBounds::default(), "0 B");
    assert_eq!(outcome, Err(PolicyError::UnknownComplexity));
}

#[test]
fn complexity_rule_by_score_is_not_supported() {
    let mut module = Module::default();
    module.complexity = Some(1);
    let with = |max_risk, max_score| Check {
        complexity: Some(Complexity { max_risk, max_score }),
        ..Check::default()
    };
    let bounds = RiskBounds::default();
    assert_eq!(
        validate(policy(with(None, Some(5))), module.clone(), &bounds, "0 B"),
        Err(PolicyError::UnsupportedComplexityCheck)
    );
    assert_eq!(
        validate(policy(with(Some(RiskLevel::Low), Some(5))), module.clone(), &bounds, "0 B"),
        Err(PolicyError::UnsupportedComplexityCheck)
    );
    assert_eq!(
        validate(policy(with(None, None)), module, &bounds, "0 B"),
        Err(PolicyError::NoComplexityCheck)
    );
}

#[test]
fn an_error_leaves_no_partial_report() {
    let mut module = Module::default();
    module.imports.push(import("wasi_snapshot_preview1", "fd_write", vec![], vec![]));
    let check = Check {
        allow_wasi: Some(false),
        complexity: Some(Complexity { max_risk: None, max_score: Some(1) }),
        ..Check::default()
    };
    let outcome = validate(policy(check), module, &RiskBounds::default(), "0 B");
    assert_eq!(outcome, Err(PolicyError::UnknownComplexity));
}

#[test]
fn policy_without_rules_reports_nothing() {
    let mut module = Module::default();
    module.imports.push(import("env", "a", vec![], vec![]));
    module.exports.push(export("b", vec![], vec![]));
    module.size = 12345;
    let report = run(Check::default(), module);
    assert!(!report.has_failures());
    assert_eq!(report.len(), 0);
}

#[test]
fn all_groups_are_evaluated_and_listed_in_order_of_path() {
    let mut module = Module::default();
    module.imports.push(import("wasi_snapshot_preview1", "fd_write", vec![], vec![]));
    module.exports.push(export("run", vec![], vec![]));
    module.size = 4096;
    module.complexity = Some(60_000);
    let check = Check {
        url: None,
        allow_wasi: Some(false),
        imports: Some(Imports { included: Some(vec![]), exclude: None, namespace: None }),
        exports: Some(Exports { included: None, exclude: None, max: Some(0) }),
        size: Some(Size { max: Some("1KiB".to_string()) }),
        complexity: Some(Complexity { max_risk: Some(RiskLevel::Medium), max_score: None }),
    };
    let report = validate(policy(check), module, &RiskBounds::default(), "4 KiB").unwrap();
    assert_eq!(
        paths(&report),
        vec![
            "allow_wasi".to_string(),
            "complexity.max_risk".to_string(),
            "exports.max".to_string(),
            "imports.include.wasi_snapshot_preview1::fd_write".to_string(),
            "size.max".to_string(),
        ]
    );
    assert_eq!(report.get("size.max").unwrap().severity(), 4);
    assert_eq!(report.get("complexity.max_risk").unwrap().severity(), 1);
}

#[test]
fn namespace_prefix_puts_the_namespace_in_front() {
    assert_eq!(namespace_prefix(&import_item("env", "x"), "abort"), "env::abort");
    assert_eq!(namespace_prefix(&ImportItem::Name("x".to_string()), "abort"), "abort");
}
