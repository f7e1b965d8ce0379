use modsurfer::api::{
    make_endpoint, search_sort, Command, List, Method, Persisted, SortDirection, SortField,
};
use modsurfer::cli::{BytesOrPath, IdOrFilename, OutputFormat};
use modsurfer::convert::api;
use modsurfer::convert::from_api;
use modsurfer::convert::to_api;
use modsurfer::convert::types::{AuditOutcome, Order, Pagination, Sort};
use modsurfer::module::{
    Export, Function, FunctionType, Import, Module, SourceLanguage, ValType,
};
use modsurfer::policy::Validation;
use modsurfer::checkfile::DocumentError;
use modsurfer::document::SchemaError;
use modsurfer::remote::{
    after_fetch, next_step, read_step, Fetched, Origin, RemoteError, Step,
};

#[test]
fn list_keeps_its_items_and_its_window() {
    let list = List::new(vec!["a".to_string(), "b".to_string()], 9, 4, 2);
    assert_eq!(list.vec(), vec![&"a".to_string(), &"b".to_string()]);
    let (items, offset, limit) = list.split();
    assert_eq!(items.len(), 2);
    assert_eq!(items[1], "b");
    assert_eq!(offset, 4);
    assert_eq!(limit, 2);
    let empty: List<u8> = List::new(vec![], 0, 0, 50);
    assert!(empty.vec().is_empty());
}

#[test]
fn persisted_object_keeps_its_identifier() {
    let stored = Persisted::from_module(17, Module::default());
    assert_eq!(stored.get_id(), 17);
    assert_eq!(stored.get_inner(), &Module::default());
    assert_eq!(stored.as_ref(), &Module::default());
    assert_eq!(stored.into_inner(), Module::default());
    assert_eq!(Persisted::from_module(-1, 5u8).get_id(), -1);
}

#[test]
fn sort_direction_is_read_in_any_case() {
    assert_eq!(SortDirection::default(), SortDirection::Desc);
    assert_eq!(SortDirection::from_str("asc"), Some(SortDirection::Asc));
    assert_eq!(SortDirection::from_str("ASC"), Some(SortDirection::Asc));
    assert_eq!(SortDirection::from_str("Desc"), Some(SortDirection::Desc));
    assert_eq!(SortDirection::from_str("up"), None);
    assert_eq!(SortDirection::from_str(""), None);
    assert_eq!(SortDirection::from_lowercase("asc"), Some(SortDirection::Asc));
    assert_eq!(SortDirection::from_lowercase("ASC"), None);
}

#[test]
fn sort_field_is_read_in_any_case() {
    let all = [
        ("size", SortField::Size),
        ("name", SortField::Name),
        ("created_at", SortField::CreatedAt),
        ("language", SortField::Language),
        ("imports_count", SortField::ImportsCount),
        ("exports_count", SortField::ExportsCount),
        ("sha256", SortField::Sha256),
        ("complexity", SortField::Complexity),
    ];
    for (word, field) in all {
        assert_eq!(SortField::from_str(word), Some(field));
        assert_eq!(SortField::from_str(&word.to_uppercase()), Some(field));
        assert_eq!(SortField::from_lowercase(word), Some(field));
    }
    assert_eq!(SortField::from_str("hash"), None);
    assert_eq!(SortField::from_lowercase("Size"), None);
}

#[test]
fn catalog_types_are_read() {
    assert_eq!(from_api::source_language(api::SourceLanguage::Rust), SourceLanguage::Rust);
    assert_eq!(from_api::source_language(api::SourceLanguage::Cpp), SourceLanguage::Cpp);
    assert_eq!(from_api::source_language(api::SourceLanguage::Unknown), SourceLanguage::Unknown);
    assert_eq!(from_api::val_type(api::ValType::I32), ValType::I32);
    assert_eq!(from_api::val_type(api::ValType::FuncRef), ValType::FuncRef);
    assert_eq!(from_api::val_type(api::ValType::ExternRef), ValType::ExternRef);
    assert_eq!(from_api::val_type(api::ValType::Bool), ValType::ExternRef);
    assert_eq!(from_api::val_type(api::ValType::String), ValType::ExternRef);
    assert_eq!(
        from_api::val_types(vec![api::ValType::F64, api::ValType::U8, api::ValType::V128]),
        vec![ValType::F64, ValType::ExternRef, ValType::V128]
    );
    assert_eq!(
        from_api::sort(api::Sort { direction: api::Direction::Desc, field: api::Field::Sha256 }),
        Sort { order: Order::Desc, field: modsurfer::convert::types::SortField::Sha256 }
    );
    assert_eq!(
        from_api::sort(api::Sort { direction: api::Direction::Asc, field: api::Field::CreatedAt }),
        Sort { order: Order::Asc, field: modsurfer::convert::types::SortField::CreatedAt }
    );
}

#[test]
fn catalog_imports_and_exports_are_read() {
    let function = api::Function {
        name: "log".to_string(),
        params: vec![api::ValType::I32, api::ValType::Char],
        results: vec![api::ValType::I64],
    };
    let expected = Function {
        name: "log".to_string(),
        ty: FunctionType {
            params: vec![ValType::I32, ValType::ExternRef],
            results: vec![ValType::I64],
        },
    };
    let message = api::Import { module_name: "env".to_string(), func: Some(function.clone()) };
    assert_eq!(
        from_api::import(message.clone()),
        Import { module_name: "env".to_string(), func: expected.clone() }
    );
    let bare = api::Import { module_name: "host".to_string(), func: None };
    assert_eq!(
        from_api::import(bare.clone()),
        Import { module_name: "host".to_string(), func: Function::default() }
    );
    assert_eq!(
        from_api::imports(vec![message, bare]),
        vec![
            Import { module_name: "env".to_string(), func: expected.clone() },
            Import { module_name: "host".to_string(), func: Function::default() },
        ]
    );
    let message = api::Export { func: Some(function) };
    assert_eq!(from_api::export(message.clone()), Export { func: expected.clone() });
    assert_eq!(
        from_api::exports(vec![api::Export { func: None }, message]),
        vec![Export { func: Function::default() }, Export { func: expected }]
    );
    assert!(from_api::imports(vec![]).is_empty());
}

#[test]
fn audit_request_is_read() {
    let request = api::AuditModulesRequest {
        pagination: Some(api::Pagination { offset: 3, limit: 7 }),
        outcome: api::AuditOutcome::PASS,
        checkfile: vec![1, 2, 3],
    };
    let audit = from_api::audit(request);
    assert_eq!(audit.page, Pagination { offset: 3, limit: 7 });
    assert_eq!(audit.outcome, AuditOutcome::Pass);
    assert_eq!(audit.checkfile, vec![1, 2, 3]);
    let request = api::AuditModulesRequest {
        pagination: None,
        outcome: api::AuditOutcome::FAIL,
        checkfile: vec![],
    };
    let audit = from_api::audit(request);
    assert_eq!(audit.page, Pagination { offset: 0, limit: 10 });
    assert_eq!(audit.page, Pagination::default());
    assert_eq!(audit.outcome, AuditOutcome::Fail);
}

#[test]
fn audit_outcome_is_read_and_written() {
    assert_eq!(AuditOutcome::from("pass".to_string()), AuditOutcome::Pass);
    assert_eq!(AuditOutcome::from("PASS".to_string()), AuditOutcome::Pass);
    assert_eq!(AuditOutcome::from("fail".to_string()), AuditOutcome::Fail);
    assert_eq!(AuditOutcome::from("anything".to_string()), AuditOutcome::Fail);
    assert_eq!(AuditOutcome::from_lowercase("PASS"), AuditOutcome::Fail);
    assert_eq!(AuditOutcome::default(), AuditOutcome::Fail);
    assert_eq!(AuditOutcome::Pass.to_string(), "pass");
    assert_eq!(AuditOutcome::Fail.to_string(), "fail");
    assert_eq!(AuditOutcome::Pass.to_api(), api::AuditOutcome::PASS);
    assert_eq!(AuditOutcome::from_api(api::AuditOutcome::FAIL), AuditOutcome::Fail);
}

#[test]
fn library_types_are_written_for_the_catalog() {
    assert_eq!(to_api::source_language(SourceLanguage::Go), api::SourceLanguage::Go);
    assert_eq!(to_api::source_language(SourceLanguage::Zig), api::SourceLanguage::Unknown);
    assert_eq!(to_api::source_language(SourceLanguage::Unknown), api::SourceLanguage::Unknown);
    assert_eq!(to_api::val_type(ValType::V128), api::ValType::V128);
    assert_eq!(to_api::val_type(ValType::ExternRef), api::ValType::ExternRef);
    assert_eq!(to_api::val_type(ValType::U64), api::ValType::ExternRef);
    assert_eq!(
        to_api::val_types(vec![ValType::I32, ValType::Bool]),
        vec![api::ValType::I32, api::ValType::ExternRef]
    );
    for ty in [ValType::I32, ValType::I64, ValType::F32, ValType::F64, ValType::FuncRef] {
        assert_eq!(from_api::val_type(to_api::val_type(ty)), ty);
    }
    let function = Function {
        name: "run".to_string(),
        ty: FunctionType { params: vec![ValType::I64, ValType::S8], results: vec![ValType::F32] },
    };
    let message = api::Function {
        name: "run".to_string(),
        params: vec![api::ValType::I64, api::ValType::ExternRef],
        results: vec![api::ValType::F32],
    };
    assert_eq!(
        to_api::exports(vec![Export { func: function.clone() }]),
        vec![api::Export { func: Some(message.clone()) }]
    );
    assert_eq!(
        to_api::imports(vec![Import { module_name: "env".to_string(), func: function }]),
        vec![api::Import { module_name: "env".to_string(), func: Some(message) }]
    );
    assert!(to_api::imports(vec![]).is_empty());
}

#[test]
fn requests_know_their_route() {
    assert_eq!(Command::CreateModule.method(), Method::Put);
    assert_eq!(Command::CreateModule.route(), "/api/v1/module");
    assert_eq!(Command::GetModule.method(), Method::Post);
    assert_eq!(Command::GetModule.route(), "/api/v1/module");
    assert_eq!(Command::ListModules.route(), "/api/v1/modules");
    assert_eq!(Command::DeleteModules.method(), Method::Delete);
    assert_eq!(Command::DeleteModules.route(), "/api/v1/modules");
    assert_eq!(Command::SearchModules.route(), "/api/v1/search");
    assert_eq!(Command::AuditModules.route(), "/api/v1/audit");
    assert_eq!(Command::DiffModules.route(), "/api/v1/diff");
    assert_eq!(Command::ValidateModule.route(), "/api/v1/validate");
    assert_eq!(Command::GetModuleGraph.route(), "/api/v1/module_graph");
    assert_eq!(Command::CallPlugin.method(), Method::Post);
    assert_eq!(Command::InstallPlugin.method(), Method::Put);
    assert_eq!(Command::UninstallPlugin.method(), Method::Delete);
    assert_eq!(Command::UninstallPlugin.route(), "/api/v1/plugin");
    assert_eq!(
        make_endpoint("http://localhost:1739", "/api/v1/module"),
        "http://localhost:1739/api/v1/module"
    );
    assert_eq!(
        make_endpoint("http://localhost:1739///", "/api/v1/module"),
        "http://localhost:1739/api/v1/module"
    );
    assert_eq!(make_endpoint("", "/x"), "/x");
    assert_eq!(make_endpoint("//", "/x"), "/x");
    assert_eq!(make_endpoint("é/", "/x"), "é/x");
    assert_eq!(search_sort(None, Some(SortDirection::Asc)), None);
    assert_eq!(
        search_sort(Some(SortField::Name), None),
        Some(api::Sort { direction: api::Direction::Desc, field: api::Field::Name })
    );
    assert_eq!(
        search_sort(Some(SortField::Size), Some(SortDirection::Asc)),
        Some(api::Sort { direction: api::Direction::Asc, field: api::Field::Size })
    );
    assert_eq!(SortField::CreatedAt.to_proto(), api::Field::CreatedAt);
    assert_eq!(SortDirection::Desc.to_proto(), api::Direction::Desc);
}

#[test]
fn plugin_input_is_bytes_or_a_path() {
    assert_eq!(BytesOrPath::from(&"@data.bin".to_string()), BytesOrPath::Path("data.bin".to_string()));
    assert_eq!(BytesOrPath::from(&"@".to_string()), BytesOrPath::Path("".to_string()));
    assert_eq!(BytesOrPath::from(&"@@é".to_string()), BytesOrPath::Path("@é".to_string()));
    assert_eq!(BytesOrPath::from(&"data".to_string()), BytesOrPath::Bytes(b"data".to_vec()));
    assert_eq!(BytesOrPath::from(&"".to_string()), BytesOrPath::Bytes(vec![]));
    assert_eq!(BytesOrPath::from(&"é@".to_string()), BytesOrPath::Bytes("é@".as_bytes().to_vec()));
}

#[test]
fn module_argument_is_an_identifier_or_a_file_name() {
    assert_eq!(IdOrFilename::parse("42".to_string()), IdOrFilename::Id(42));
    assert_eq!(IdOrFilename::parse("-7".to_string()), IdOrFilename::Id(-7));
    assert_eq!(
        IdOrFilename::parse("module.wasm".to_string()),
        IdOrFilename::Filename("module.wasm".to_string())
    );
    assert_eq!(IdOrFilename::parse("".to_string()), IdOrFilename::Filename("".to_string()));
    assert_eq!(
        IdOrFilename::parse("9223372036854775808".to_string()),
        IdOrFilename::Filename("9223372036854775808".to_string())
    );
}

#[test]
fn output_format_is_a_table_unless_json_is_asked_for() {
    assert_eq!(OutputFormat::default(), OutputFormat::Table);
    assert_eq!(OutputFormat::from("json".to_string()), OutputFormat::Json);
    assert_eq!(OutputFormat::from("table".to_string()), OutputFormat::Table);
    assert_eq!(OutputFormat::from("JSON".to_string()), OutputFormat::Table);
    assert_eq!(OutputFormat::from_word(""), OutputFormat::Table);
}

#[test]
fn namespaces_are_listed_once_in_order_of_first_mention() {
    let import = |namespace: &str, name: &str| Import {
        module_name: namespace.to_string(),
        func: Function { name: name.to_string(), ty: FunctionType::default() },
    };
    let mut module = Module::default();
    assert!(module.get_import_namespaces().is_empty());
    assert!(!module.uses_wasi());
    module.imports.push(import("env", "a"));
    module.imports.push(import("wasi_snapshot_preview1", "b"));
    module.imports.push(import("env", "c"));
    module.imports.push(import("host", "d"));
    module.imports.push(import("wasi_snapshot_preview1", "e"));
    assert_eq!(module.get_import_namespaces(), vec!["env", "wasi_snapshot_preview1", "host"]);
    assert!(module.uses_wasi());
}

#[test]
fn local_policy_with_a_url_is_fetched_once() {
    let mut local = Validation::default();
    local.validate.url = Some("https://example.com/policy.yaml".to_string());
    assert_eq!(
        next_step(local.clone(), Origin::Local),
        Step::Fetch("https://example.com/policy.yaml".to_string())
    );
    let mut fetched = Validation::default();
    fetched.validate.url = Some("https://example.com/other.yaml".to_string());
    fetched.validate.allow_wasi = Some(false);
    assert_eq!(next_step(fetched.clone(), Origin::Remote), Step::Evaluate(fetched));
    assert_eq!(next_step(local.clone(), Origin::Remote), Step::Evaluate(local));
}

#[test]
fn local_policy_without_a_url_is_evaluated() {
    let local = Validation::default();
    assert_eq!(next_step(local.clone(), Origin::Local), Step::Evaluate(local));
}

fn stored_message() -> api::Module {
    let mut function_hashes = std::collections::HashMap::new();
    function_hashes.insert("run".to_string(), "abc".to_string());
    api::Module {
        id: 12,
        hash: "f00d".to_string(),
        imports: vec![api::Import {
            module_name: "env".to_string(),
            func: Some(api::Function {
                name: "log".to_string(),
                params: vec![api::ValType::I32],
                results: vec![],
            }),
        }],
        exports: vec![api::Export { func: None }],
        size: 77,
        location: "file:///tmp/a.wasm".to_string(),
        source_language: api::SourceLanguage::Go,
        metadata: std::collections::HashMap::new(),
        inserted_at: 5,
        strings: vec!["panic".to_string(), "é".to_string()],
        complexity: Some(9),
        graph: Some(vec![1, 2, 3]),
        function_hashes,
    }
}

fn expected_module() -> Module {
    let mut module = Module::default();
    module.hash = "f00d".to_string();
    module.imports = vec![Import {
        module_name: "env".to_string(),
        func: Function {
            name: "log".to_string(),
            ty: FunctionType { params: vec![ValType::I32], results: vec![] },
        },
    }];
    module.exports = vec![Export { func: Function::default() }];
    module.size = 77;
    module.location = "file:///tmp/a.wasm".to_string();
    module.source_language = SourceLanguage::Go;
    module.inserted_at = 5;
    module.strings = vec!["panic".to_string(), "é".to_string()];
    module.complexity = Some(9);
    module.graph = Some(vec![1, 2, 3]);
    module.function_hashes.insert("run".to_string(), "abc".to_string());
    module
}

#[test]
fn catalog_module_is_read() {
    let message = stored_message();
    let mut expected = expected_module();
    expected.metadata = Some(std::collections::HashMap::new());
    assert_eq!(from_api::module(&message), expected);
    let mut message = stored_message();
    message.metadata.insert("team".to_string(), "core".to_string());
    let module = from_api::module(&message);
    assert_eq!(module.metadata, Some(message.metadata));
}

#[test]
fn stored_module_keeps_its_identifier_and_drops_empty_metadata() {
    let stored = modsurfer::api::stored(stored_message());
    assert_eq!(stored.get_id(), 12);
    assert_eq!(stored.get_inner(), &expected_module());
    let mut message = stored_message();
    message.metadata.insert("team".to_string(), "core".to_string());
    let stored = modsurfer::api::stored(message.clone());
    assert_eq!(stored.get_inner().metadata, Some(message.metadata));
}

#[test]
fn module_is_written_for_the_catalog() {
    let mut message = stored_message();
    message.exports = vec![api::Export { func: Some(api::Function::default()) }];
    assert_eq!(to_api::module(expected_module(), 12), message);
    let mut module = expected_module();
    let mut metadata = std::collections::HashMap::new();
    metadata.insert("team".to_string(), "core".to_string());
    module.metadata = Some(metadata.clone());
    assert_eq!(to_api::module(module, -3).metadata, metadata);
    assert_eq!(to_api::module(Module::default(), -3).id, -3);
}

#[test]
fn policy_is_read_and_planned_from_its_text() {
    let text = b"validate:\n  url: https://example.com/policy.yaml\n  allow_wasi: false\n";
    assert_eq!(
        read_step(text, Origin::Local),
        Ok(Step::Fetch("https://example.com/policy.yaml".to_string()))
    );
    match read_step(text, Origin::Remote) {
        Ok(Step::Evaluate(policy)) => {
            assert_eq!(policy.validate.allow_wasi, Some(false));
            assert_eq!(policy.validate.url, Some("https://example.com/policy.yaml".to_string()));
        }
        other => panic!("{:?}", other),
    }
    assert_eq!(
        read_step(b"validate:\n  allow_wasi: false\n", Origin::Local),
        Ok(Step::Evaluate(Validation {
            validate: modsurfer::policy::Check {
                allow_wasi: Some(false),
                ..modsurfer::policy::Check::default()
            }
        }))
    );
    assert_eq!(
        read_step(b"validate:\n  unknown: 1\n", Origin::Remote),
        Err(DocumentError::Schema(SchemaError::UnknownField))
    );
    assert!(matches!(read_step(b"validate: [", Origin::Local), Err(DocumentError::Yaml(_))));
}

#[test]
fn failed_fetch_ends_the_run() {
    assert_eq!(
        after_fetch(Fetched::Failed("connection refused".to_string())),
        Err(RemoteError::Unreachable("connection refused".to_string()))
    );
    let body = b"validate:\n  allow_wasi: false\n".to_vec();
    for status in [100u16, 199, 300, 301, 404, 500, 0, u16::MAX] {
        assert_eq!(
            after_fetch(Fetched::Response { status, body: body.clone() }),
            Err(RemoteError::Refused(status))
        );
    }
}

#[test]
fn fetched_policy_is_evaluated_as_it_stands() {
    let body = b"validate:\n  url: https://example.com/other.yaml\n  allow_wasi: false\n".to_vec();
    for status in [200u16, 204, 299] {
        match after_fetch(Fetched::Response { status, body: body.clone() }) {
            Ok(Step::Evaluate(policy)) => {
                assert_eq!(policy.validate.allow_wasi, Some(false));
                assert_eq!(policy.validate.url, Some("https://example.com/other.yaml".to_string()));
            }
            other => panic!("{:?}", other),
        }
    }
    assert_eq!(
        after_fetch(Fetched::Response { status: 200, body: b"validate:\n  extra: 1\n".to_vec() }),
        Err(RemoteError::Document(DocumentError::Schema(SchemaError::UnknownField)))
    );
    assert!(matches!(
        after_fetch(Fetched::Response { status: 200, body: b"validate: [".to_vec() }),
        Err(RemoteError::Document(DocumentError::Yaml(_)))
    ));
}
