use modsurfer::checkfile::DocumentError;
use modsurfer::document::{declares, type_by_name, Entry, Group, Node, SchemaError};
use modsurfer::yaml::node_of;
use modsurfer::module::ValType;
use modsurfer::policy::{
    Check, Complexity, Exports, FunctionItem, ImportItem, Imports, Namespace, NamespaceItem, Size,
    Validation,
};
use modsurfer::risk::RiskLevel;

fn read(text: &str) -> Result<Validation, SchemaError> {
    match Validation::parse(text.as_bytes()) {
        Ok(v) => Ok(v),
        Err(DocumentError::Schema(e)) => Err(e),
        Err(DocumentError::Yaml(e)) => panic!("{}", e),
    }
}

const FULL: &str = "
validate:
  url: https://example.com/policy.yaml
  allow_wasi: false
  imports:
    include:
      - http_get
      - namespace: env
        name: log
        params: [I32, I64]
        results: []
    exclude:
      - name: abort
    namespace:
      include:
        - env
        - name: host
          functions:
            - read
            - name: write
              results: [I32]
      exclude:
        - wasi_snapshot_preview1
  exports:
    include:
      - _start
      - name: run
        params: [ExternRef]
    exclude:
      - debug
    max: 100
  size:
    max: 4MB
  complexity:
    max_risk: low
";

#[test]
fn full_document_is_read() {
    let policy = read(FULL).unwrap().validate;
    assert_eq!(policy.url, Some("https://example.com/policy.yaml".to_string()));
    assert_eq!(policy.allow_wasi, Some(false));
    assert_eq!(
        policy.imports,
        Some(Imports {
            included: Some(vec![
                ImportItem::Name("http_get".to_string()),
                ImportItem::Item {
                    namespace: Some("env".to_string()),
                    name: "log".to_string(),
                    params: Some(vec![ValType::I32, ValType::I64]),
                    results: Some(vec![]),
                },
            ]),
            exclude: Some(vec![ImportItem::Item {
                namespace: None,
                name: "abort".to_string(),
                params: None,
                results: None,
            }]),
            namespace: Some(Namespace {
                included: Some(vec![
                    NamespaceItem::Name("env".to_string()),
                    NamespaceItem::Item {
                        name: "host".to_string(),
                        functions: vec![
                            FunctionItem::Name("read".to_string()),
                            FunctionItem::Item {
                                name: "write".to_string(),
                                params: None,
                                results: Some(vec![ValType::I32]),
                            },
                        ],
                    },
                ]),
                exclude: Some(vec![NamespaceItem::Name("wasi_snapshot_preview1".to_string())]),
            }),
        })
    );
    assert_eq!(
        policy.exports,
        Some(Exports {
            included: Some(vec![
                FunctionItem::Name("_start".to_string()),
                FunctionItem::Item {
                    name: "run".to_string(),
                    params: Some(vec![ValType::ExternRef]),
                    results: None,
                },
            ]),
            exclude: Some(vec![FunctionItem::Name("debug".to_string())]),
            max: Some(100),
        })
    );
    assert_eq!(policy.size, Some(Size { max: Some("4MB".to_string()) }));
    assert_eq!(
        policy.complexity,
        Some(Complexity { max_risk: Some(RiskLevel::Low), max_score: None })
    );
}

#[test]
fn document_without_groups_is_an_empty_policy() {
    assert_eq!(read("validate: {}").unwrap(), Validation::default());
    assert_eq!(
        read("validate:\n  imports: {}\n  size: {}\n").unwrap().validate,
        Check {
            imports: Some(Imports::default()),
            size: Some(Size::default()),
            ..Check::default()
        }
    );
    assert_eq!(read("validate:\n  imports: ~\n  url: ~\n").unwrap(), Validation::default());
}

#[test]
fn undeclared_key_is_rejected_at_every_depth() {
    let documents = [
        "validate: {}\nextra: 1\n",
        "validate:\n  extra: 1\n",
        "validate:\n  imports:\n    extra: []\n",
        "validate:\n  imports:\n    include:\n      - name: a\n        extra: 1\n",
        "validate:\n  imports:\n    exclude:\n      - name: a\n        functions: []\n",
        "validate:\n  imports:\n    namespace:\n      extra: []\n",
        "validate:\n  imports:\n    namespace:\n      max: 1\n",
        "validate:\n  imports:\n    namespace:\n      include:\n        - name: env\n          extra: 1\n",
        "validate:\n  imports:\n    namespace:\n      exclude:\n        - name: env\n          functions:\n            - name: f\n              namespace: env\n",
        "validate:\n  exports:\n    extra: 1\n",
        "validate:\n  exports:\n    include:\n      - name: f\n        namespace: env\n",
        "validate:\n  exports:\n    exclude:\n      - name: f\n        extra: 1\n",
        "validate:\n  size:\n    min: 1KB\n",
        "validate:\n  complexity:\n    max_risk: low\n    extra: 1\n",
        "validate:\n  1: 2\n",
    ];
    for document in documents {
        assert_eq!(read(document), Err(SchemaError::UnknownField), "{}", document);
    }
}

#[test]
fn faulty_documents_are_rejected() {
    assert_eq!(read("{}"), Err(SchemaError::MissingField));
    assert_eq!(read("validate: 1"), Err(SchemaError::WrongKind));
    assert_eq!(read("- validate"), Err(SchemaError::WrongKind));
    assert_eq!(read("validate:\n  allow_wasi: yes please\n"), Err(SchemaError::WrongKind));
    assert_eq!(read("validate:\n  url: [a]\n"), Err(SchemaError::WrongKind));
    assert_eq!(read("validate:\n  imports: []\n"), Err(SchemaError::WrongKind));
    assert_eq!(read("validate:\n  imports:\n    include: a\n"), Err(SchemaError::WrongKind));
    assert_eq!(read("validate:\n  imports:\n    include: [1]\n"), Err(SchemaError::WrongKind));
    assert_eq!(
        read("validate:\n  imports:\n    include:\n      - namespace: env\n"),
        Err(SchemaError::MissingField)
    );
    assert_eq!(
        read("validate:\n  exports:\n    include:\n      - name: f\n        params: [I31]\n"),
        Err(SchemaError::UnknownVariant)
    );
    assert_eq!(read("validate:\n  exports:\n    max: -1\n"), Err(SchemaError::BadNumber));
    assert_eq!(read("validate:\n  exports:\n    max: 1.5\n"), Err(SchemaError::BadNumber));
    assert_eq!(read("validate:\n  exports:\n    max: 4294967296\n"), Err(SchemaError::BadNumber));
    assert_eq!(read("validate:\n  exports:\n    max: many\n"), Err(SchemaError::WrongKind));
    assert_eq!(
        read("validate:\n  complexity:\n    max_risk: extreme\n"),
        Err(SchemaError::UnknownVariant)
    );
    assert_eq!(read("validate:\n  size:\n    max: [1]\n"), Err(SchemaError::WrongKind));
    assert_eq!(read("validate: !tagged {}\n"), Err(SchemaError::WrongKind));
}

#[test]
fn key_that_stands_twice_is_rejected() {
    let node = Node::Table(vec![
        Entry { key: Node::Text("validate".to_string()), value: Node::Table(vec![]) },
        Entry { key: Node::Text("validate".to_string()), value: Node::Table(vec![]) },
    ]);
    assert_eq!(Validation::from_tree(&node), Err(SchemaError::DuplicateField));
    let node = Node::Table(vec![
        Entry { key: Node::Text("max".to_string()), value: Node::Text("1".to_string()) },
        Entry { key: Node::Text("extra".to_string()), value: Node::Null },
        Entry { key: Node::Text("max".to_string()), value: Node::Text("2".to_string()) },
    ]);
    let check = Node::Table(vec![Entry { key: Node::Text("size".to_string()), value: node }]);
    assert_eq!(Check::from_tree(&check), Err(SchemaError::UnknownField));
}

#[test]
fn size_limit_may_be_written_as_a_number() {
    let policy = read("validate:\n  size:\n    max: 4096\n").unwrap().validate;
    assert_eq!(policy.size, Some(Size { max: Some("4096".to_string()) }));
}

#[test]
fn complexity_group_is_read_as_it_stands() {
    let policy = read("validate:\n  complexity:\n    max_score: 7\n").unwrap().validate;
    assert_eq!(policy.complexity, Some(Complexity { max_risk: None, max_score: Some(7) }));
    let policy =
        read("validate:\n  complexity:\n    max_score: 7\n    max_risk: high\n").unwrap().validate;
    assert_eq!(
        policy.complexity,
        Some(Complexity { max_risk: Some(RiskLevel::High), max_score: Some(7) })
    );
    let policy = read("validate:\n  complexity: {}\n").unwrap().validate;
    assert_eq!(policy.complexity, Some(Complexity::default()));
}

#[test]
fn policy_written_as_a_tree_is_read_back() {
    let policy = read(FULL).unwrap();
    let node = policy.to_tree();
    assert_eq!(Validation::from_tree(&node), Ok(policy.clone()));
    let text = policy.write().unwrap();
    assert_eq!(read(&text), Ok(policy));
    let empty = Validation::default();
    assert_eq!(Validation::from_tree(&empty.to_tree()), Ok(empty.clone()));
    assert_eq!(empty.write().unwrap(), "validate: {}\n");
}

#[test]
fn tree_of_a_policy_holds_the_groups_in_order_and_skips_what_is_missing() {
    let check = Check {
        allow_wasi: Some(true),
        exports: Some(Exports { included: None, exclude: None, max: Some(3) }),
        size: Some(Size { max: Some("1 KiB".to_string()) }),
        complexity: Some(Complexity { max_risk: Some(RiskLevel::Medium), max_score: None }),
        ..Check::default()
    };
    let text = check.write().unwrap();
    assert_eq!(
        text,
        "allow_wasi: true\nexports:\n  max: 3\nsize:\n  max: 1 KiB\ncomplexity:\n  max_risk: medium\n"
    );
    let item = ImportItem::Item {
        namespace: Some("env".to_string()),
        name: "log".to_string(),
        params: Some(vec![ValType::I32, ValType::F64]),
        results: None,
    };
    let check = Check {
        imports: Some(Imports {
            included: Some(vec![item, ImportItem::Name("bare".to_string())]),
            exclude: None,
            namespace: Some(Namespace {
                included: Some(vec![NamespaceItem::Item {
                    name: "env".to_string(),
                    functions: vec![],
                }]),
                exclude: None,
            }),
        }),
        ..Check::default()
    };
    let text = check.write().unwrap();
    assert_eq!(
        text,
        "imports:\n  include:\n  - namespace: env\n    name: log\n    params:\n    - I32\n    - F64\n  - bare\n  namespace:\n    include:\n    - name: env\n      functions: []\n"
    );
}

#[test]
fn schema_declares_its_keys() {
    assert!(declares(Group::Validation, "validate"));
    assert!(!declares(Group::Validation, "url"));
    for key in ["url", "allow_wasi", "imports", "exports", "size", "complexity"] {
        assert!(declares(Group::Check, key));
    }
    assert!(!declares(Group::Check, "validate"));
    assert!(declares(Group::Imports, "namespace"));
    assert!(!declares(Group::Exports, "namespace"));
    assert!(declares(Group::Exports, "max"));
    assert!(!declares(Group::Namespace, "max"));
    assert!(declares(Group::Size, "max"));
    assert!(declares(Group::Complexity, "max_risk"));
    assert!(declares(Group::Complexity, "max_score"));
    assert!(declares(Group::ImportItem, "namespace"));
    assert!(!declares(Group::FunctionItem, "namespace"));
    assert!(declares(Group::NamespaceItem, "functions"));
    assert!(!declares(Group::NamespaceItem, "params"));
}

#[test]
fn value_types_are_known_by_name() {
    let all = [
        ValType::I32, ValType::I64, ValType::F32, ValType::F64, ValType::V128, ValType::FuncRef,
        ValType::ExternRef, ValType::Bool, ValType::S8, ValType::U8, ValType::S16, ValType::U16,
        ValType::S32, ValType::U32, ValType::S64, ValType::U64, ValType::Float32,
        ValType::Float64, ValType::Char, ValType::String,
    ];
    for ty in all {
        assert_eq!(type_by_name(ty.as_str()), Some(ty));
        assert_eq!(format!("{:?}", ty), ty.as_str());
    }
    assert_eq!(type_by_name("i32"), None);
    assert_eq!(type_by_name(""), None);
}

#[test]
fn text_that_is_no_yaml_is_rejected() {
    for text in ["validate: [", "validate: {a: 1", "a: b: c", "- a\nb: c\n", "\"open"] {
        match Validation::parse(text.as_bytes()) {
            Err(DocumentError::Yaml(message)) => assert!(!message.is_empty()),
            other => panic!("{:?}", other),
        }
    }
    assert_eq!(Validation::parse(b"validate: 1"), Err(DocumentError::Schema(SchemaError::WrongKind)));
}

#[test]
fn yaml_values_are_taken_as_trees() {
    let value: serde_yaml::Value =
        serde_yaml::from_str("a: [1, -2, 1.5, true, ~, x]\nb: !tag {c: d}\n3: e\n").unwrap();
    let text = |s: &str| Node::Text(s.to_string());
    let number = |s: &str| Node::Number(s.to_string());
    assert_eq!(
        node_of(&value),
        Node::Table(vec![
            Entry {
                key: text("a"),
                value: Node::List(vec![
                    number("1"),
                    number("-2"),
                    number("1.5"),
                    Node::Bool(true),
                    Node::Null,
                    text("x"),
                ]),
            },
            Entry {
                key: text("b"),
                value: Node::Tagged(
                    "!tag".to_string(),
                    Box::new(Node::Table(vec![Entry { key: text("c"), value: text("d") }])),
                ),
            },
            Entry { key: number("3"), value: text("e") },
        ])
    );
    assert_eq!(node_of(&serde_yaml::Value::Null), Node::Null);
}

#[test]
fn policy_is_written_as_a_yaml_value() {
    let policy = read("validate:\n  allow_wasi: true\n  exports:\n    max: 3\n").unwrap();
    let expected: serde_yaml::Value =
        serde_yaml::from_str("validate:\n  allow_wasi: true\n  exports:\n    max: 3\n").unwrap();
    assert_eq!(policy.to_value(), expected);
    assert_eq!(policy.validate.to_value(), expected["validate"]);
}
