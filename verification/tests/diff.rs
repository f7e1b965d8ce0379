use modsurfer::diff::{render, ChangeTag, Diff, LineChange};
use modsurfer::module::{Export, Function, FunctionType, Import, Module, ValType};
use modsurfer::risk::RiskBounds;

fn change(tag: ChangeTag, text: &str) -> LineChange {
    LineChange { tag, text: text.to_string(), missing_newline: !text.ends_with('\n') }
}

#[test]
fn equal_texts_have_no_difference() {
    for color in [false, true] {
        for context in [false, true] {
            assert_eq!(Diff::of_texts("a\nb\n", "a\nb\n", color, context).as_str(), "");
            assert_eq!(Diff::of_texts("", "", color, context).as_str(), "");
            assert_eq!(Diff::of_texts("no newline", "no newline", color, context).as_str(), "");
        }
    }
    assert!(Diff::of_texts("x\n", "x\n", false, true).is_empty());
}

#[test]
fn different_texts_have_a_difference() {
    assert!(!Diff::of_texts("a\n", "b\n", false, false).is_empty());
    assert!(!Diff::of_texts("a\n", "a\nb\n", false, false).is_empty());
    assert!(!Diff::of_texts("a\n", "", false, false).is_empty());
    assert!(!Diff::of_texts("a", "a\n", false, false).is_empty());
    assert!(!Diff::of_texts("size:\n  max: 1.9 MiB\n", "size:\n  max: 2 MiB\n", false, false).is_empty());
}

#[test]
fn changed_lines_are_written_with_signs() {
    let diff = Diff::of_texts("a\nb\n", "a\nc\n", false, false);
    assert_eq!(diff.as_str(), "- b\n+ c\n");
    let diff = Diff::of_texts("a\nb\n", "a\nc\n", false, true);
    assert_eq!(diff.as_str(), "  a\n- b\n+ c\n");
    assert_eq!(diff.to_string(), "  a\n- b\n+ c\n");
}

#[test]
fn added_and_removed_lines_are_found() {
    assert_eq!(Diff::of_texts("a\n", "a\nb\n", false, false).as_str(), "+ b\n");
    assert_eq!(Diff::of_texts("a\nb\n", "b\n", false, false).as_str(), "- a\n");
    assert_eq!(Diff::of_texts("a\nb\nc\n", "a\nc\n", false, true).as_str(), "  a\n- b\n  c\n");
}

#[test]
fn coloured_lines_are_wrapped_in_escape_sequences() {
    let diff = Diff::of_texts("a\nb\n", "a\nc\n", true, false);
    assert_eq!(
        diff.as_str(),
        "\x1b[31m- \x1b[0m\x1b[31mb\n\x1b[0m\x1b[32m+ \x1b[0m\x1b[32mc\n\x1b[0m"
    );
    let diff = Diff::of_texts("a\nb\n", "a\nc\n", true, true);
    assert_eq!(
        diff.as_str(),
        "  a\n\x1b[31m- \x1b[0m\x1b[31mb\n\x1b[0m\x1b[32m+ \x1b[0m\x1b[32mc\n\x1b[0m"
    );
}

#[test]
fn line_without_line_break_gets_one_when_written_plain() {
    assert_eq!(Diff::of_texts("a", "b", false, false).as_str(), "- a\n+ b\n");
    assert_eq!(Diff::of_texts("a", "b", true, false).as_str(), "\x1b[31m- \x1b[0m\x1b[31ma\x1b[0m\x1b[32m+ \x1b[0m\x1b[32mb\x1b[0m");
}

#[test]
fn render_writes_nothing_without_a_change() {
    let changes = vec![change(ChangeTag::Equal, "a\n"), change(ChangeTag::Equal, "b\n")];
    assert_eq!(render(&changes, false, true), "");
    assert_eq!(render(&changes, true, true), "");
    assert_eq!(render(&Vec::new(), false, false), "");
}

#[test]
fn render_writes_each_line_after_its_sign() {
    let changes = vec![
        change(ChangeTag::Equal, "a\n"),
        change(ChangeTag::Delete, "b\n"),
        change(ChangeTag::Insert, "c"),
        change(ChangeTag::Equal, "d"),
    ];
    assert_eq!(render(&changes, false, false), "- b\n+ c\n");
    assert_eq!(render(&changes, false, true), "  a\n- b\n+ c\n  d\n");
    assert_eq!(
        render(&changes, true, true),
        "  a\n\x1b[31m- \x1b[0m\x1b[31mb\n\x1b[0m\x1b[32m+ \x1b[0m\x1b[32mc\x1b[0m  d\n"
    );
}

fn sample() -> Module {
    let mut module = Module::default();
    module.imports.push(Import {
        module_name: "env".to_string(),
        func: Function {
            name: "log".to_string(),
            ty: FunctionType { params: vec![ValType::I32], results: vec![] },
        },
    });
    module.exports.push(Export {
        func: Function {
            name: "run".to_string(),
            ty: FunctionType { params: vec![], results: vec![ValType::I64] },
        },
    });
    module.size = 4096;
    module.complexity = Some(10);
    module
}

#[test]
fn module_does_not_differ_from_itself() {
    let bounds = RiskBounds::default();
    for color in [false, true] {
        for context in [false, true] {
            let diff =
                Diff::new(&sample(), &sample(), color, context, &bounds, "4 KiB", "4 KiB").unwrap();
            assert_eq!(diff.as_str(), "");
            let empty = Module::default();
            let diff = Diff::new(&empty, &empty, color, context, &bounds, "0 B", "0 B").unwrap();
            assert!(diff.is_empty());
        }
    }
}

#[test]
fn modules_differ_by_what_they_import_and_export_and_by_their_size() {
    let bounds = RiskBounds::default();
    let a = sample();
    let mut b = sample();
    b.imports[0].func.name = "trace".to_string();
    assert!(!Diff::new(&a, &b, false, false, &bounds, "4 KiB", "4 KiB").unwrap().is_empty());
    let mut b = sample();
    b.exports[0].func.ty.results = vec![ValType::I32];
    assert!(!Diff::new(&a, &b, false, false, &bounds, "4 KiB", "4 KiB").unwrap().is_empty());
    assert!(!Diff::new(&a, &a, false, false, &bounds, "4 KiB", "4.1 KiB").unwrap().is_empty());
}

#[test]
fn difference_of_modules_is_that_of_their_policies() {
    let bounds = RiskBounds::default();
    let a = sample();
    let mut b = sample();
    b.exports[0].func.name = "main".to_string();
    b.size = 8192;
    let diff = Diff::new(&a, &b, false, false, &bounds, "4 KiB", "8 KiB").unwrap();
    assert_eq!(diff.as_str(), "-   - name: run\n+   - name: main\n-   max: 4 KiB\n+   max: 8 KiB\n");
    let diff = Diff::new(&a, &b, false, true, &bounds, "4 KiB", "8 KiB").unwrap();
    assert_eq!(
        diff.as_str(),
        "  imports:\n    include:\n    - namespace: env\n      name: log\n      params:\n      - I32\n      results: []\n    namespace:\n      include:\n      - env\n  exports:\n    include:\n-   - name: run\n+   - name: main\n      params: []\n      results:\n      - I64\n    max: 1\n  size:\n-   max: 4 KiB\n+   max: 8 KiB\n  complexity:\n    max_risk: low\n"
    );
}

fn sides(old: &str, new: &str) -> (String, String) {
    let diff = Diff::of_texts(old, new, false, true);
    let mut old_side = String::new();
    let mut new_side = String::new();
    for line in diff.as_str().split_inclusive('\n') {
        let (sign, text) = line.split_at(2);
        match sign {
            "- " => old_side.push_str(text),
            "+ " => new_side.push_str(text),
            "  " => {
                old_side.push_str(text);
                new_side.push_str(text);
            }
            other => panic!("{:?}", other),
        }
    }
    (old_side, new_side)
}

#[test]
fn written_lines_spell_both_texts() {
    let long_a: String = (0..150).map(|i| format!("line {}\n", i)).collect();
    let long_b: String = (0..150).map(|i| format!("line {}\n", if i % 7 == 0 { i + 1000 } else { i })).collect();
    let texts = [
        "a\n".to_string(),
        "a\nb\nc\n".to_string(),
        "c\nb\na\n".to_string(),
        "a\na\na\n".to_string(),
        "x\na\nb\nc\ny\n".to_string(),
        "\n\n".to_string(),
        "b\n".to_string(),
        long_a,
        long_b,
    ];
    for old in &texts {
        for new in &texts {
            if old != new {
                let (old_side, new_side) = sides(old, new);
                assert_eq!(&old_side, old);
                assert_eq!(&new_side, new);
            }
        }
    }
}
