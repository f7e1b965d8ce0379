use modsurfer::module::{copy_types, same_types, type_list_text, SourceLanguage, ValType};
use modsurfer::number::{parse_i64, parse_u32};
use modsurfer::size::read_size;
use modsurfer::text::{
    decimal_text, join2, join3, join4, rank, same_text, truth_text, Rank,
};

#[test]
fn texts_are_ranked_by_their_bytes() {
    assert_eq!(rank("a", "b"), Rank::Before);
    assert_eq!(rank("b", "a"), Rank::After);
    assert_eq!(rank("a", "a"), Rank::Same);
    assert_eq!(rank("", ""), Rank::Same);
    assert_eq!(rank("", "a"), Rank::Before);
    assert_eq!(rank("a", "ab"), Rank::Before);
    assert_eq!(rank("ab", "a"), Rank::After);
    assert_eq!(rank("Z", "a"), Rank::Before);
    assert_eq!(rank("z", "é"), Rank::Before);
    assert_eq!(rank("é", "日"), Rank::Before);
    let words = ["", "a", "ab", "b", "B", "é", "日本", "a.b", "a::b", "~"];
    for x in words {
        for y in words {
            let expected = if x < y {
                Rank::Before
            } else if x == y {
                Rank::Same
            } else {
                Rank::After
            };
            assert_eq!(rank(x, y), expected);
            assert_eq!(same_text(x, y), x == y);
        }
    }
}

#[test]
fn texts_are_joined_in_a_row() {
    assert_eq!(join2("imports.", "include"), "imports.include");
    assert_eq!(join3("env", "::", "abort"), "env::abort");
    assert_eq!(join4("a", "", "b", "c"), "abc");
}

#[test]
fn numbers_are_written_in_decimal() {
    assert_eq!(decimal_text(0), "0");
    assert_eq!(decimal_text(7), "7");
    assert_eq!(decimal_text(10), "10");
    assert_eq!(decimal_text(2500), "2500");
    assert_eq!(decimal_text(4294967295), "4294967295");
    assert_eq!(decimal_text(u64::MAX), u64::MAX.to_string());
    assert_eq!(truth_text(true), "true");
    assert_eq!(truth_text(false), "false");
}

#[test]
fn whole_numbers_are_read() {
    assert_eq!(parse_i64("0"), Some(0));
    assert_eq!(parse_i64("42"), Some(42));
    assert_eq!(parse_i64("+42"), Some(42));
    assert_eq!(parse_i64("-42"), Some(-42));
    assert_eq!(parse_i64("-0"), Some(0));
    assert_eq!(parse_i64("007"), Some(7));
    assert_eq!(parse_i64("9223372036854775807"), Some(i64::MAX));
    assert_eq!(parse_i64("9223372036854775808"), None);
    assert_eq!(parse_i64("-9223372036854775808"), Some(i64::MIN));
    assert_eq!(parse_i64("-9223372036854775809"), None);
    assert_eq!(parse_i64("0000000000000000000000000000000000000012"), Some(12));
    assert_eq!(parse_i64("99999999999999999999999999999999999999999999"), None);
    for text in ["", "+", "-", "1 ", " 1", "1.0", "1e3", "module.wasm", "--1", "1-", "१"] {
        assert_eq!(parse_i64(text), None);
        assert_eq!(parse_i64(text), text.parse::<i64>().ok());
    }
    assert_eq!(parse_u32("0"), Some(0));
    assert_eq!(parse_u32("+5"), Some(5));
    assert_eq!(parse_u32("4294967295"), Some(u32::MAX));
    assert_eq!(parse_u32("4294967296"), None);
    assert_eq!(parse_u32("-0"), None);
    assert_eq!(parse_u32("-1"), None);
    assert_eq!(parse_u32(""), None);
    assert_eq!(parse_u32("12a"), None);
    for text in ["0", "+5", "-0", "4294967295", "4294967296", "", "+", "x", "00012"] {
        assert_eq!(parse_u32(text), text.parse::<u32>().ok());
    }
}

#[test]
fn sizes_are_read_with_binary_units() {
    assert_eq!(read_size("1MB"), Some(1_048_576));
    assert_eq!(read_size("1 MiB"), Some(1_048_576));
    assert_eq!(read_size("1 KB"), Some(1024));
    assert_eq!(read_size("1.9 MiB"), Some(1_992_294));
    assert_eq!(read_size("20000"), Some(20000));
    assert_eq!(read_size("0"), Some(0));
    assert_eq!(read_size("2 gb"), Some(2 << 30));
    assert_eq!(read_size("18446744073709551615"), Some(u64::MAX));
    assert_eq!(read_size("^_^"), None);
    assert_eq!(read_size(""), None);
    assert_eq!(read_size("MB"), None);
    assert_eq!(read_size("18446744073709551616"), None);
    assert_eq!(read_size("1 ZB"), None);
}

#[test]
fn size_of_more_than_twenty_digits_is_none() {
    assert_eq!(read_size("00000000000000000001"), Some(1));
    assert_eq!(read_size("000000000000000000001"), None);
    assert_eq!(read_size("184467440737095516155"), None);
    assert_eq!(read_size("1844674407370955161.55"), None);
}

#[test]
fn lists_of_types_are_written_and_compared() {
    assert_eq!(type_list_text(&vec![]), "[]");
    assert_eq!(type_list_text(&vec![ValType::I32]), "[I32]");
    let types = vec![ValType::I32, ValType::ExternRef, ValType::Float64];
    assert_eq!(type_list_text(&types), "[I32, ExternRef, Float64]");
    assert_eq!(type_list_text(&types), format!("{:?}", types));
    assert!(same_types(&types, &copy_types(&types)));
    assert!(!same_types(&types, &vec![ValType::I32, ValType::ExternRef]));
    assert!(!same_types(&types, &vec![ValType::I32, ValType::ExternRef, ValType::Float32]));
    assert!(same_types(&vec![], &vec![]));
    assert!(ValType::FuncRef.is_reference_type());
    assert!(ValType::ExternRef.is_reference_type());
    assert!(!ValType::I32.is_reference_type());
    assert!(!ValType::String.is_reference_type());
}

#[test]
fn languages_are_known_by_name() {
    let all = [
        (SourceLanguage::Unknown, "Unknown"),
        (SourceLanguage::Rust, "Rust"),
        (SourceLanguage::Go, "Go"),
        (SourceLanguage::C, "C"),
        (SourceLanguage::Cpp, "C++"),
        (SourceLanguage::AssemblyScript, "AssemblyScript"),
        (SourceLanguage::Swift, "Swift"),
        (SourceLanguage::JavaScript, "JavaScript"),
        (SourceLanguage::Haskell, "Haskell"),
        (SourceLanguage::Zig, "Zig"),
    ];
    for (language, name) in all {
        assert_eq!(language.to_string(), name);
        assert_eq!(SourceLanguage::from(name.to_string()), language);
        assert_eq!(SourceLanguage::from_name(name), language);
    }
    assert_eq!(SourceLanguage::from("rust".to_string()), SourceLanguage::Unknown);
    assert_eq!(SourceLanguage::from("".to_string()), SourceLanguage::Unknown);
    assert_eq!(SourceLanguage::default(), SourceLanguage::Unknown);
}
