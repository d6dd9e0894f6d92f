use local_rag::json::{parse_json, Json, JsonList, JsonMap, Number};
use local_rag::mcp::arguments::{
    optional_enum, optional_flag, optional_limit, optional_offset, optional_string, require_enum,
    require_i64, within_unit,
};
use local_rag::order::is_text_before;
use local_rag::paths::{is_absolute, strip_root};
use local_rag::text::{decimal_i64, decimal_u64, is_blank, trim};
use local_rag::vocabulary::{
    CandidateState, MemoryKind, MemoryState, Named, ScopeKind, SearchMode, Signal,
};

fn number(text: &str) -> Number {
    match parse_json(text) {
        Some(Json::Num(n)) => n,
        other => panic!("expected a number, got {other:?}"),
    }
}

#[test]
fn a_document_is_read_and_written_back() {
    let text = r#"{"a":[1,-2,2.5,true,null],"b":{"c":"d\n\"e\""}}"#;
    let document = parse_json(text).expect("the text is JSON");
    assert_eq!(document.to_text(), text);
    assert_eq!(parse_json("{"), None);
    assert_eq!(parse_json(""), None);
    assert_eq!(parse_json("18446744073709551615"), Some(Json::unsigned(u64::MAX)));
}

#[test]
fn an_object_keeps_its_order_and_one_value_for_each_key() {
    let mut map = JsonMap::new();
    assert!(map.is_empty());
    map.insert("b", Json::integer(1));
    map.insert("a", Json::integer(2));
    map.insert("b", Json::integer(3));
    assert_eq!(map.len(), 2);
    assert_eq!(map.get("b"), Some(&Json::integer(3)));
    assert_eq!(map.get("c"), None);
    assert!(map.contains_key("a"));
    assert_eq!(map.json().to_text(), r#"{"b":3,"a":2}"#);
    let some = JsonMap::new().with_some("x", None).with_some("y", Some(Json::Null));
    assert_eq!(some.json().to_text(), r#"{"y":null}"#);
}

#[test]
fn values_are_written_compactly() {
    assert_eq!(Json::opt_string(&None).to_text(), "null");
    assert_eq!(Json::opt_string(&Some("x".to_string())).to_text(), "\"x\"");
    assert_eq!(Json::opt_int(Some(-4)).to_text(), "-4");
    assert_eq!(Json::opt_int(None).to_text(), "null");
    assert_eq!(Json::strings(&vec!["a".to_string(), "b".to_string()]).to_text(), r#"["a","b"]"#);
    assert_eq!(JsonList::new().with(Json::boolean(true)).json().to_text(), "[true]");
    assert_eq!(Json::number(&number("2.5")).to_text(), "2.5");
    assert_eq!(Json::string("\u{1}\t").to_text(), "\"\\u0001\\t\"");
}

#[test]
fn a_number_is_an_integer_where_it_fits() {
    assert_eq!(number("7").as_i64(), Some(7));
    assert_eq!(number("-7").as_i64(), Some(-7));
    assert_eq!(number("18446744073709551615").as_i64(), None);
    assert_eq!(number("7.0").as_i64(), None);
}

#[test]
fn numbers_are_written_in_decimal() {
    assert_eq!(decimal_u64(0), "0");
    assert_eq!(decimal_u64(u64::MAX), "18446744073709551615");
    assert_eq!(decimal_i64(-10), "-10");
    assert_eq!(decimal_i64(i64::MIN), "-9223372036854775808");
}

#[test]
fn text_is_trimmed_at_both_ends() {
    assert_eq!(trim(" \ta b\n"), "a b");
    assert_eq!(trim("\u{a0}"), "");
    assert_eq!(trim(""), "");
    assert!(is_blank("\u{2003}") && is_blank("") && !is_blank(" x "));
}

#[test]
fn texts_are_ordered_by_their_characters() {
    assert!(is_text_before("a", "b"));
    assert!(is_text_before("a", "aa"));
    assert!(!is_text_before("b", "a"));
    assert!(!is_text_before("a", "a"));
    assert!(is_text_before("Z", "a"));
}

#[test]
fn a_path_is_stripped_segment_by_segment() {
    assert!(is_absolute("/a") && !is_absolute("a") && !is_absolute(""));
    assert_eq!(strip_root("/a/b/c", "/a"), Some("b/c".to_string()));
    assert_eq!(strip_root("/a/b/c", "/a/"), Some("b/c".to_string()));
    assert_eq!(strip_root("/ab/c", "/a"), None);
    assert_eq!(strip_root("/a", "/a/b"), None);
    assert_eq!(strip_root("/a/b", "a"), None);
    assert_eq!(strip_root("//f", "/"), Some("f".to_string()));
}

#[test]
fn an_empty_root_holds_every_path() {
    for path in ["/a/b", "/", "a/b", "./a", ".", ""] {
        assert_eq!(strip_root(path, "").as_deref(), Some(path));
        let expected = std::path::Path::new(path).strip_prefix("").unwrap().to_str();
        assert_eq!(strip_root(path, "").as_deref(), expected);
    }
}

#[test]
fn stripping_agrees_with_the_standard_library() {
    let paths = ["/a/b/c", "/a/./b/", "a/b", "./a/b", "../a", "/", ".", "", "a", "/a/../b"];
    for path in paths {
        for root in paths {
            let expected = std::path::Path::new(path).strip_prefix(root).ok();
            let found = strip_root(path, root);
            assert_eq!(found.as_ref().map(std::path::Path::new), expected, "{path} {root}");
        }
    }
}

#[test]
fn arguments_are_read_or_refused() {
    let args = JsonMap::new()
        .with("n", Json::integer(3))
        .with("s", Json::string("x"))
        .with("f", Json::boolean(true))
        .with("kind", Json::string("fact"))
        .with("limit", Json::integer(5))
        .with("offset", Json::integer(2));
    assert_eq!(require_i64(&args, "n"), Ok(3));
    assert!(require_i64(&args, "s").is_err());
    assert!(require_i64(&args, "missing").is_err());
    assert_eq!(optional_string(&args, "s"), Ok(Some("x".to_string())));
    assert_eq!(optional_string(&args, "missing"), Ok(None));
    assert!(optional_string(&args, "n").is_err());
    assert_eq!(optional_flag(&args, "f"), Ok(true));
    assert_eq!(optional_flag(&args, "missing"), Ok(false));
    assert!(optional_flag(&args, "s").is_err());
    assert_eq!(require_enum::<MemoryKind>(&args, "kind", "fact/..."), Ok(MemoryKind::Fact));
    assert!(require_enum::<MemoryKind>(&args, "missing", "fact/...").is_err());
    assert_eq!(optional_enum::<ScopeKind>(&args, "missing", "..."), Ok(None));
    assert!(optional_enum::<ScopeKind>(&args, "kind", "...").is_err());
    assert_eq!(optional_limit(&args, 10, 50), Ok(5));
    assert_eq!(optional_limit(&JsonMap::new(), 10, 50), Ok(10));
    assert!(optional_limit(&args, 1, 4).is_err());
    assert_eq!(optional_offset(&args), Ok(2));
    assert_eq!(optional_offset(&JsonMap::new()), Ok(0));
}

#[test]
fn a_number_lies_within_the_unit_or_it_does_not() {
    for inside in ["0", "1", "0.0", "-0.0", "1.0", "0.5", "5e-324"] {
        assert!(within_unit(&number(inside)), "{inside}");
    }
    for outside in ["2", "-1", "1.0000000000000002", "-5e-324", "1e300"] {
        assert!(!within_unit(&number(outside)), "{outside}");
    }
}

#[test]
fn every_name_reads_back() {
    for kind in ["fact", "decision", "convention", "procedure", "task", "question", "hypothesis"] {
        assert_eq!(MemoryKind::from_text(kind).map(|k| k.as_str()), Some(kind));
    }
    for state in ["active", "resolved", "retracted", "confirmed", "rejected", "superseded"] {
        assert_eq!(MemoryState::from_text(state).map(|s| s.as_str()), Some(state));
    }
    for scope in ["global", "repository", "worktree"] {
        assert_eq!(ScopeKind::from_text(scope).map(|s| s.as_str()), Some(scope));
    }
    for state in ["pending", "approved", "rejected", "expired"] {
        assert_eq!(CandidateState::from_text(state).map(|s| s.as_str()), Some(state));
    }
    assert_eq!(SearchMode::from_text("hybrid").map(|m| m.as_str()), Some("hybrid"));
    assert_eq!(Signal::from_text("high").map(|s| s.as_str()), Some("high"));
    assert_eq!(MemoryKind::from_text("Fact"), None);
}

#[test]
fn every_character_is_space_or_is_not() {
    for c in (0..=u32::from(char::MAX)).filter_map(char::from_u32) {
        assert_eq!(is_blank(&c.to_string()), c.is_whitespace(), "{c:?}");
    }
}

#[test]
fn a_string_is_escaped_character_by_character() {
    for n in 0..0x300 {
        let c = char::from_u32(n).unwrap();
        let inner = match c {
            '"' => "\\\"".to_string(),
            '\\' => "\\\\".to_string(),
            '\u{8}' => "\\b".to_string(),
            '\t' => "\\t".to_string(),
            '\n' => "\\n".to_string(),
            '\u{c}' => "\\f".to_string(),
            '\r' => "\\r".to_string(),
            _ if n < 0x20 => format!("\\u00{n:02x}"),
            other => other.to_string(),
        };
        assert_eq!(Json::string(&format!("a{c}b")).to_text(), format!("\"a{inner}b\""));
    }
}
