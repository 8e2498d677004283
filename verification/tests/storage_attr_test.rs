use miden_compiler::storage_attr::{parse_storage_args, parse_storage_attribute, AttrError, AttrMeta, Attribute};

#[test]
fn all_three_arguments() {
    let a = parse_storage_args("slot(0), description = \"test value\", type = \"auth::rpo_falcon512::pub_key\"").unwrap();
    assert_eq!(a.slot, 0);
    assert_eq!(a.description.as_deref(), Some("test value"));
    assert_eq!(a.type_attr.as_deref(), Some("auth::rpo_falcon512::pub_key"));
}

#[test]
fn token_spacing_and_trailing_comma() {
    let a = parse_storage_args(" slot ( 7 ) , type = \"word\" , ").unwrap();
    assert_eq!(a.slot, 7);
    assert_eq!(a.description, None);
    assert_eq!(a.type_attr.as_deref(), Some("word"));
}

#[test]
fn arguments_in_any_order_and_later_wins() {
    let a = parse_storage_args("description = \"x\", slot(1), slot(2)").unwrap();
    assert_eq!(a.slot, 2);
    assert_eq!(a.description.as_deref(), Some("x"));
}

#[test]
fn escapes_in_strings() {
    let a = parse_storage_args("slot(0), description = \"a \\\"quoted\\\" \\\\ b\\n\"").unwrap();
    assert_eq!(a.description.as_deref(), Some("a \"quoted\" \\ b\n"));
}

#[test]
fn integer_literal_forms() {
    assert_eq!(parse_storage_args("slot(1_0)").unwrap().slot, 10);
    assert_eq!(parse_storage_args("slot(255u8)").unwrap().slot, 255);
    assert_eq!(parse_storage_args("slot(007)").unwrap().slot, 7);
}

#[test]
fn errors() {
    assert!(matches!(parse_storage_args("description = \"x\""), Err(AttrError::MissingSlot)));
    assert!(matches!(parse_storage_args(""), Err(AttrError::MissingSlot)));
    assert!(matches!(parse_storage_args("slot(256)"), Err(AttrError::InvalidSlot)));
    assert!(matches!(parse_storage_args("slot(0), name = \"x\""), Err(AttrError::Unrecognized)));
    assert!(matches!(parse_storage_args("a::slot(0)"), Err(AttrError::Unrecognized)));
    assert!(matches!(parse_storage_args("slot 0"), Err(AttrError::Syntax)));
    assert!(matches!(parse_storage_args("slot(0 1)"), Err(AttrError::Syntax)));
    assert!(matches!(parse_storage_args("slot(0) description = \"x\""), Err(AttrError::Syntax)));
    assert!(matches!(parse_storage_args(", slot(0)"), Err(AttrError::Syntax)));
    assert!(matches!(parse_storage_args("slot(0), description = \"open"), Err(AttrError::Syntax)));
    assert!(matches!(parse_storage_args("slot(1e3)"), Err(AttrError::Syntax)));
    assert!(matches!(parse_storage_args("slot(1.0)"), Err(AttrError::Syntax)));
    assert!(matches!(parse_storage_args("slot(1e+3)"), Err(AttrError::Syntax)));
    assert!(matches!(parse_storage_args("slot(0b12)"), Err(AttrError::Syntax)));
    assert!(matches!(parse_storage_args("slot(0o8)"), Err(AttrError::Syntax)));
    assert!(matches!(parse_storage_args("slot(0x)"), Err(AttrError::Syntax)));
    assert!(matches!(parse_storage_args("slot(0x_u8)"), Err(AttrError::Syntax)));
    assert!(matches!(parse_storage_args("slot(0x100)"), Err(AttrError::InvalidSlot)));
    assert!(matches!(parse_storage_args("slot(0), description = \"\\q\""), Err(AttrError::Syntax)));
}

#[test]
fn non_storage_attributes_are_ignored() {
    let doc = Attribute { path: "doc".to_string(), meta: AttrMeta::NameValue };
    assert!(matches!(parse_storage_attribute(&doc), Ok(None)));
    let other = Attribute { path: "x::storage".to_string(), meta: AttrMeta::List("slot(0)".to_string()) };
    assert!(matches!(parse_storage_attribute(&other), Ok(None)));
}

#[test]
fn storage_must_be_a_list() {
    let bare = Attribute { path: "storage".to_string(), meta: AttrMeta::Path };
    assert!(matches!(parse_storage_attribute(&bare), Err(AttrError::ExpectedList)));
    let nv = Attribute { path: "storage".to_string(), meta: AttrMeta::NameValue };
    assert!(matches!(parse_storage_attribute(&nv), Err(AttrError::ExpectedList)));
    let list = Attribute { path: "storage".to_string(), meta: AttrMeta::List("slot(3)".to_string()) };
    assert_eq!(parse_storage_attribute(&list).unwrap().unwrap().slot, 3);
}

#[test]
fn hexadecimal_octal_and_binary_slots() {
    assert_eq!(parse_storage_args("slot(0x1F)").unwrap().slot, 31);
    assert_eq!(parse_storage_args("slot(0xff_u8)").unwrap().slot, 255);
    assert_eq!(parse_storage_args("slot(0o17)").unwrap().slot, 15);
    assert_eq!(parse_storage_args("slot(0b1_01)").unwrap().slot, 5);
    // `e` without exponent digits starts a suffix
    assert_eq!(parse_storage_args("slot(3eu8)").unwrap().slot, 3);
}

#[test]
fn raw_strings_and_escapes() {
    let a = parse_storage_args(r###"slot(0), description = r"a\n", type = r##"x"#y"##"###).unwrap();
    assert_eq!(a.description.as_deref(), Some(r"a\n"));
    assert_eq!(a.type_attr.as_deref(), Some(r##"x"#y"##));
    let b = parse_storage_args(r#"slot(0), description = "\x41\u{1F600}\u{4_1}""#).unwrap();
    assert_eq!(b.description.as_deref(), Some("A\u{1F600}A"));
    let c = parse_storage_args("slot(0), description = \"a\\\n    b\"").unwrap();
    assert_eq!(c.description.as_deref(), Some("ab"));
    let d = parse_storage_args("slot(0), description = \"x\"suffix").unwrap();
    assert_eq!(d.description.as_deref(), Some("x"));
}

#[test]
fn invalid_string_escapes() {
    assert!(matches!(parse_storage_args(r#"slot(0), description = "\x80""#), Err(AttrError::Syntax)));
    assert!(matches!(parse_storage_args(r#"slot(0), description = "\u{D800}""#), Err(AttrError::Syntax)));
    assert!(matches!(parse_storage_args(r#"slot(0), description = "\u{}""#), Err(AttrError::Syntax)));
    assert!(matches!(parse_storage_args(r#"slot(0), description = "\u{1000000}""#), Err(AttrError::Syntax)));
    assert!(matches!(parse_storage_args(r#"slot(0), description = b"x""#), Err(AttrError::Syntax)));
    assert!(matches!(parse_storage_args(r#"slot(0), description = r#"x""#), Err(AttrError::Syntax)));
}
