use c_codegen::{CEnum, CTypedefKind};

#[test]
fn test_enum() {
    let expected = "typedef enum enum_foo {
    ENUM_FOO_A,
    ENUM_FOO_B = 5,
    ENUM_FOO_C = 7,
    ENUM_FOO_D,
} enum2;";

    let enum_inst = CEnum::new("enum_foo")
        .as_typedef(CTypedefKind::explicit("enum2"))
        .member("ENUM_FOO_A", None)
        .member("ENUM_FOO_B", Some(5))
        .member("ENUM_FOO_C", Some(7))
        .member("ENUM_FOO_D", None);
    assert_eq!(expected.to_string(), enum_inst.to_string());
}

#[test]
fn enum_plain_without_typedef() {
    let e = CEnum::new("color").member("RED", None).member("GREEN", Some(-3));
    assert_eq!(e.to_string(), "enum color {\n    RED,\n    GREEN = -3,\n};");
}

#[test]
fn enum_named_and_unnamed_typedef() {
    let named = CEnum::new("e").as_typedef(CTypedefKind::Named).member("X", None);
    assert_eq!(named.to_string(), "typedef enum e {\n    X,\n} e;");
    let unnamed = CEnum::new("e").as_typedef(CTypedefKind::Unnamed).member("X", None);
    assert_eq!(unnamed.to_string(), "typedef enum {\n    X,\n} e;");
}

#[test]
fn enum_extreme_values() {
    let e = CEnum::new("wide")
        .member("LO", Some(i128::MIN))
        .member("HI", Some(i128::MAX))
        .member("ZERO", Some(0));
    let expected = format!(
        "enum wide {{\n    LO = {},\n    HI = {},\n    ZERO = 0,\n}};",
        i128::MIN,
        i128::MAX
    );
    assert_eq!(e.to_string(), expected);
}

#[test]
fn enum_empty_body() {
    assert_eq!(CEnum::new("none").to_string(), "enum none {\n};");
}

#[test]
fn enum_members_keep_call_order_and_duplicates() {
    let e = CEnum::new("o")
        .member("B", Some(2))
        .member("A", Some(1))
        .member("B", Some(2));
    assert_eq!(e.to_string(), "enum o {\n    B = 2,\n    A = 1,\n    B = 2,\n};");
}
