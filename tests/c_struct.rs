use c_codegen::{CStruct, CTypeDecl, CTypedefKind};

#[test]
fn test_struct() {
    let expected = "typedef struct struct_foo {
    uint8_t a;
    uint16_t b[35];
    const char * name;
    const int c[];
} foo;";

    let mut struct_inst = CStruct::new("struct_foo")
        .as_typedef(CTypedefKind::explicit("foo"))
        .member("uint8_t", "a");
    let b = CTypeDecl::new("uint16_t", "b").sized_array(35);
    struct_inst.add_member(b);
    let name = CTypeDecl::new("char *", "name").const_();
    struct_inst.add_member(name);
    let c = CTypeDecl::new("int", "c").const_().unsized_array();
    struct_inst.add_member(c);
    assert_eq!(expected.to_string(), struct_inst.to_string());
}

#[test]
fn struct_without_typedef() {
    let s = CStruct::new("point").member("int", "x").member("int", "y");
    assert_eq!(s.to_string(), "struct point {\n    int x;\n    int y;\n};");
}

#[test]
fn struct_named_typedef() {
    let s = CStruct::new("foo").as_typedef(CTypedefKind::Named).member("int", "a");
    assert_eq!(s.to_string(), "typedef struct foo {\n    int a;\n} foo;");
}

#[test]
fn struct_unnamed_typedef() {
    let s = CStruct::new("foo").as_typedef(CTypedefKind::Unnamed).member("int", "a");
    assert_eq!(s.to_string(), "typedef struct {\n    int a;\n} foo;");
}

#[test]
fn struct_typedef_last_wins() {
    let s = CStruct::new("foo")
        .as_typedef(CTypedefKind::Unnamed)
        .as_typedef(CTypedefKind::explicit("bar"));
    assert_eq!(s.to_string(), "typedef struct foo {\n} bar;");
}

#[test]
fn type_decl_member_forms() {
    assert_eq!(CTypeDecl::new("int", "a").to_string(), "int a;");
    assert_eq!(CTypeDecl::new("int", "a").sized_array(0).to_string(), "int a[0];");
    assert_eq!(CTypeDecl::new("int", "a").unsized_array().to_string(), "int a[];");
    assert_eq!(
        CTypeDecl::new("int", "a").unsized_array().sized_array(12).to_string(),
        "int a[12];"
    );
    assert_eq!(
        CTypeDecl::new("int", "a").sized_array(12).unsized_array().to_string(),
        "int a[];"
    );
    assert_eq!(
        CTypeDecl::new("u8", "big").sized_array(usize::MAX).to_string(),
        format!("u8 big[{}];", usize::MAX)
    );
}
