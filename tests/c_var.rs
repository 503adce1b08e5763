use c_codegen::{CVar, CVarDecl};

#[test]
fn test_var() {
    let expected = "static const uint8_t foo[2] = {0, 0}";

    let var_decl = CVarDecl::new("uint8_t", "foo").const_().sized_array(2);
    let var_def = CVar::from(var_decl).static_().init("{0, 0}");
    assert_eq!(expected.to_string(), var_def.to_string());
}

#[test]
fn var_plain_and_extern() {
    assert_eq!(CVar::new(CVarDecl::new("int", "n")).to_string(), "int n");
    let v = CVar::new(CVarDecl::new("int", "n").unsized_array()).extern_();
    assert_eq!(v.to_string(), "extern int n[]");
}

#[test]
fn var_storage_and_init_last_wins() {
    let v = CVar::from(CVarDecl::new("int", "n"))
        .extern_()
        .static_()
        .init("1")
        .init("2");
    assert_eq!(v.to_string(), "static int n = 2");
}

#[test]
fn var_decl_inline_forms() {
    assert_eq!(CVarDecl::new("char *", "s").to_string(), "char * s");
    assert_eq!(CVarDecl::from(("size_t", "len")).to_string(), "size_t len");
    assert_eq!(CVarDecl::new("int", "m").const_().sized_array(10).to_string(), "const int m[10]");
}
