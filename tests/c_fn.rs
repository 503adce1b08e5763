use c_codegen::{CFnDecl, CFnImpl, CStorageClass, CVarDecl};

#[test]
fn test_decl() {
    let expected = "extern uint32_t my_func(void * a, const uint8_t * buf, size_t buflen)";

    let decl_inst = CFnDecl::new("my_func")
        .extern_()
        .ret("uint32_t")
        .arg(CVarDecl::from(("void *", "a")))
        .arg(CVarDecl::new("uint8_t *", "buf").const_())
        .arg(CVarDecl::from(("size_t", "buflen")));
    assert_eq!(expected.to_string(), decl_inst.to_string());
}

#[test]
fn test_impl() {
    let expected = "static inline void my_func(void * a, const uint8_t buf[], size_t buflen) {
    printf(\"Hello World\");
}";

    let decl_inst = CFnDecl::new("my_func")
        .static_()
        .inline()
        .arg(CVarDecl::from(("void *", "a")))
        .arg(CVarDecl::new("uint8_t", "buf").const_().unsized_array())
        .arg(CVarDecl::from(("size_t", "buflen")));
    let impl_inst = CFnImpl::from(decl_inst).add_line("printf(\"Hello World\");");
    assert_eq!(expected.to_string(), impl_inst.to_string());
}

#[test]
fn fn_decl_defaults() {
    assert_eq!(CFnDecl::new("f").to_string(), "void f()");
}

#[test]
fn fn_decl_single_arg_and_storage_last_wins() {
    let d = CFnDecl::new("g")
        .static_()
        .extern_()
        .ret("int")
        .arg(CVarDecl::new("int", "x"));
    assert_eq!(d.to_string(), "extern int g(int x)");
    let d2 = CFnDecl::new("g").extern_().static_();
    assert_eq!(d2.to_string(), "static void g()");
}

#[test]
fn fn_decl_inline_without_storage() {
    let d = CFnDecl::new("h").inline().ret("char").arg(CVarDecl::new("int", "n").sized_array(4));
    assert_eq!(d.to_string(), "inline char h(int n[4])");
}

#[test]
fn fn_impl_body_lines_in_order() {
    let f = CFnImpl::new(CFnDecl::new("main").ret("int"))
        .add_line("int x = 1;")
        .add_line("x++;")
        .add_line("return x;");
    assert_eq!(f.to_string(), "int main() {\n    int x = 1;\n    x++;\n    return x;\n}");
}

#[test]
fn fn_impl_empty_body() {
    let f = CFnImpl::from(CFnDecl::new("nop"));
    assert_eq!(f.to_string(), "void nop() {\n}");
}

#[test]
fn storage_class_keywords() {
    assert_eq!(CStorageClass::Extern.to_string(), "extern");
    assert_eq!(CStorageClass::Static.to_string(), "static");
}
