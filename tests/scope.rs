use c_codegen::{
    CEnum, CFnDecl, CFnImpl, CIncludeGuards, CScope, CSnippet, CStruct, CTypedefKind, CVar,
    CVarDecl,
};

#[test]
fn scope_empty() {
    assert_eq!(CScope::default().to_string(), "");
}

#[test]
fn scope_pragma_once_and_includes() {
    let s = CScope::default()
        .with_include_guards(CIncludeGuards::PragmaOnce)
        .include_lib("stdio.h")
        .include_file("my.h")
        .include_lib("stdio.h");
    assert_eq!(
        s.to_string(),
        "#pragma once\n#include <stdio.h>\n#include \"my.h\"\n#include <stdio.h>\n"
    );
}

#[test]
fn scope_macro_guards_and_snippets_in_order() {
    let mut s = CScope::default().with_include_guards(CIncludeGuards::String("MY_H".to_string()));
    s.add_libinclude("stdint.h".to_string());
    s.add_fileinclude("other.h".to_string());
    s.add_raw("// raw text".to_string());
    s.add_struct(CStruct::new("p").member("int", "x"));
    s.add_enum(CEnum::new("e").as_typedef(CTypedefKind::Named).member("A", Some(1)));
    s.add_snippet(CSnippet::FnDecl(CFnDecl::new("f").ret("int")));
    s.add_snippet(CSnippet::FnImpl(CFnImpl::new(CFnDecl::new("g")).add_line("f();")));
    s.add_snippet(CSnippet::GlobalVar(CVar::new(CVarDecl::new("int", "counter")).init("0")));
    let expected = "#ifndef MY_H\n#define MY_H\n\
#include <stdint.h>\n\
#include \"other.h\"\n\
// raw text\n\
struct p {\n    int x;\n};\n\
typedef enum e {\n    A = 1,\n} e;\n\
int f()\n\
void g() {\n    f();\n}\n\
int counter = 0;\n\
#endif /* MY_H */\n";
    assert_eq!(s.to_string(), expected);
}

#[test]
fn scope_renders_the_same_twice() {
    let mut s = CScope::default().include_lib("a.h");
    s.add_raw("x".to_string());
    assert_eq!(s.to_string(), s.to_string());
}

#[test]
fn snippet_forms() {
    assert_eq!(CSnippet::LibInclude("a.h".to_string()).to_string(), "#include <a.h>");
    assert_eq!(CSnippet::FileInclude("a.h".to_string()).to_string(), "#include \"a.h\"");
    assert_eq!(CSnippet::Raw("int x;".to_string()).to_string(), "int x;");
}

#[test]
fn scope_fn_decl_snippet_as_declared() {
    let mut s = CScope::default();
    s.add_snippet(CSnippet::FnDecl(CFnDecl::new("f")));
    assert_eq!(s.to_string(), "void f()\n");
}
