//! Properties of rendering that relate several builders or calls.
use vstd::prelude::*;
use crate::c_enum::{EnumModel, enum_member_text, enum_member_texts, enum_text};
use crate::c_fn::{FnDeclModel, FnImplModel, arg_texts, fn_decl_text, fn_impl_text};
use crate::c_struct::{StructModel, member_texts, struct_text};
use crate::c_types::{
    CArraySize, Declarator, TypedefModel, array_suffix, declarator_text, footer_text,
    header_text, join, lines, member_text,
};
use crate::text::{decimal_value, is_digit, lemma_nat_text_decimal, nat_text};
use crate::scope::{ScopeModel, scope_text, snippet_texts, guard_open_text, guard_close_text};

verus! {

/// Lines of a concatenation are the lines of each part, in order.
pub proof fn lemma_lines_concat(prefix: Seq<char>, a: Seq<Seq<char>>, b: Seq<Seq<char>>)
    ensures
        lines(prefix, a + b) == lines(prefix, a) + lines(prefix, b),
    decreases b.len(),
{
    if b.len() == 0 {
        assert(a + b =~= a);
        assert(lines(prefix, a) + lines(prefix, b) =~= lines(prefix, a));
    } else {
        assert((a + b).drop_last() =~= a + b.drop_last());
        lemma_lines_concat(prefix, a, b.drop_last());
        assert((a + b).last() == b.last());
        assert(lines(prefix, a + b) =~= lines(prefix, a) + lines(prefix, b));
    }
}

/// Joining a concatenation of two non-empty lists puts one separator between the parts.
pub proof fn lemma_join_concat(a: Seq<Seq<char>>, b: Seq<Seq<char>>, sep: Seq<char>)
    requires
        a.len() > 0,
        b.len() > 0,
    ensures
        join(a + b, sep) == join(a, sep) + sep + join(b, sep),
    decreases b.len(),
{
    assert((a + b).drop_last() =~= a + b.drop_last());
    assert((a + b).last() == b.last());
    if b.len() == 1 {
        assert(a + b.drop_last() =~= a);
    } else {
        lemma_join_concat(a, b.drop_last(), sep);
        assert(join(a + b, sep) =~= join(a, sep) + sep + join(b, sep));
    }
}

/// Struct members added later are rendered after those added earlier, in call order.
pub proof fn lemma_struct_member_order(s: StructModel, more: Seq<Declarator>)
    ensures
        struct_text(StructModel { members: s.members + more, ..s }) == header_text(
            "struct"@,
            s.name,
            s.typedef,
        ) + lines("    "@, member_texts(s.members)) + lines("    "@, member_texts(more))
            + footer_text(s.name, s.typedef),
{
    assert(member_texts(s.members + more) =~= member_texts(s.members) + member_texts(more));
    lemma_lines_concat("    "@, member_texts(s.members), member_texts(more));
}

/// Enum members added later are rendered after those added earlier, in call order.
pub proof fn lemma_enum_member_order(e: EnumModel, more: Seq<(Seq<char>, Option<int>)>)
    ensures
        enum_text(EnumModel { members: e.members + more, ..e }) == header_text(
            "enum"@,
            e.name,
            e.typedef,
        ) + lines("    "@, enum_member_texts(e.members)) + lines("    "@, enum_member_texts(more))
            + footer_text(e.name, e.typedef),
{
    assert(enum_member_texts(e.members + more) =~= enum_member_texts(e.members)
        + enum_member_texts(more));
    lemma_lines_concat("    "@, enum_member_texts(e.members), enum_member_texts(more));
}

/// Appending one struct member adds exactly its indented line, `;` included,
/// after all earlier members and right before the footer.
pub proof fn lemma_struct_member_appended(s: StructModel, m: Declarator)
    ensures
        struct_text(StructModel { members: s.members.push(m), ..s }) == header_text(
            "struct"@,
            s.name,
            s.typedef,
        ) + lines("    "@, member_texts(s.members)) + "    "@ + member_text(m) + "\n"@
            + footer_text(s.name, s.typedef),
{
    let t = member_texts(s.members.push(m));
    assert(t =~= member_texts(s.members).push(member_text(m)));
    assert(t.drop_last() =~= member_texts(s.members));
}

/// Appending one enum member adds exactly its indented line after all earlier
/// members and right before the footer.
pub proof fn lemma_enum_member_appended(e: EnumModel, m: (Seq<char>, Option<int>))
    ensures
        enum_text(EnumModel { members: e.members.push(m), ..e }) == header_text(
            "enum"@,
            e.name,
            e.typedef,
        ) + lines("    "@, enum_member_texts(e.members)) + "    "@ + enum_member_text(m) + "\n"@
            + footer_text(e.name, e.typedef),
{
    let t = enum_member_texts(e.members.push(m));
    assert(t =~= enum_member_texts(e.members).push(enum_member_text(m)));
    assert(t.drop_last() =~= enum_member_texts(e.members));
}


/// Function arguments added later come after those added earlier, separated by `, `.
pub proof fn lemma_fn_arg_order(f: FnDeclModel, more: Seq<Declarator>)
    requires
        f.args.len() > 0,
        more.len() > 0,
    ensures
        join(arg_texts(f.args + more), ", "@) == join(arg_texts(f.args), ", "@) + ", "@ + join(
            arg_texts(more),
            ", "@,
        ),
{
    assert(arg_texts(f.args + more) =~= arg_texts(f.args) + arg_texts(more));
    lemma_join_concat(arg_texts(f.args), arg_texts(more), ", "@);
}

/// Body lines added later are rendered after those added earlier, in call order.
pub proof fn lemma_fn_body_order(f: FnImplModel, more: Seq<Seq<char>>)
    ensures
        fn_impl_text(FnImplModel { body: f.body + more, ..f }) == fn_decl_text(f.decl) + " {\n"@
            + lines("    "@, f.body) + lines("    "@, more) + "}"@,
{
    lemma_lines_concat("    "@, f.body, more);
}

/// Snippets added later are rendered after those added earlier, in call order.
pub proof fn lemma_scope_snippet_order(s: ScopeModel, more: Seq<crate::scope::SnippetModel>)
    ensures
        scope_text(ScopeModel { snippets: s.snippets + more, ..s }) == guard_open_text(s.guards)
            + lines(Seq::empty(), snippet_texts(s.snippets)) + lines(
            Seq::empty(),
            snippet_texts(more),
        ) + guard_close_text(s.guards),
{
    assert(snippet_texts(s.snippets + more) =~= snippet_texts(s.snippets) + snippet_texts(more));
    lemma_lines_concat(Seq::empty(), snippet_texts(s.snippets), snippet_texts(more));
}

/// Rendering is a function of the model alone: a scope (and everything in it)
/// renders to the same text each time, as no hidden state takes part.
pub proof fn lemma_render_deterministic(a: ScopeModel, b: ScopeModel)
    requires
        a == b,
    ensures
        scope_text(a) == scope_text(b),
{
}

/// The opening and closing lines of a struct for each typedef kind: no typedef
/// gives `struct name {` / `};`, `Unnamed` gives `typedef struct {` / `} name;`,
/// `Named` gives `typedef struct name {` / `} name;`, and `Explicit(alias)` gives
/// `typedef struct name {` / `} alias;`.
pub proof fn lemma_struct_typedef_frame(s: StructModel)
    ensures
        ({
            let body = lines("    "@, member_texts(s.members));
            &&& s.typedef is None ==> struct_text(s) == "struct "@ + s.name + " {\n"@ + body + "};"@
            &&& s.typedef == Some(TypedefModel::Unnamed) ==> struct_text(s) == "typedef struct {\n"@
                + body + "} "@ + s.name + ";"@
            &&& s.typedef == Some(TypedefModel::Named) ==> struct_text(s) == "typedef struct "@
                + s.name + " {\n"@ + body + "} "@ + s.name + ";"@
            &&& forall|alias: Seq<char>|
                s.typedef == Some(TypedefModel::Explicit(alias)) ==> struct_text(s)
                    == "typedef struct "@ + s.name + " {\n"@ + body + "} "@ + alias + ";"@
        }),
{
    reveal_strlit("struct");
    reveal_strlit("struct ");
    reveal_strlit(" ");
    reveal_strlit("typedef ");
    reveal_strlit("typedef struct ");
    reveal_strlit("typedef struct {\n");
    reveal_strlit(" {\n");
    let body = lines("    "@, member_texts(s.members));
    match s.typedef {
        None => {
            assert(struct_text(s) =~= "struct "@ + s.name + " {\n"@ + body + "};"@);
        },
        Some(TypedefModel::Unnamed) => {
            assert(struct_text(s) =~= "typedef struct {\n"@ + body + "} "@ + s.name + ";"@);
        },
        Some(TypedefModel::Named) => {
            assert(struct_text(s) =~= "typedef struct "@ + s.name + " {\n"@ + body + "} "@ + s.name
                + ";"@);
        },
        Some(TypedefModel::Explicit(alias)) => {
            assert(struct_text(s) =~= "typedef struct "@ + s.name + " {\n"@ + body + "} "@ + alias
                + ";"@);
        },
    }
}

/// The opening and closing lines of an enum for each typedef kind, as for a struct.
pub proof fn lemma_enum_typedef_frame(e: EnumModel)
    ensures
        ({
            let body = lines("    "@, enum_member_texts(e.members));
            &&& e.typedef is None ==> enum_text(e) == "enum "@ + e.name + " {\n"@ + body + "};"@
            &&& e.typedef == Some(TypedefModel::Unnamed) ==> enum_text(e) == "typedef enum {\n"@
                + body + "} "@ + e.name + ";"@
            &&& e.typedef == Some(TypedefModel::Named) ==> enum_text(e) == "typedef enum "@
                + e.name + " {\n"@ + body + "} "@ + e.name + ";"@
            &&& forall|alias: Seq<char>|
                e.typedef == Some(TypedefModel::Explicit(alias)) ==> enum_text(e)
                    == "typedef enum "@ + e.name + " {\n"@ + body + "} "@ + alias + ";"@
        }),
{
    reveal_strlit("enum");
    reveal_strlit("enum ");
    reveal_strlit(" ");
    reveal_strlit("typedef ");
    reveal_strlit("typedef enum ");
    reveal_strlit("typedef enum {\n");
    reveal_strlit(" {\n");
    let body = lines("    "@, enum_member_texts(e.members));
    match e.typedef {
        None => {
            assert(enum_text(e) =~= "enum "@ + e.name + " {\n"@ + body + "};"@);
        },
        Some(TypedefModel::Unnamed) => {
            assert(enum_text(e) =~= "typedef enum {\n"@ + body + "} "@ + e.name + ";"@);
        },
        Some(TypedefModel::Named) => {
            assert(enum_text(e) =~= "typedef enum "@ + e.name + " {\n"@ + body + "} "@ + e.name
                + ";"@);
        },
        Some(TypedefModel::Explicit(alias)) => {
            assert(enum_text(e) =~= "typedef enum "@ + e.name + " {\n"@ + body + "} "@ + alias
                + ";"@);
        },
    }
}

/// A declarator ends with its array suffix. `Sized(n)` renders as `[`, the
/// decimal digits of `n`, `]`; `Unsized` renders as `[]`; no array renders no
/// brackets at all.
pub proof fn lemma_array_suffix(d: Declarator)
    ensures
        declarator_text(d) == declarator_text(Declarator { array: None, ..d }) + array_suffix(
            d.array,
        ),
        d.array is None ==> array_suffix(d.array) == Seq::<char>::empty(),
        d.array == Some(CArraySize::Unsized) ==> array_suffix(d.array) == seq!['[', ']'],
        forall|n: usize|
            d.array == Some(CArraySize::Sized(n)) ==> ({
                let t = array_suffix(d.array);
                &&& t.len() >= 3
                &&& t[0] == '['
                &&& t.last() == ']'
                &&& forall|i: int| 1 <= i < t.len() - 1 ==> is_digit(#[trigger] t[i])
                &&& decimal_value(t.subrange(1, t.len() - 1)) == n
            }),
{
    reveal_strlit("[");
    reveal_strlit("]");
    reveal_strlit("[]");
    assert(declarator_text(d) =~= declarator_text(Declarator { array: None, ..d }) + array_suffix(
        d.array,
    ));
    assert("[]"@ =~= seq!['[', ']']);
    match d.array {
        Some(CArraySize::Sized(n)) => {
            lemma_nat_text_decimal(n as nat);
            let t = array_suffix(d.array);
            let digits = nat_text(n as nat);
            assert(t =~= seq!['['] + digits + seq![']']);
            assert(t.subrange(1, t.len() - 1) =~= digits);
            assert forall|i: int| 1 <= i < t.len() - 1 implies is_digit(#[trigger] t[i]) by {
                assert(t[i] == digits[i - 1]);
            }
        },
        _ => {},
    }
}

/// Whether the text holds no newline.
pub open spec fn no_newline(t: Seq<char>) -> bool {
    forall|i: int| 0 <= i < t.len() ==> t[i] != '\n'
}

/// The opening line of a `struct` or `enum` definition, without its newline.
pub open spec fn header_line(keyword: Seq<char>, name: Seq<char>, td: Option<TypedefModel>) -> Seq<
    char,
> {
    match td {
        None => keyword + " "@ + name + " {"@,
        Some(TypedefModel::Unnamed) => "typedef "@ + keyword + " {"@,
        Some(_) => "typedef "@ + keyword + " "@ + name + " {"@,
    }
}

proof fn lemma_no_newline_concat(a: Seq<char>, b: Seq<char>)
    requires
        no_newline(a),
        no_newline(b),
    ensures
        no_newline(a + b),
{
    assert forall|i: int| 0 <= i < (a + b).len() implies (a + b)[i] != '\n' by {
        if i >= a.len() {
            assert((a + b)[i] == b[i - a.len()]);
        }
    }
}

proof fn lemma_lines_end_in_newline(prefix: Seq<char>, ls: Seq<Seq<char>>)
    ensures
        lines(prefix, ls).len() == 0 || lines(prefix, ls).last() == '\n',
{
    reveal_strlit("\n");
}

/// For a definition introduced by `keyword`, with names free of newlines: the
/// text's first line is `header_line` and its last line is the footer.
proof fn lemma_frame_lines(
    keyword: Seq<char>,
    name: Seq<char>,
    td: Option<TypedefModel>,
    body: Seq<char>,
)
    requires
        no_newline(keyword),
        no_newline(name),
        forall|alias: Seq<char>| td == Some(TypedefModel::Explicit(alias)) ==> no_newline(alias),
        body.len() == 0 || body.last() == '\n',
    ensures
        ({
            let t = header_text(keyword, name, td) + body + footer_text(name, td);
            let h = header_line(keyword, name, td);
            let f = footer_text(name, td);
            &&& no_newline(h)
            &&& t.take(h.len() as int) == h
            &&& t[h.len() as int] == '\n'
            &&& no_newline(f)
            &&& t.skip(t.len() - f.len()) == f
            &&& t[t.len() - f.len() - 1] == '\n'
        }),
{
    reveal_strlit(" ");
    reveal_strlit(" {");
    reveal_strlit(" {\n");
    reveal_strlit("\n");
    reveal_strlit("typedef ");
    reveal_strlit("} ");
    reveal_strlit(";");
    reveal_strlit("};");
    assert(no_newline(" "@));
    assert(no_newline(" {"@));
    assert(no_newline("typedef "@));
    assert(no_newline("} "@));
    assert(no_newline(";"@));
    assert(no_newline("};"@));
    let h = header_line(keyword, name, td);
    let f = footer_text(name, td);
    match td {
        None => {
            lemma_no_newline_concat(keyword, " "@);
            lemma_no_newline_concat(keyword + " "@, name);
            lemma_no_newline_concat(keyword + " "@ + name, " {"@);
        },
        Some(TypedefModel::Unnamed) => {
            lemma_no_newline_concat("typedef "@, keyword);
            lemma_no_newline_concat("typedef "@ + keyword, " {"@);
            lemma_no_newline_concat("} "@, name);
            lemma_no_newline_concat("} "@ + name, ";"@);
        },
        Some(TypedefModel::Named) => {
            lemma_no_newline_concat("typedef "@, keyword);
            lemma_no_newline_concat("typedef "@ + keyword, " "@);
            lemma_no_newline_concat("typedef "@ + keyword + " "@, name);
            lemma_no_newline_concat("typedef "@ + keyword + " "@ + name, " {"@);
            lemma_no_newline_concat("} "@, name);
            lemma_no_newline_concat("} "@ + name, ";"@);
        },
        Some(TypedefModel::Explicit(alias)) => {
            lemma_no_newline_concat("typedef "@, keyword);
            lemma_no_newline_concat("typedef "@ + keyword, " "@);
            lemma_no_newline_concat("typedef "@ + keyword + " "@, name);
            lemma_no_newline_concat("typedef "@ + keyword + " "@ + name, " {"@);
            lemma_no_newline_concat("} "@, alias);
            lemma_no_newline_concat("} "@ + alias, ";"@);
        },
    }
    assert(header_text(keyword, name, td) =~= h + "\n"@);
    let t = header_text(keyword, name, td) + body + footer_text(name, td);
    assert(t =~= h + "\n"@ + body + f);
    assert(t.take(h.len() as int) =~= h);
    assert(t.skip(t.len() - f.len()) =~= f);
    if body.len() == 0 {
        assert(t[t.len() - f.len() - 1] == (h + "\n"@)[h.len() as int]);
    } else {
        assert(t[t.len() - f.len() - 1] == body.last());
    }
}

/// With a name (and alias) free of newlines, a struct's first line is
/// `header_line("struct", name, typedef)` and its last line is the footer:
/// `};`, or `} alias;` for an explicit typedef, or `} name;` otherwise.
pub proof fn lemma_struct_first_and_last_line(s: StructModel)
    requires
        no_newline(s.name),
        forall|alias: Seq<char>| s.typedef == Some(TypedefModel::Explicit(alias)) ==> no_newline(alias),
    ensures
        ({
            let t = struct_text(s);
            let h = header_line("struct"@, s.name, s.typedef);
            let f = footer_text(s.name, s.typedef);
            &&& no_newline(h)
            &&& t.take(h.len() as int) == h
            &&& t[h.len() as int] == '\n'
            &&& no_newline(f)
            &&& t.skip(t.len() - f.len()) == f
            &&& t[t.len() - f.len() - 1] == '\n'
        }),
{
    reveal_strlit("struct");
    assert(no_newline("struct"@));
    let body = lines("    "@, member_texts(s.members));
    lemma_lines_end_in_newline("    "@, member_texts(s.members));
    lemma_frame_lines("struct"@, s.name, s.typedef, body);
}

/// With a name (and alias) free of newlines, an enum's first line is
/// `header_line("enum", name, typedef)` and its last line is the footer:
/// `};`, or `} alias;` for an explicit typedef, or `} name;` otherwise.
pub proof fn lemma_enum_first_and_last_line(e: EnumModel)
    requires
        no_newline(e.name),
        forall|alias: Seq<char>| e.typedef == Some(TypedefModel::Explicit(alias)) ==> no_newline(alias),
    ensures
        ({
            let t = enum_text(e);
            let h = header_line("enum"@, e.name, e.typedef);
            let f = footer_text(e.name, e.typedef);
            &&& no_newline(h)
            &&& t.take(h.len() as int) == h
            &&& t[h.len() as int] == '\n'
            &&& no_newline(f)
            &&& t.skip(t.len() - f.len()) == f
            &&& t[t.len() - f.len() - 1] == '\n'
        }),
{
    reveal_strlit("enum");
    assert(no_newline("enum"@));
    let body = lines("    "@, enum_member_texts(e.members));
    lemma_lines_end_in_newline("    "@, enum_member_texts(e.members));
    lemma_frame_lines("enum"@, e.name, e.typedef, body);
}

} // verus!
