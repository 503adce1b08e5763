//! A translation unit: include guards around an ordered list of snippets.
use vstd::prelude::*;
use crate::c_enum::{CEnum, EnumModel, enum_text};
use crate::c_fn::{CFnDecl, CFnImpl, FnDeclModel, FnImplModel, fn_decl_text, fn_impl_text};
use crate::c_struct::{CStruct, StructModel, struct_text};
use crate::c_types::lines;
use crate::c_var::{CVar, VarModel, var_text};

verus! {

/// How a file is protected against being read twice.
pub enum CIncludeGuards {
    /// `#pragma once`
    PragmaOnce,
    /// `#ifndef MACRO` / `#define MACRO` ... `#endif /* MACRO */`
    String(String),
}

/// Model of a [`CIncludeGuards`].
pub enum GuardModel {
    PragmaOnce,
    Macro(Seq<char>),
}

impl View for CIncludeGuards {
    type V = GuardModel;

    open spec fn view(&self) -> GuardModel {
        match self {
            CIncludeGuards::PragmaOnce => GuardModel::PragmaOnce,
            CIncludeGuards::String(s) => GuardModel::Macro(s@),
        }
    }
}

/// One top-level item of a translation unit.
pub enum CSnippet {
    /// A library header, written `#include <name>`.
    LibInclude(String),
    /// A project header, written `#include "name"`.
    FileInclude(String),
    /// Text emitted verbatim.
    Raw(String),
    Struct(CStruct),
    Enum(CEnum),
    /// A function signature, written as [`CFnDecl`] renders it.
    FnDecl(CFnDecl),
    FnImpl(CFnImpl),
    /// A global variable, written with a trailing `;`.
    GlobalVar(CVar),
}

/// Model of a [`CSnippet`].
pub enum SnippetModel {
    LibInclude(Seq<char>),
    FileInclude(Seq<char>),
    Raw(Seq<char>),
    Struct(StructModel),
    Enum(EnumModel),
    FnDecl(FnDeclModel),
    FnImpl(FnImplModel),
    GlobalVar(VarModel),
}

impl View for CSnippet {
    type V = SnippetModel;

    open spec fn view(&self) -> SnippetModel {
        match self {
            CSnippet::LibInclude(s) => SnippetModel::LibInclude(s@),
            CSnippet::FileInclude(s) => SnippetModel::FileInclude(s@),
            CSnippet::Raw(s) => SnippetModel::Raw(s@),
            CSnippet::Struct(s) => SnippetModel::Struct(s@),
            CSnippet::Enum(e) => SnippetModel::Enum(e@),
            CSnippet::FnDecl(f) => SnippetModel::FnDecl(f@),
            CSnippet::FnImpl(f) => SnippetModel::FnImpl(f@),
            CSnippet::GlobalVar(v) => SnippetModel::GlobalVar(v@),
        }
    }
}

/// The text of one snippet, without a newline.
pub open spec fn snippet_text(s: SnippetModel) -> Seq<char> {
    match s {
        SnippetModel::LibInclude(n) => "#include <"@ + n + ">"@,
        SnippetModel::FileInclude(n) => "#include \""@ + n + "\""@,
        SnippetModel::Raw(t) => t,
        SnippetModel::Struct(st) => struct_text(st),
        SnippetModel::Enum(e) => enum_text(e),
        SnippetModel::FnDecl(f) => fn_decl_text(f),
        SnippetModel::FnImpl(f) => fn_impl_text(f),
        SnippetModel::GlobalVar(v) => var_text(v) + ";"@,
    }
}

impl CSnippet {
    /// Appends the snippet's text to `out`.
    pub fn render_into(&self, out: &mut String)
        ensures
            final(out)@ == old(out)@ + snippet_text(self@),
    {
        match self {
            CSnippet::LibInclude(n) => {
                out.append("#include <");
                out.append(n.as_str());
                out.append(">");
            },
            CSnippet::FileInclude(n) => {
                out.append("#include \"");
                out.append(n.as_str());
                out.append("\"");
            },
            CSnippet::Raw(t) => out.append(t.as_str()),
            CSnippet::Struct(st) => st.render_into(out),
            CSnippet::Enum(e) => e.render_into(out),
            CSnippet::FnDecl(f) => f.render_into(out),
            CSnippet::FnImpl(f) => f.render_into(out),
            CSnippet::GlobalVar(v) => {
                v.render_into(out);
                out.append(";");
            },
        }
        assert(out@ =~= old(out)@ + snippet_text(self@));
    }

    /// The snippet's text.
    pub fn to_string(&self) -> (r: String)
        ensures
            r@ == snippet_text(self@),
    {
        let mut out = String::new();
        self.render_into(&mut out);
        out
    }
}

/// Model of a translation unit.
pub struct ScopeModel {
    pub guards: Option<GuardModel>,
    pub snippets: Seq<SnippetModel>,
}

/// What comes before the snippets: `#pragma once`, or `#ifndef` and `#define` lines.
pub open spec fn guard_open_text(g: Option<GuardModel>) -> Seq<char> {
    match g {
        Some(GuardModel::PragmaOnce) => "#pragma once\n"@,
        Some(GuardModel::Macro(m)) => "#ifndef "@ + m + "\n"@ + "#define "@ + m + "\n"@,
        None => Seq::empty(),
    }
}

/// What comes after the snippets: an `#endif` line for a macro guard.
pub open spec fn guard_close_text(g: Option<GuardModel>) -> Seq<char> {
    match g {
        Some(GuardModel::Macro(m)) => "#endif /* "@ + m + " */\n"@,
        _ => Seq::empty(),
    }
}

/// The snippet texts, in order.
pub open spec fn snippet_texts(ss: Seq<SnippetModel>) -> Seq<Seq<char>> {
    ss.map_values(|s: SnippetModel| snippet_text(s))
}

/// Opening guard, each snippet on a line of its own, closing guard.
pub open spec fn scope_text(s: ScopeModel) -> Seq<char> {
    guard_open_text(s.guards) + lines(Seq::empty(), snippet_texts(s.snippets)) + guard_close_text(
        s.guards,
    )
}

/// A translation unit (a `.c` or `.h` file), built snippet by snippet.
pub struct CScope {
    include_guards: Option<CIncludeGuards>,
    snippets: Vec<CSnippet>,
}

impl View for CScope {
    type V = ScopeModel;

    closed spec fn view(&self) -> ScopeModel {
        ScopeModel {
            guards: match self.include_guards {
                Some(g) => Some(g@),
                None => None,
            },
            snippets: self.snippets@.map_values(|s: CSnippet| s@),
        }
    }
}

impl Default for CScope {
    /// An empty file without include guards.
    fn default() -> (r: Self)
        ensures
            r@ == (ScopeModel { guards: None, snippets: Seq::empty() }),
    {
        let r = CScope { include_guards: None, snippets: Vec::new() };
        assert(r@.snippets =~= Seq::empty());
        r
    }
}

impl CScope {
    /// Sets the include guards, replacing any earlier ones.
    pub fn with_include_guards(self, guards: CIncludeGuards) -> (r: Self)
        ensures
            r@ == (ScopeModel { guards: Some(guards@), ..self@ }),
    {
        CScope { include_guards: Some(guards), ..self }
    }

    /// Includes a library header, like `#include <stdio.h>`.
    pub fn include_lib(self, libname: &str) -> (r: Self)
        ensures
            r@ == (ScopeModel {
                snippets: self@.snippets.push(SnippetModel::LibInclude(libname@)),
                ..self@
            }),
    {
        let mut s = self;
        s.add_snippet(CSnippet::LibInclude(String::from_str(libname)));
        s
    }

    /// Includes a project header, like `#include "myheader.h"`.
    pub fn include_file(self, filename: &str) -> (r: Self)
        ensures
            r@ == (ScopeModel {
                snippets: self@.snippets.push(SnippetModel::FileInclude(filename@)),
                ..self@
            }),
    {
        let mut s = self;
        s.add_snippet(CSnippet::FileInclude(String::from_str(filename)));
        s
    }

    /// Appends any snippet after those already given.
    pub fn add_snippet(&mut self, snippet: CSnippet)
        ensures
            final(self)@ == (ScopeModel { snippets: old(self)@.snippets.push(snippet@), ..old(self)@ }),
    {
        self.snippets.push(snippet);
        assert(self@.snippets =~= old(self)@.snippets.push(snippet@));
    }

    /// Appends a struct definition.
    pub fn add_struct(&mut self, inst: CStruct)
        ensures
            final(self)@ == (ScopeModel {
                snippets: old(self)@.snippets.push(SnippetModel::Struct(inst@)),
                ..old(self)@
            }),
    {
        self.add_snippet(CSnippet::Struct(inst));
    }

    /// Appends an enum definition.
    pub fn add_enum(&mut self, inst: CEnum)
        ensures
            final(self)@ == (ScopeModel {
                snippets: old(self)@.snippets.push(SnippetModel::Enum(inst@)),
                ..old(self)@
            }),
    {
        self.add_snippet(CSnippet::Enum(inst));
    }

    /// Appends text to be emitted verbatim.
    pub fn add_raw(&mut self, inst: String)
        ensures
            final(self)@ == (ScopeModel {
                snippets: old(self)@.snippets.push(SnippetModel::Raw(inst@)),
                ..old(self)@
            }),
    {
        self.add_snippet(CSnippet::Raw(inst));
    }

    /// Appends a library include, like `#include <stdio.h>`.
    pub fn add_libinclude(&mut self, libname: String)
        ensures
            final(self)@ == (ScopeModel {
                snippets: old(self)@.snippets.push(SnippetModel::LibInclude(libname@)),
                ..old(self)@
            }),
    {
        self.add_snippet(CSnippet::LibInclude(libname));
    }

    /// Appends a file include, like `#include "myheader.h"`.
    pub fn add_fileinclude(&mut self, filename: String)
        ensures
            final(self)@ == (ScopeModel {
                snippets: old(self)@.snippets.push(SnippetModel::FileInclude(filename@)),
                ..old(self)@
            }),
    {
        self.add_snippet(CSnippet::FileInclude(filename));
    }

    /// Appends the whole file to `out`.
    pub fn render_into(&self, out: &mut String)
        ensures
            final(out)@ == old(out)@ + scope_text(self@),
    {
        match &self.include_guards {
            Some(CIncludeGuards::PragmaOnce) => out.append("#pragma once\n"),
            Some(CIncludeGuards::String(m)) => {
                out.append("#ifndef ");
                out.append(m.as_str());
                out.append("\n");
                out.append("#define ");
                out.append(m.as_str());
                out.append("\n");
            },
            None => {},
        }
        let ghost before_body = out@;
        let ghost texts = snippet_texts(self@.snippets);
        let mut i: usize = 0;
        while i < self.snippets.len()
            invariant
                i <= self.snippets.len(),
                texts == snippet_texts(self@.snippets),
                texts.len() == self.snippets.len(),
                before_body == old(out)@ + guard_open_text(self@.guards),
                out@ == before_body + lines(Seq::empty(), texts.take(i as int)),
            decreases self.snippets.len() - i,
        {
            self.snippets[i].render_into(out);
            out.append("\n");
            proof {
                let t = texts.take(i as int + 1);
                assert(t.drop_last() =~= texts.take(i as int));
                assert(self@.snippets[i as int] == self.snippets@[i as int]@);
                assert(t.last() == snippet_text(self.snippets@[i as int]@));
            }
            i = i + 1;
        }
        match &self.include_guards {
            Some(CIncludeGuards::String(m)) => {
                out.append("#endif /* ");
                out.append(m.as_str());
                out.append(" */\n");
            },
            _ => {},
        }
        assert(texts.take(self.snippets.len() as int) =~= texts);
        assert(out@ =~= old(out)@ + scope_text(self@));
    }

    /// The whole file as text.
    pub fn to_string(&self) -> (r: String)
        ensures
            r@ == scope_text(self@),
    {
        let mut out = String::new();
        self.render_into(&mut out);
        out
    }
}

} // verus!
