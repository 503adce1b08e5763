//! Function declarations (signatures) and function implementations (with bodies).
use vstd::prelude::*;
use crate::c_types::{CStorageClass, Declarator, declarator_text, join, lines, push_storage, storage_prefix};
use crate::c_var::CVarDecl;

verus! {

/// Model of a function declaration.
pub struct FnDeclModel {
    pub name: Seq<char>,
    pub ret: Seq<char>,
    pub storage: Option<CStorageClass>,
    pub inline: bool,
    pub args: Seq<Declarator>,
}

/// The inline texts of the arguments, in order.
pub open spec fn arg_texts(args: Seq<Declarator>) -> Seq<Seq<char>> {
    args.map_values(|d: Declarator| declarator_text(d))
}

/// `[<storage> ][inline ]<ret> <name>(<arg>, <arg>, ...)`.
pub open spec fn fn_decl_text(f: FnDeclModel) -> Seq<char> {
    storage_prefix(f.storage) + (if f.inline {
        "inline "@
    } else {
        Seq::empty()
    }) + f.ret + " "@ + f.name + "("@ + join(arg_texts(f.args), ", "@) + ")"@
}

/// A function signature.
#[derive(Debug, Clone, PartialEq, Eq)]
pub struct CFnDecl {
    name: String,
    ret: String,
    storage: Option<CStorageClass>,
    inline: bool,
    args: Vec<CVarDecl>,
}

impl View for CFnDecl {
    type V = FnDeclModel;

    closed spec fn view(&self) -> FnDeclModel {
        FnDeclModel {
            name: self.name@,
            ret: self.ret@,
            storage: self.storage,
            inline: self.inline,
            args: self.args@.map_values(|a: CVarDecl| a@),
        }
    }
}

impl CFnDecl {
    /// A function `name` returning `void`, with no storage class, not inline, without arguments.
    pub fn new(name: &str) -> (r: Self)
        ensures
            r@ == (FnDeclModel {
                name: name@,
                ret: "void"@,
                storage: None,
                inline: false,
                args: Seq::empty(),
            }),
    {
        let r = CFnDecl {
            name: String::from_str(name),
            ret: String::from_str("void"),
            storage: None,
            inline: false,
            args: Vec::new(),
        };
        assert(r@.args =~= Seq::empty());
        r
    }

    /// Sets the return type.
    pub fn ret(self, rettype: &str) -> (r: Self)
        ensures
            r@ == (FnDeclModel { ret: rettype@, ..self@ }),
    {
        CFnDecl { ret: String::from_str(rettype), ..self }
    }

    /// Sets the storage class to `static`, replacing any earlier one.
    pub fn static_(self) -> (r: Self)
        ensures
            r@ == (FnDeclModel { storage: Some(CStorageClass::Static), ..self@ }),
    {
        CFnDecl { storage: Some(CStorageClass::Static), ..self }
    }

    /// Sets the storage class to `extern`, replacing any earlier one.
    pub fn extern_(self) -> (r: Self)
        ensures
            r@ == (FnDeclModel { storage: Some(CStorageClass::Extern), ..self@ }),
    {
        CFnDecl { storage: Some(CStorageClass::Extern), ..self }
    }

    /// Marks the function `inline`.
    pub fn inline(self) -> (r: Self)
        ensures
            r@ == (FnDeclModel { inline: true, ..self@ }),
    {
        CFnDecl { inline: true, ..self }
    }

    /// Appends an argument after those already given.
    pub fn arg(self, arg: CVarDecl) -> (r: Self)
        ensures
            r@ == (FnDeclModel { args: self@.args.push(arg@), ..self@ }),
    {
        let mut s = self;
        s.args.push(arg);
        assert(s@.args =~= self@.args.push(arg@));
        s
    }

    /// Appends the signature to `out`.
    pub fn render_into(&self, out: &mut String)
        ensures
            final(out)@ == old(out)@ + fn_decl_text(self@),
    {
        let ghost start = out@;
        push_storage(out, self.storage);
        if self.inline {
            out.append("inline ");
        }
        out.append(self.ret.as_str());
        out.append(" ");
        out.append(self.name.as_str());
        out.append("(");
        let ghost before_args = out@;
        let ghost texts = arg_texts(self@.args);
        let mut i: usize = 0;
        while i < self.args.len()
            invariant
                i <= self.args.len(),
                texts == arg_texts(self@.args),
                texts.len() == self.args.len(),
                out@ == before_args + join(texts.take(i as int), ", "@),
            decreases self.args.len() - i,
        {
            if i > 0 {
                out.append(", ");
            }
            self.args[i].render_into(out);
            proof {
                let t = texts.take(i as int + 1);
                assert(t.drop_last() =~= texts.take(i as int));
                assert(t.last() == texts[i as int]);
                assert(self@.args[i as int] == self.args@[i as int]@);
                assert(texts[i as int] == declarator_text(self.args@[i as int]@));
                if i == 0 {
                    assert(join(texts.take(0), ", "@) =~= Seq::empty());
                }
            }
            i = i + 1;
        }
        out.append(")");
        assert(texts.take(self.args.len() as int) =~= texts);
        assert(out@ =~= old(out)@ + fn_decl_text(self@));
    }

    /// The signature, e.g. `extern uint32_t my_func(void * a, size_t buflen)`.
    pub fn to_string(&self) -> (r: String)
        ensures
            r@ == fn_decl_text(self@),
    {
        let mut out = String::new();
        self.render_into(&mut out);
        out
    }
}

/// Model of a function implementation.
pub struct FnImplModel {
    pub decl: FnDeclModel,
    pub body: Seq<Seq<char>>,
}

/// `<signature> {`, then each body line indented by four spaces, then `}`.
pub open spec fn fn_impl_text(f: FnImplModel) -> Seq<char> {
    fn_decl_text(f.decl) + " {\n"@ + lines("    "@, f.body) + "}"@
}

/// A function signature together with its body, given as lines of raw text.
pub struct CFnImpl {
    decl: CFnDecl,
    body: Vec<String>,
}

impl View for CFnImpl {
    type V = FnImplModel;

    closed spec fn view(&self) -> FnImplModel {
        FnImplModel { decl: self.decl@, body: self.body@.map_values(|l: String| l@) }
    }
}

impl CFnImpl {
    /// An implementation of `decl` with an empty body.
    pub fn new(decl: CFnDecl) -> (r: Self)
        ensures
            r@ == (FnImplModel { decl: decl@, body: Seq::empty() }),
    {
        let r = CFnImpl { decl, body: Vec::new() };
        assert(r@.body =~= Seq::empty());
        r
    }

    /// Appends a line to the body; it is emitted verbatim.
    pub fn add_line(self, line: &str) -> (r: Self)
        ensures
            r@ == (FnImplModel { body: self@.body.push(line@), ..self@ }),
    {
        let mut s = self;
        s.body.push(String::from_str(line));
        assert(s@.body =~= self@.body.push(line@));
        s
    }

    /// Appends the implementation to `out`.
    pub fn render_into(&self, out: &mut String)
        ensures
            final(out)@ == old(out)@ + fn_impl_text(self@),
    {
        self.decl.render_into(out);
        out.append(" {\n");
        let ghost before_body = out@;
        let ghost body = self@.body;
        let mut i: usize = 0;
        while i < self.body.len()
            invariant
                i <= self.body.len(),
                body == self@.body,
                body.len() == self.body.len(),
                out@ == before_body + lines("    "@, body.take(i as int)),
            decreases self.body.len() - i,
        {
            out.append("    ");
            out.append(self.body[i].as_str());
            out.append("\n");
            proof {
                let t = body.take(i as int + 1);
                assert(t.drop_last() =~= body.take(i as int));
                assert(t.last() == self.body@[i as int]@);
            }
            i = i + 1;
        }
        out.append("}");
        assert(body.take(self.body.len() as int) =~= body);
        assert(out@ =~= old(out)@ + fn_impl_text(self@));
    }

    /// The implementation as text.
    pub fn to_string(&self) -> (r: String)
        ensures
            r@ == fn_impl_text(self@),
    {
        let mut out = String::new();
        self.render_into(&mut out);
        out
    }
}

/// The same as [`CFnImpl::new`].
impl From<CFnDecl> for CFnImpl {
    fn from(value: CFnDecl) -> (r: Self) {
        CFnImpl { decl: value, body: Vec::new() }
    }
}

impl vstd::std_specs::convert::FromSpecImpl<CFnDecl> for CFnImpl {
    /// An empty `Vec` cannot be built at the spec level, so no result is promised
    /// here; [`CFnImpl::new`] states what this returns.
    open spec fn obeys_from_spec() -> bool {
        false
    }

    open spec fn from_spec(value: CFnDecl) -> Self {
        arbitrary()
    }
}

} // verus!
