//! The small value types shared by every declaration: storage classes, array
//! sizes, typedef naming, and the declarator that binds a type to a name.
use vstd::prelude::*;
use crate::text::{nat_text, push_nat};

verus! {

/// A C storage-class keyword.
#[derive(Debug, Clone, Copy, PartialEq, Eq, Hash)]
pub enum CStorageClass {
    Extern,
    Static,
}

/// The array part of a declarator: `[]` or `[N]`.
#[derive(Debug, Clone, Copy, PartialEq, Eq, Hash)]
pub enum CArraySize {
    Unsized,
    Sized(usize),
}

/// How a struct or enum definition is wrapped in a `typedef`.
#[derive(Debug, Clone, PartialEq, Eq)]
pub enum CTypedefKind {
    /// The alias is the struct/enum name itself: `typedef struct foo { .. } foo;`
    Named,
    /// The alias is the given text: `typedef struct foo { .. } alias;`
    Explicit(String),
    /// The struct/enum has no tag: `typedef struct { .. } foo;`
    Unnamed,
}

/// Model of a [`CTypedefKind`].
pub enum TypedefModel {
    Named,
    Explicit(Seq<char>),
    Unnamed,
}

impl View for CTypedefKind {
    type V = TypedefModel;

    open spec fn view(&self) -> TypedefModel {
        match self {
            CTypedefKind::Named => TypedefModel::Named,
            CTypedefKind::Explicit(s) => TypedefModel::Explicit(s@),
            CTypedefKind::Unnamed => TypedefModel::Unnamed,
        }
    }
}

/// Model of a declarator: `[const ]<type> <name>[<array suffix>]`.
pub struct Declarator {
    pub type_: Seq<char>,
    pub name: Seq<char>,
    pub array: Option<CArraySize>,
    pub is_const: bool,
}

/// Keyword text of a storage class.
pub open spec fn storage_text(s: CStorageClass) -> Seq<char> {
    match s {
        CStorageClass::Extern => "extern"@,
        CStorageClass::Static => "static"@,
    }
}

/// The storage keyword followed by a space, or nothing when there is none.
pub open spec fn storage_prefix(s: Option<CStorageClass>) -> Seq<char> {
    match s {
        Some(c) => storage_text(c) + " "@,
        None => Seq::empty(),
    }
}

/// `[N]` for a sized array, `[]` for an unsized one, nothing for a plain binding.
pub open spec fn array_suffix(a: Option<CArraySize>) -> Seq<char> {
    match a {
        Some(CArraySize::Sized(n)) => "["@ + nat_text(n as nat) + "]"@,
        Some(CArraySize::Unsized) => "[]"@,
        None => Seq::empty(),
    }
}

/// A declarator written inline, as in an argument list: no trailing `;`.
pub open spec fn declarator_text(d: Declarator) -> Seq<char> {
    (if d.is_const {
        "const "@
    } else {
        Seq::empty()
    }) + d.type_ + " "@ + d.name + array_suffix(d.array)
}

/// A declarator written as a struct member or statement: with a trailing `;`.
pub open spec fn member_text(d: Declarator) -> Seq<char> {
    declarator_text(d) + ";"@
}

/// Each text on a line of its own, after `prefix` and followed by a newline.
pub open spec fn lines(prefix: Seq<char>, ls: Seq<Seq<char>>) -> Seq<char>
    decreases ls.len(),
{
    if ls.len() == 0 {
        Seq::empty()
    } else {
        lines(prefix, ls.drop_last()) + prefix + ls.last() + "\n"@
    }
}

/// The texts joined by `sep`.
pub open spec fn join(ls: Seq<Seq<char>>, sep: Seq<char>) -> Seq<char>
    decreases ls.len(),
{
    if ls.len() == 0 {
        Seq::empty()
    } else if ls.len() == 1 {
        ls[0]
    } else {
        join(ls.drop_last(), sep) + sep + ls.last()
    }
}

/// The opening line of a `struct` or `enum` definition (`keyword` is one of them).
pub open spec fn header_text(keyword: Seq<char>, name: Seq<char>, td: Option<TypedefModel>) -> Seq<
    char,
> {
    match td {
        None => keyword + " "@ + name + " {\n"@,
        Some(TypedefModel::Unnamed) => "typedef "@ + keyword + " {\n"@,
        Some(_) => "typedef "@ + keyword + " "@ + name + " {\n"@,
    }
}

/// The closing line of a `struct` or `enum` definition, without a newline.
pub open spec fn footer_text(name: Seq<char>, td: Option<TypedefModel>) -> Seq<char> {
    match td {
        None => "};"@,
        Some(TypedefModel::Explicit(alias)) => "} "@ + alias + ";"@,
        Some(_) => "} "@ + name + ";"@,
    }
}

/// Model of an optional typedef.
pub open spec fn typedef_model(td: Option<CTypedefKind>) -> Option<TypedefModel> {
    match td {
        Some(t) => Some(t@),
        None => None,
    }
}

/// Appends the opening line of a definition introduced by `keyword`.
pub(crate) fn push_header(
    out: &mut String,
    keyword: &str,
    name: &String,
    td: &Option<CTypedefKind>,
)
    ensures
        final(out)@ == old(out)@ + header_text(keyword@, name@, typedef_model(*td)),
{
    match td {
        None => {
            out.append(keyword);
            out.append(" ");
            out.append(name.as_str());
        },
        Some(CTypedefKind::Unnamed) => {
            out.append("typedef ");
            out.append(keyword);
        },
        Some(_) => {
            out.append("typedef ");
            out.append(keyword);
            out.append(" ");
            out.append(name.as_str());
        },
    }
    out.append(" {\n");
    assert(out@ =~= old(out)@ + header_text(keyword@, name@, typedef_model(*td)));
}

/// Appends the closing line of a definition.
pub(crate) fn push_footer(out: &mut String, name: &String, td: &Option<CTypedefKind>)
    ensures
        final(out)@ == old(out)@ + footer_text(name@, typedef_model(*td)),
{
    match td {
        None => out.append("};"),
        Some(CTypedefKind::Explicit(alias)) => {
            out.append("} ");
            out.append(alias.as_str());
            out.append(";");
        },
        Some(_) => {
            out.append("} ");
            out.append(name.as_str());
            out.append(";");
        },
    }
    assert(out@ =~= old(out)@ + footer_text(name@, typedef_model(*td)));
}

impl CStorageClass {
    /// The keyword, `extern` or `static`.
    pub fn to_string(&self) -> (r: String)
        ensures
            r@ == storage_text(*self),
    {
        match self {
            CStorageClass::Extern => String::from_str("extern"),
            CStorageClass::Static => String::from_str("static"),
        }
    }
}

/// Appends the storage keyword and a space, if there is a storage class.
pub(crate) fn push_storage(out: &mut String, s: Option<CStorageClass>)
    ensures
        final(out)@ == old(out)@ + storage_prefix(s),
{
    match s {
        Some(CStorageClass::Extern) => out.append("extern "),
        Some(CStorageClass::Static) => out.append("static "),
        None => {},
    }
    assert(out@ =~= old(out)@ + storage_prefix(s)) by {
        reveal_strlit("extern ");
        reveal_strlit("static ");
        reveal_strlit("extern");
        reveal_strlit("static");
        reveal_strlit(" ");
    }
}

/// Appends the array suffix of `a`.
pub(crate) fn push_array_suffix(out: &mut String, a: Option<CArraySize>)
    ensures
        final(out)@ == old(out)@ + array_suffix(a),
{
    match a {
        Some(CArraySize::Sized(n)) => {
            out.append("[");
            push_nat(out, n as u128);
            out.append("]");
        },
        Some(CArraySize::Unsized) => out.append("[]"),
        None => {},
    }
    assert(out@ =~= old(out)@ + array_suffix(a));
}

/// Appends a declarator in its inline form.
pub(crate) fn push_declarator(
    out: &mut String,
    is_const: bool,
    type_: &String,
    name: &String,
    array: Option<CArraySize>,
)
    ensures
        final(out)@ == old(out)@ + declarator_text(
            Declarator { type_: type_@, name: name@, array, is_const },
        ),
{
    if is_const {
        out.append("const ");
    }
    out.append(type_.as_str());
    out.append(" ");
    out.append(name.as_str());
    push_array_suffix(out, array);
    assert(out@ =~= old(out)@ + declarator_text(
        Declarator { type_: type_@, name: name@, array, is_const },
    ));
}

impl CTypedefKind {
    /// A typedef whose alias is `typename`.
    pub fn explicit(typename: &str) -> (r: Self)
        ensures
            r@ == TypedefModel::Explicit(typename@),
    {
        CTypedefKind::Explicit(String::from_str(typename))
    }
}

/// A declarator used as a struct member; renders with a trailing `;`.
pub struct CTypeDecl {
    name: String,
    type_: String,
    array: Option<CArraySize>,
    const_: bool,
}

impl View for CTypeDecl {
    type V = Declarator;

    closed spec fn view(&self) -> Declarator {
        Declarator { type_: self.type_@, name: self.name@, array: self.array, is_const: self.const_ }
    }
}

impl CTypeDecl {
    /// A plain, non-const, non-array binding of `name` to `type_`.
    pub fn new(type_: &str, name: &str) -> (r: Self)
        ensures
            r@ == (Declarator { type_: type_@, name: name@, array: None, is_const: false }),
    {
        CTypeDecl {
            name: String::from_str(name),
            type_: String::from_str(type_),
            array: None,
            const_: false,
        }
    }

    /// Marks the binding `const`.
    pub fn const_(self) -> (r: Self)
        ensures
            r@ == (Declarator { is_const: true, ..self@ }),
    {
        CTypeDecl { const_: true, ..self }
    }

    /// Makes the binding an array of `arraysize` elements; replaces any earlier array size.
    pub fn sized_array(self, arraysize: usize) -> (r: Self)
        ensures
            r@ == (Declarator { array: Some(CArraySize::Sized(arraysize)), ..self@ }),
    {
        CTypeDecl { array: Some(CArraySize::Sized(arraysize)), ..self }
    }

    /// Makes the binding an array of unstated size; replaces any earlier array size.
    pub fn unsized_array(self) -> (r: Self)
        ensures
            r@ == (Declarator { array: Some(CArraySize::Unsized), ..self@ }),
    {
        CTypeDecl { array: Some(CArraySize::Unsized), ..self }
    }

    /// Appends the member form of this declarator to `out`.
    pub fn render_into(&self, out: &mut String)
        ensures
            final(out)@ == old(out)@ + member_text(self@),
    {
        push_declarator(out, self.const_, &self.type_, &self.name, self.array);
        out.append(";");
    }

    /// The member form of this declarator, e.g. `const int c[];`.
    pub fn to_string(&self) -> (r: String)
        ensures
            r@ == member_text(self@),
    {
        let mut out = String::new();
        self.render_into(&mut out);
        out
    }
}

} // verus!
