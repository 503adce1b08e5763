//! Variable declarators and full variable definitions.
use vstd::prelude::*;
use crate::c_types::{
    CArraySize, CStorageClass, Declarator, declarator_text, push_declarator, push_storage,
    storage_prefix,
};

verus! {

/// A declarator such as `const uint32_t mytype`, used in function arguments and
/// variable definitions; renders without a trailing `;`.
///
/// Use [`CVar`] to give it a storage class and/or an initializer.
#[derive(Debug, Clone, PartialEq, Eq, Hash)]
pub struct CVarDecl {
    name: String,
    type_: String,
    array: Option<CArraySize>,
    const_: bool,
}

impl View for CVarDecl {
    type V = Declarator;

    closed spec fn view(&self) -> Declarator {
        Declarator { type_: self.type_@, name: self.name@, array: self.array, is_const: self.const_ }
    }
}

impl CVarDecl {
    /// A plain, non-const, non-array binding of `name` to `type_`.
    pub fn new(type_: &str, name: &str) -> (r: Self)
        ensures
            r@ == (Declarator { type_: type_@, name: name@, array: None, is_const: false }),
    {
        CVarDecl {
            name: String::from_str(name),
            type_: String::from_str(type_),
            array: None,
            const_: false,
        }
    }

    /// Marks the binding `const`.
    pub fn const_(self) -> (r: Self)
        ensures
            r@ == (Declarator { is_const: true, ..self@ }),
    {
        CVarDecl { const_: true, ..self }
    }

    /// Makes the binding an array of `arraysize` elements; replaces any earlier array size.
    pub fn sized_array(self, arraysize: usize) -> (r: Self)
        ensures
            r@ == (Declarator { array: Some(CArraySize::Sized(arraysize)), ..self@ }),
    {
        CVarDecl { array: Some(CArraySize::Sized(arraysize)), ..self }
    }

    /// Makes the binding an array of unstated size; replaces any earlier array size.
    pub fn unsized_array(self) -> (r: Self)
        ensures
            r@ == (Declarator { array: Some(CArraySize::Unsized), ..self@ }),
    {
        CVarDecl { array: Some(CArraySize::Unsized), ..self }
    }

    /// Appends the inline form of this declarator to `out`.
    pub fn render_into(&self, out: &mut String)
        ensures
            final(out)@ == old(out)@ + declarator_text(self@),
    {
        push_declarator(out, self.const_, &self.type_, &self.name, self.array);
    }

    /// The inline form of this declarator, e.g. `const uint8_t buf[]`.
    pub fn to_string(&self) -> (r: String)
        ensures
            r@ == declarator_text(self@),
    {
        let mut out = String::new();
        self.render_into(&mut out);
        out
    }
}

/// The declarator with type `value.0` and name `value.1`.
impl<'a, 'b> From<(&'a str, &'b str)> for CVarDecl {
    fn from(value: (&'a str, &'b str)) -> (r: Self) {
        CVarDecl::new(value.0, value.1)
    }
}

impl<'a, 'b> vstd::std_specs::convert::FromSpecImpl<(&'a str, &'b str)> for CVarDecl {
    /// Text cannot be built at the spec level, so no result is promised here;
    /// [`CVarDecl::new`] states what this returns.
    open spec fn obeys_from_spec() -> bool {
        false
    }

    open spec fn from_spec(value: (&'a str, &'b str)) -> Self {
        arbitrary()
    }
}

/// Model of a variable definition.
pub struct VarModel {
    pub decl: Declarator,
    pub storage: Option<CStorageClass>,
    pub init: Option<Seq<char>>,
}

/// `[<storage> ]<declarator>[ = <init>]`, without a trailing `;`.
pub open spec fn var_text(v: VarModel) -> Seq<char> {
    storage_prefix(v.storage) + declarator_text(v.decl) + match v.init {
        Some(i) => " = "@ + i,
        None => Seq::empty(),
    }
}

/// A variable definition: a declarator with an optional storage class and initializer.
pub struct CVar {
    decl: CVarDecl,
    storage: Option<CStorageClass>,
    init: Option<String>,
}

impl View for CVar {
    type V = VarModel;

    closed spec fn view(&self) -> VarModel {
        VarModel {
            decl: self.decl@,
            storage: self.storage,
            init: match self.init {
                Some(i) => Some(i@),
                None => None,
            },
        }
    }
}

impl CVar {
    /// A definition of `decl` with no storage class and no initializer.
    pub fn new(decl: CVarDecl) -> (r: Self)
        ensures
            r@ == (VarModel { decl: decl@, storage: None, init: None }),
    {
        CVar { decl, storage: None, init: None }
    }

    /// Sets the storage class to `extern`, replacing any earlier one.
    pub fn extern_(self) -> (r: Self)
        ensures
            r@ == (VarModel { storage: Some(CStorageClass::Extern), ..self@ }),
    {
        CVar { storage: Some(CStorageClass::Extern), ..self }
    }

    /// Sets the storage class to `static`, replacing any earlier one.
    pub fn static_(self) -> (r: Self)
        ensures
            r@ == (VarModel { storage: Some(CStorageClass::Static), ..self@ }),
    {
        CVar { storage: Some(CStorageClass::Static), ..self }
    }

    /// Sets the initializer expression, replacing any earlier one.
    pub fn init(self, init: &str) -> (r: Self)
        ensures
            r@ == (VarModel { init: Some(init@), ..self@ }),
    {
        CVar { init: Some(String::from_str(init)), ..self }
    }

    /// Appends the definition, without a trailing `;`, to `out`.
    pub fn render_into(&self, out: &mut String)
        ensures
            final(out)@ == old(out)@ + var_text(self@),
    {
        push_storage(out, self.storage);
        self.decl.render_into(out);
        match &self.init {
            Some(i) => {
                out.append(" = ");
                out.append(i.as_str());
            },
            None => {},
        }
        assert(out@ =~= old(out)@ + var_text(self@));
    }

    /// The definition, e.g. `static const uint8_t foo[2] = {0, 0}`.
    pub fn to_string(&self) -> (r: String)
        ensures
            r@ == var_text(self@),
    {
        let mut out = String::new();
        self.render_into(&mut out);
        out
    }
}

/// The same as [`CVar::new`].
impl From<CVarDecl> for CVar {
    fn from(value: CVarDecl) -> (r: Self) {
        CVar { decl: value, storage: None, init: None }
    }
}

impl vstd::std_specs::convert::FromSpecImpl<CVarDecl> for CVar {
    open spec fn obeys_from_spec() -> bool {
        true
    }

    closed spec fn from_spec(value: CVarDecl) -> Self {
        CVar { decl: value, storage: None, init: None }
    }
}

/// What [`CVar::from`] returns: the given declarator, with no storage class and
/// no initializer.
pub proof fn lemma_var_from(value: CVarDecl)
    ensures
        <CVar as vstd::std_specs::convert::FromSpec<CVarDecl>>::from_spec(value)@ == (VarModel {
            decl: value@,
            storage: None,
            init: None,
        }),
{
}

} // verus!
