//! Struct definitions.
use vstd::prelude::*;
use crate::c_types::{
    CTypeDecl, CTypedefKind, Declarator, TypedefModel, footer_text, header_text, lines,
    member_text, push_footer, push_header, typedef_model,
};

verus! {

/// Model of a struct definition.
pub struct StructModel {
    pub name: Seq<char>,
    pub typedef: Option<TypedefModel>,
    pub members: Seq<Declarator>,
}

/// The member texts (each with its `;`), in order.
pub open spec fn member_texts(members: Seq<Declarator>) -> Seq<Seq<char>> {
    members.map_values(|d: Declarator| member_text(d))
}

/// Header line, one indented line per member, footer.
pub open spec fn struct_text(s: StructModel) -> Seq<char> {
    header_text("struct"@, s.name, s.typedef) + lines("    "@, member_texts(s.members))
        + footer_text(s.name, s.typedef)
}

/// A struct definition, built member by member.
pub struct CStruct {
    name: String,
    typedef: Option<CTypedefKind>,
    members: Vec<CTypeDecl>,
}

impl View for CStruct {
    type V = StructModel;

    closed spec fn view(&self) -> StructModel {
        StructModel {
            name: self.name@,
            typedef: typedef_model(self.typedef),
            members: self.members@.map_values(|m: CTypeDecl| m@),
        }
    }
}

impl CStruct {
    /// A plain `struct name` with no members.
    pub fn new(name: &str) -> (r: Self)
        ensures
            r@ == (StructModel { name: name@, typedef: None, members: Seq::empty() }),
    {
        let r = CStruct { name: String::from_str(name), typedef: None, members: Vec::new() };
        assert(r@.members =~= Seq::empty());
        r
    }

    /// Wraps the definition in a typedef of the given kind, replacing any earlier one.
    pub fn as_typedef(self, typedef: CTypedefKind) -> (r: Self)
        ensures
            r@ == (StructModel { typedef: Some(typedef@), ..self@ }),
    {
        CStruct { typedef: Some(typedef), ..self }
    }

    /// Appends a plain member `type_ name` after those already given.
    pub fn member(self, type_: &str, name: &str) -> (r: Self)
        ensures
            r@ == (StructModel {
                members: self@.members.push(
                    Declarator { type_: type_@, name: name@, array: None, is_const: false },
                ),
                ..self@
            }),
    {
        let mut s = self;
        let m = CTypeDecl::new(type_, name);
        s.members.push(m);
        assert(s@.members =~= self@.members.push(m@));
        s
    }

    /// Appends `member` after the members already given.
    pub fn add_member(&mut self, member: CTypeDecl)
        ensures
            final(self)@ == (StructModel { members: old(self)@.members.push(member@), ..old(self)@ }),
    {
        self.members.push(member);
        assert(self@.members =~= old(self)@.members.push(member@));
    }

    /// Appends the definition to `out`.
    pub fn render_into(&self, out: &mut String)
        ensures
            final(out)@ == old(out)@ + struct_text(self@),
    {
        push_header(out, "struct", &self.name, &self.typedef);
        let ghost before_body = out@;
        let ghost texts = member_texts(self@.members);
        let mut i: usize = 0;
        while i < self.members.len()
            invariant
                i <= self.members.len(),
                texts == member_texts(self@.members),
                texts.len() == self.members.len(),
                out@ == before_body + lines("    "@, texts.take(i as int)),
            decreases self.members.len() - i,
        {
            out.append("    ");
            self.members[i].render_into(out);
            out.append("\n");
            proof {
                let t = texts.take(i as int + 1);
                assert(t.drop_last() =~= texts.take(i as int));
                assert(self@.members[i as int] == self.members@[i as int]@);
                assert(t.last() == member_text(self.members@[i as int]@));
            }
            i = i + 1;
        }
        push_footer(out, &self.name, &self.typedef);
        assert(texts.take(self.members.len() as int) =~= texts);
        assert(out@ =~= old(out)@ + struct_text(self@));
    }

    /// The definition as text.
    pub fn to_string(&self) -> (r: String)
        ensures
            r@ == struct_text(self@),
    {
        let mut out = String::new();
        self.render_into(&mut out);
        out
    }
}

} // verus!
