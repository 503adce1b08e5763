//! Enum definitions.
use vstd::prelude::*;
use crate::c_types::{
    CTypedefKind, TypedefModel, footer_text, header_text, lines, push_footer, push_header,
    typedef_model,
};
use crate::text::{int_text, push_int};

verus! {

/// Model of an enum definition: its members are names with an optional explicit value.
pub struct EnumModel {
    pub name: Seq<char>,
    pub typedef: Option<TypedefModel>,
    pub members: Seq<(Seq<char>, Option<int>)>,
}

/// `<name>,` or `<name> = <value>,`.
pub open spec fn enum_member_text(m: (Seq<char>, Option<int>)) -> Seq<char> {
    match m.1 {
        Some(v) => m.0 + " = "@ + int_text(v) + ","@,
        None => m.0 + ","@,
    }
}

/// The member texts, in order.
pub open spec fn enum_member_texts(members: Seq<(Seq<char>, Option<int>)>) -> Seq<Seq<char>> {
    members.map_values(|m: (Seq<char>, Option<int>)| enum_member_text(m))
}

/// Header line, one indented line per member, footer.
pub open spec fn enum_text(e: EnumModel) -> Seq<char> {
    header_text("enum"@, e.name, e.typedef) + lines("    "@, enum_member_texts(e.members))
        + footer_text(e.name, e.typedef)
}

/// Model of one member as stored.
pub open spec fn enum_member_model(m: (String, Option<i128>)) -> (Seq<char>, Option<int>) {
    (
        m.0@,
        match m.1 {
            Some(v) => Some(v as int),
            None => None,
        },
    )
}

/// An enum definition, built member by member.
///
/// Explicit values are taken as given: nothing checks that they are ordered,
/// distinct, or fit the enum's underlying integer type.
pub struct CEnum {
    name: String,
    typedef: Option<CTypedefKind>,
    members: Vec<(String, Option<i128>)>,
}

impl View for CEnum {
    type V = EnumModel;

    closed spec fn view(&self) -> EnumModel {
        EnumModel {
            name: self.name@,
            typedef: typedef_model(self.typedef),
            members: self.members@.map_values(|m: (String, Option<i128>)| enum_member_model(m)),
        }
    }
}

impl CEnum {
    /// A plain `enum name` with no members.
    pub fn new(name: &str) -> (r: Self)
        ensures
            r@ == (EnumModel { name: name@, typedef: None, members: Seq::empty() }),
    {
        let r = CEnum { name: String::from_str(name), typedef: None, members: Vec::new() };
        assert(r@.members =~= Seq::empty());
        r
    }

    /// Wraps the definition in a typedef of the given kind, replacing any earlier one.
    pub fn as_typedef(self, typedef: CTypedefKind) -> (r: Self)
        ensures
            r@ == (EnumModel { typedef: Some(typedef@), ..self@ }),
    {
        CEnum { typedef: Some(typedef), ..self }
    }

    /// Appends a member `name`, with the explicit value `def` if one is given.
    pub fn member(self, name: &str, def: Option<i128>) -> (r: Self)
        ensures
            r@ == (EnumModel {
                members: self@.members.push(
                    (
                        name@,
                        match def {
                            Some(v) => Some(v as int),
                            None => None,
                        },
                    ),
                ),
                ..self@
            }),
    {
        let mut s = self;
        let m = (String::from_str(name), def);
        s.members.push(m);
        assert(s@.members =~= self@.members.push(enum_member_model(m)));
        s
    }
    /// Appends the definition to `out`.
    pub fn render_into(&self, out: &mut String)
        ensures
            final(out)@ == old(out)@ + enum_text(self@),
    {
        push_header(out, "enum", &self.name, &self.typedef);
        let ghost before_body = out@;
        let ghost texts = enum_member_texts(self@.members);
        let mut i: usize = 0;
        while i < self.members.len()
            invariant
                i <= self.members.len(),
                texts == enum_member_texts(self@.members),
                texts.len() == self.members.len(),
                out@ == before_body + lines("    "@, texts.take(i as int)),
            decreases self.members.len() - i,
        {
            let ghost line_start = out@;
            let (name, def) = &self.members[i];
            out.append("    ");
            out.append(name.as_str());
            match def {
                Some(v) => {
                    out.append(" = ");
                    push_int(out, *v);
                },
                None => {},
            }
            out.append(",\n");
            proof {
                let t = texts.take(i as int + 1);
                assert(t.drop_last() =~= texts.take(i as int));
                assert(self@.members[i as int] == enum_member_model(self.members@[i as int]));
                reveal_strlit(",\n");
                reveal_strlit(",");
                reveal_strlit("\n");
                assert(out@ =~= line_start + "    "@ + t.last() + "\n"@);
            }
            i = i + 1;
        }
        push_footer(out, &self.name, &self.typedef);
        assert(texts.take(self.members.len() as int) =~= texts);
        assert(out@ =~= old(out)@ + enum_text(self@));
    }

    /// The definition as text.
    pub fn to_string(&self) -> (r: String)
        ensures
            r@ == enum_text(self@),
    {
        let mut out = String::new();
        self.render_into(&mut out);
        out
    }
}

} // verus!
