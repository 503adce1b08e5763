//! Builders for C declarations (structs, enums, functions, variables) and for
//! whole translation units, each with an exact rendering to C source text.
//!
//! Every entity has a model (its view) and a spec function that gives its text
//! from that model; each `to_string` and `render_into` is proved to produce
//! exactly that text. Input text (types, names, initializers, body lines) is
//! taken as given and not checked to be valid C.
pub mod c_enum;
pub mod c_fn;
pub mod c_struct;
pub mod c_types;
pub mod c_var;
pub mod laws;
pub mod scope;
pub mod text;

pub use c_enum::CEnum;
pub use c_fn::{CFnDecl, CFnImpl};
pub use c_struct::CStruct;
pub use c_types::{CArraySize, CStorageClass, CTypeDecl, CTypedefKind};
pub use c_var::{CVar, CVarDecl};
pub use scope::{CIncludeGuards, CScope, CSnippet};
