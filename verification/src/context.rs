//! The data model of an interface description: the kinds of artifacts the
//! adapter generator can produce, the ports and structures a description
//! defines, and the parsing context they are collected into.

use vstd::prelude::*;
use crate::idl::IdlValue;

verus! {

/// The kind of artifact an interface description defines.
#[derive(Copy, Clone, Debug, PartialEq, Eq, Structural)]
pub enum RsisGenType {
    MODEL,
    TABLE,
    MESSAGE,
}

/// One generic parameter of a described structure: the type names it may
/// take and the one used by default.
#[derive(Clone, Debug)]
pub struct GenericType {
    /// All allowed type names for this parameter.
    pub options: Vec<String>,
    pub default: String,
}

/// The mathematical value of a `GenericType`.
#[verifier::ext_equal]
pub struct GenericTypeView {
    pub options: Seq<Seq<char>>,
    pub default: Seq<char>,
}

impl View for GenericType {
    type V = GenericTypeView;

    open spec fn view(&self) -> GenericTypeView {
        GenericTypeView {
            options: self.options@.map(|i: int, s: String| s@),
            default: self.default@,
        }
    }
}

/// One field of a described structure.
#[derive(Debug)]
pub struct Port {
    pub name: String,
    pub typename: String,
    pub base_type: String,
    pub dimension: Vec<i64>,
    pub default: Option<IdlValue>,
    /// The type names a generic field is instantiated with.
    pub specialized: Vec<String>,
    pub is_generic: bool,
    pub is_specialized: bool,
    pub is_struct: bool,
    pub is_ndarray: bool,
}

/// The mathematical value of a `Port`. The default value is carried as the
/// description value it was read from.
#[verifier::ext_equal]
pub struct PortView {
    pub name: Seq<char>,
    pub typename: Seq<char>,
    pub base_type: Seq<char>,
    pub dimension: Seq<i64>,
    pub has_default: bool,
    pub specialized: Seq<Seq<char>>,
    pub is_generic: bool,
    pub is_specialized: bool,
    pub is_struct: bool,
    pub is_ndarray: bool,
}

impl View for Port {
    type V = PortView;

    open spec fn view(&self) -> PortView {
        PortView {
            name: self.name@,
            typename: self.typename@,
            base_type: self.base_type@,
            dimension: self.dimension@,
            has_default: self.default is Some,
            specialized: self.specialized@.map(|i: int, s: String| s@),
            is_generic: self.is_generic,
            is_specialized: self.is_specialized,
            is_struct: self.is_struct,
            is_ndarray: self.is_ndarray,
        }
    }
}

/// One structure of an interface description. The generic parameters are a
/// name-keyed association list in declaration order, unique by name.
#[derive(Debug)]
pub struct RsisStruct {
    pub name: String,
    pub desc: String,
    pub fields: Vec<Port>,
    pub import: String,
    pub generics: Vec<(String, GenericType)>,
    pub is_generic: bool,
    pub is_imported: bool,
}

/// The mathematical value of an `RsisStruct`.
#[verifier::ext_equal]
pub struct RsisStructView {
    pub name: Seq<char>,
    pub desc: Seq<char>,
    pub fields: Seq<PortView>,
    pub import: Seq<char>,
    pub generics: Seq<(Seq<char>, GenericTypeView)>,
    pub is_generic: bool,
    pub is_imported: bool,
}

impl View for RsisStruct {
    type V = RsisStructView;

    open spec fn view(&self) -> RsisStructView {
        RsisStructView {
            name: self.name@,
            desc: self.desc@,
            fields: self.fields@.map(|i: int, p: Port| p@),
            import: self.import@,
            generics: self.generics@.map(|i: int, g: (String, GenericType)| (g.0@, g.1@)),
            is_generic: self.is_generic,
            is_imported: self.is_imported,
        }
    }
}

/// Everything collected while parsing one interface description: the
/// defined type names, their definitions, the imported predefined types,
/// the tag assignments and the imports the generated code will need. The
/// name-keyed lists stand for the original's keyed collections: unique
/// keys, lookup by first match.
#[derive(Debug)]
pub struct Context {
    /// Names of all structs defined by the description.
    pub structs: Vec<String>,
    pub structinfo: Vec<(String, RsisStruct)>,
    pub importedstructs: Vec<String>,
    pub name: String,
    pub tags: Vec<(String, String)>,
    pub has_ndarray: bool,
    pub imports: Vec<String>,
}

/// The mathematical value of a `Context`.
#[verifier::ext_equal]
pub struct ContextView {
    pub structs: Seq<Seq<char>>,
    pub structinfo: Seq<(Seq<char>, RsisStructView)>,
    pub importedstructs: Seq<Seq<char>>,
    pub name: Seq<char>,
    pub tags: Seq<(Seq<char>, Seq<char>)>,
    pub has_ndarray: bool,
    pub imports: Seq<Seq<char>>,
}

impl View for Context {
    type V = ContextView;

    open spec fn view(&self) -> ContextView {
        ContextView {
            structs: self.structs@.map(|i: int, s: String| s@),
            structinfo: self.structinfo@.map(|i: int, e: (String, RsisStruct)| (e.0@, e.1@)),
            importedstructs: self.importedstructs@.map(|i: int, s: String| s@),
            name: self.name@,
            tags: self.tags@.map(|i: int, e: (String, String)| (e.0@, e.1@)),
            has_ndarray: self.has_ndarray,
            imports: self.imports@.map(|i: int, s: String| s@),
        }
    }
}

} // verus!
