//! The predefined imported structures every interface description may use
//! without defining them: a complex number and a hash map.

use vstd::prelude::*;
use crate::context::{Context, ContextView, GenericType, GenericTypeView, Port, PortView,
    RsisStruct, RsisStructView};
use crate::idl::IdlValue;

verus! {

/// One scalar component of the predefined complex number: generic type
/// name `T`, zero default.
pub open spec fn complex_component(name: Seq<char>) -> PortView {
    PortView {
        name,
        typename: "T"@,
        base_type: Seq::empty(),
        dimension: Seq::empty(),
        has_default: true,
        specialized: Seq::empty(),
        is_generic: false,
        is_specialized: false,
        is_struct: false,
        is_ndarray: false,
    }
}

/// The predefined complex-number structure: two components over one
/// generic parameter restricted to the floating-point type names.
pub open spec fn complex_struct() -> RsisStructView {
    RsisStructView {
        name: "Complex"@,
        desc: "num_complex::Complex<T>"@,
        fields: seq![complex_component("re"@), complex_component("im"@)],
        import: "num::complex::Complex"@,
        generics: seq![
            ("T"@, GenericTypeView { options: seq!["f32"@, "f64"@], default: "f64"@ }),
        ],
        is_generic: true,
        is_imported: true,
    }
}

/// The predefined hash-map structure: no declared fields, two generic
/// parameters.
pub open spec fn hashmap_struct() -> RsisStructView {
    RsisStructView {
        name: "HashMap"@,
        desc: "std::collections::HashMap<K, V>"@,
        fields: Seq::empty(),
        import: "std::collections::HashMap"@,
        generics: seq![
            ("K"@, GenericTypeView { options: Seq::empty(), default: "f64"@ }),
            ("V"@, GenericTypeView { options: Seq::empty(), default: "f64"@ }),
        ],
        is_generic: true,
        is_imported: true,
    }
}

/// Registering the predefined structures: both names join the imported set
/// and their definitions the structure table, in this order; everything
/// else is untouched.
pub open spec fn spec_add_predefined(c: ContextView) -> ContextView {
    ContextView {
        importedstructs: c.importedstructs.push("Complex"@).push("HashMap"@),
        structinfo: c.structinfo.push(("Complex"@, complex_struct())).push(
            ("HashMap"@, hashmap_struct()),
        ),
        ..c
    }
}

/// Build the zero-defaulted generic component of the complex structure.
fn make_complex_component(name: &str) -> (p: Port)
    ensures
        p@ == complex_component(name@),
{
    let p = Port {
        name: name.to_owned(),
        typename: "T".to_owned(),
        base_type: String::new(),
        dimension: Vec::new(),
        default: Some(IdlValue::Integer(0)),
        specialized: Vec::new(),
        is_generic: false,
        is_specialized: false,
        is_struct: false,
        is_ndarray: false,
    };
    proof {
        assert(p@ =~~= complex_component(name@));
    }
    p
}

/// Register the predefined structures with a parsing context.
pub fn add_predefined_structures(ctxt: &mut Context)
    ensures
        final(ctxt)@ == spec_add_predefined(old(ctxt)@),
{
    let ghost c0 = ctxt@;
    let mut fields: Vec<Port> = Vec::new();
    fields.push(make_complex_component("re"));
    fields.push(make_complex_component("im"));
    let mut options: Vec<String> = Vec::new();
    options.push("f32".to_owned());
    options.push("f64".to_owned());
    let mut generics: Vec<(String, GenericType)> = Vec::new();
    generics.push(("T".to_owned(), GenericType { options, default: "f64".to_owned() }));
    let complex = RsisStruct {
        name: "Complex".to_owned(),
        desc: "num_complex::Complex<T>".to_owned(),
        fields,
        import: "num::complex::Complex".to_owned(),
        generics,
        is_generic: true,
        is_imported: true,
    };
    proof {
        assert(complex@ =~~= complex_struct());
    }
    ctxt.importedstructs.push("Complex".to_owned());
    ctxt.structinfo.push(("Complex".to_owned(), complex));

    let mut generics: Vec<(String, GenericType)> = Vec::new();
    generics.push(
        ("K".to_owned(), GenericType { options: Vec::new(), default: "f64".to_owned() }),
    );
    generics.push(
        ("V".to_owned(), GenericType { options: Vec::new(), default: "f64".to_owned() }),
    );
    let map_struct = RsisStruct {
        name: "HashMap".to_owned(),
        desc: "std::collections::HashMap<K, V>".to_owned(),
        fields: Vec::new(),
        import: "std::collections::HashMap".to_owned(),
        generics,
        is_generic: true,
        is_imported: true,
    };
    proof {
        assert(map_struct@ =~~= hashmap_struct());
    }
    ctxt.importedstructs.push("HashMap".to_owned());
    ctxt.structinfo.push(("HashMap".to_owned(), map_struct));
    proof {
        assert(ctxt@.importedstructs =~= c0.importedstructs.push("Complex"@).push("HashMap"@));
        assert(ctxt@.structinfo =~= c0.structinfo.push(("Complex"@, complex_struct())).push(
            ("HashMap"@, hashmap_struct()),
        ));
        assert(ctxt@ =~= spec_add_predefined(c0));
    }
}

} // verus!
