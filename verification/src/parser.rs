//! Reading an interface description: fields, structures and the whole
//! document, collected into a parsing context. The document arrives as
//! `IdlValue` trees; every rule and every error message is decided here.

use vstd::prelude::*;
use vstd::string::StringExecFns;
use crate::context::{Context, ContextView, GenericType, GenericTypeView, Port, PortView,
    RsisStruct, RsisStructView};
use crate::idl::{IdlTable, IdlValue, ValueType, assoc_lookup, get_type_format, names_contain,
    parse_dimensions, parse_generic, spec_assoc_contains, spec_assoc_lookup, spec_parse_dimensions,
    spec_parse_generic, spec_text_items, spec_type_format, spec_validate_default, text_items, validate_default};
use crate::predefined::{add_predefined_structures, complex_struct, hashmap_struct,
    spec_add_predefined};

verus! {

/// First-match lookup in a view-level association list.
pub open spec fn view_assoc_lookup<T>(t: Seq<(Seq<char>, T)>, key: Seq<char>) -> Option<T>
    decreases t.len(),
{
    if t.len() == 0 {
        None
    } else if t[0].0 == key {
        Some(t[0].1)
    } else {
        view_assoc_lookup(t.drop_first(), key)
    }
}

/// Whether a view-level association list has an entry for `key`.
pub open spec fn view_assoc_contains<T>(t: Seq<(Seq<char>, T)>, key: Seq<char>) -> bool {
    view_assoc_lookup(t, key) is Some
}

/// Looking a key up in an association list and taking views commute.
pub proof fn lemma_assoc_lookup_view<T: View>(t: Seq<(String, T)>, key: Seq<char>)
    ensures
        view_assoc_lookup(t.map(|i: int, e: (String, T)| (e.0@, e.1@)), key) == match spec_assoc_lookup(
            t,
            key,
        ) {
            Some(v) => Some(v@),
            None => None::<T::V>,
        },
    decreases t.len(),
{
    let tv = t.map(|i: int, e: (String, T)| (e.0@, e.1@));
    if t.len() > 0 {
        assert(tv[0] == (t[0].0@, t[0].1@));
        if t[0].0@ != key {
            lemma_assoc_lookup_view(t.drop_first(), key);
            assert(t.drop_first().map(|i: int, e: (String, T)| (e.0@, e.1@)) =~= tv.drop_first());
        }
    }
}

/// Inserting into a name set: a name already present changes nothing, a new
/// one is appended.
pub open spec fn spec_names_insert(t: Seq<Seq<char>>, key: Seq<char>) -> Seq<Seq<char>> {
    if t.contains(key) {
        t
    } else {
        t.push(key)
    }
}

/// Insert a name into a name set kept in insertion order.
pub fn names_insert(t: &mut Vec<String>, key: String)
    ensures
        final(t)@.map(|i: int, s: String| s@) == spec_names_insert(
            old(t)@.map(|i: int, s: String| s@),
            key@,
        ),
{
    if !names_contain(t, key.as_str()) {
        let ghost prev = t@.map(|i: int, s: String| s@);
        t.push(key);
        proof {
            assert(t@.map(|i: int, s: String| s@) =~= prev.push(key@));
        }
    }
}

/// "Field does not define [name]"
pub open spec fn msg_field_no_name() -> Seq<char> {
    "Field does not define [name]"@
}

/// "Field [name] is not a string"
pub open spec fn msg_field_name_not_string() -> Seq<char> {
    "Field [name] is not a string"@
}

/// "Field NAME does not define [type]"
pub open spec fn msg_field_no_type(name: Seq<char>) -> Seq<char> {
    "Field "@ + name + " does not define [type]"@
}

/// "Field NAME [desc] is not a string" — the message a non-string [type]
/// entry gets.
pub open spec fn msg_field_type_not_string(name: Seq<char>) -> Seq<char> {
    "Field "@ + name + " [desc] is not a string"@
}

/// "Field NAME has base type [TY], which is undefined"
pub open spec fn msg_field_undefined_type(name: Seq<char>, ty: Seq<char>) -> Seq<char> {
    "Field "@ + name + " has base type ["@ + ty + "], which is undefined"@
}

/// "Field NAME [generic] contains invalid value"
pub open spec fn msg_field_generic_invalid(name: Seq<char>) -> Seq<char> {
    "Field "@ + name + " [generic] contains invalid value"@
}

/// "Field NAME [generic] is not an array"
pub open spec fn msg_field_generic_not_array(name: Seq<char>) -> Seq<char> {
    "Field "@ + name + " [generic] is not an array"@
}

/// "Field NAME [tag] is not a string"
pub open spec fn msg_field_tag_not_string(name: Seq<char>) -> Seq<char> {
    "Field "@ + name + " [tag] is not a string"@
}

/// "Struct OWNER already tagged as [TAG] (NAME)"
pub open spec fn msg_already_tagged(owner: Seq<char>, tag: Seq<char>, name: Seq<char>) -> Seq<
    char,
> {
    "Struct "@ + owner + " already tagged as ["@ + tag + "] ("@ + name + ")"@
}

/// The port a successful field parse produces: the dimension list and the
/// specialization list as read, an empty base type, no stored default.
pub open spec fn built_port(
    name: Seq<char>,
    ty: Seq<char>,
    dims: Seq<i64>,
    specialized: Seq<Seq<char>>,
    is_generic: bool,
    is_struct: bool,
    is_ndarray: bool,
) -> PortView {
    PortView {
        name,
        typename: ty,
        base_type: Seq::empty(),
        dimension: dims,
        has_default: false,
        specialized,
        is_generic,
        is_specialized: specialized.len() != 0,
        is_struct,
        is_ndarray,
    }
}

/// What `parse_field` does once the field's name and type name are read:
/// resolve the type against the structure's generics, the defined and the
/// imported structures (recording an import when one is used), read the
/// specialization list and the dimensions, validate a non-structure default
/// against the declared type, and claim the field's tag. Mutations made
/// before a failing rule stay, as the context is threaded through.
pub open spec fn spec_parse_field_typed(
    c: ContextView,
    generics: Seq<(Seq<char>, GenericTypeView)>,
    data: Seq<(String, IdlValue)>,
    name: Seq<char>,
    ty: Seq<char>,
) -> (ContextView, Result<PortView, Seq<char>>) {
    let is_generic = view_assoc_contains(generics, ty);
    let resolved: Result<ContextView, Seq<char>> = if !is_generic && !c.structs.contains(ty) {
        if c.importedstructs.contains(ty) {
            match view_assoc_lookup(c.structinfo, ty) {
                Some(info) => Ok(
                    ContextView { imports: spec_names_insert(c.imports, info.import), ..c },
                ),
                None => Ok(c),
            }
        } else if spec_type_format(ty) == ValueType::INVALID {
            Err(msg_field_undefined_type(name, ty))
        } else {
            Ok(c)
        }
    } else {
        Ok(c)
    };
    match resolved {
        Err(e) => (c, Err(e)),
        Ok(c1) => {
            let spec_list: Result<Seq<Seq<char>>, Seq<char>> = match spec_assoc_lookup(
                data,
                "generic"@,
            ) {
                None => Ok(Seq::empty()),
                Some(gv) => match gv {
                    IdlValue::Array(vals) => match spec_text_items(vals@) {
                        Some(xs) => Ok(xs),
                        None => Err(msg_field_generic_invalid(name)),
                    },
                    _ => Err(msg_field_generic_not_array(name)),
                },
            };
            match spec_list {
                Err(e) => (c1, Err(e)),
                Ok(specialized) => {
                    let is_struct = c1.structs.contains(ty);
                    let dims_r: Result<Seq<i64>, Seq<char>> = match spec_assoc_lookup(
                        data,
                        "dims"@,
                    ) {
                        None => Ok(Seq::empty()),
                        Some(dv) => spec_parse_dimensions(name, dv),
                    };
                    match dims_r {
                        Err(e) => (c1, Err(e)),
                        Ok(dims) => {
                            let is_ndarray = dims.len() != 0;
                            let c2 = if is_ndarray {
                                ContextView { has_ndarray: true, ..c1 }
                            } else {
                                c1
                            };
                            let default_r: Result<bool, Seq<char>> = if !is_struct && !is_generic {
                                match spec_assoc_lookup(data, "default"@) {
                                    Some(d) => spec_validate_default(
                                        name,
                                        spec_type_format(ty),
                                        dims,
                                        d,
                                    ),
                                    None => Ok(true),
                                }
                            } else {
                                Ok(true)
                            };
                            match default_r {
                                Err(e) => (c2, Err(e)),
                                Ok(_) => {
                                    let port = built_port(
                                        name,
                                        ty,
                                        dims,
                                        specialized,
                                        is_generic,
                                        is_struct,
                                        is_ndarray,
                                    );
                                    match spec_assoc_lookup(data, "tag"@) {
                                        None => (c2, Ok(port)),
                                        Some(tv) => match tv {
                                            IdlValue::Text(tag0) => match view_assoc_lookup(
                                                c2.tags,
                                                tag0@,
                                            ) {
                                                Some(owner) => (
                                                    c2,
                                                    Err(msg_already_tagged(owner, tag0@, name)),
                                                ),
                                                None => (
                                                    (ContextView {
                                                        tags: c2.tags.push((tag0@, name)),
                                                        ..c2
                                                    }),
                                                    Ok(port),
                                                ),
                                            },
                                            _ => (c2, Err(msg_field_tag_not_string(name))),
                                        },
                                    }
                                },
                            }
                        },
                    }
                },
            }
        },
    }
}

/// What `parse_field` accepts and returns: a field table must name itself
/// and its type; the rest is `spec_parse_field_typed`.
pub open spec fn spec_parse_field(
    c: ContextView,
    generics: Seq<(Seq<char>, GenericTypeView)>,
    data: Seq<(String, IdlValue)>,
) -> (ContextView, Result<PortView, Seq<char>>) {
    match spec_assoc_lookup(data, "name"@) {
        None => (c, Err(msg_field_no_name())),
        Some(nv) => match nv {
            IdlValue::Text(name0) => match spec_assoc_lookup(data, "type"@) {
                None => (c, Err(msg_field_no_type(name0@))),
                Some(tv) => match tv {
                    IdlValue::Text(ty0) => spec_parse_field_typed(c, generics, data, name0@, ty0@),
                    _ => (c, Err(msg_field_type_not_string(name0@))),
                },
            },
            _ => (c, Err(msg_field_name_not_string())),
        },
    }
}

/// Read one field declaration of a structure, recording imports, array use
/// and tag claims in the context.
pub fn parse_field(ctxt: &mut Context, sd: &mut RsisStruct, data: &IdlTable) -> (r: Result<
    Port,
    String,
>)
    requires
        forall|k: Seq<char>|
            #[trigger] old(ctxt)@.importedstructs.contains(k) ==> view_assoc_contains(
                old(ctxt)@.structinfo,
                k,
            ),
    ensures
        ({
            let (c2, pr) = spec_parse_field(old(ctxt)@, old(sd)@.generics, data@);
            &&& final(ctxt)@ == c2
            &&& *final(sd) == *old(sd)
            &&& match r {
                Ok(p) => pr == Ok::<PortView, Seq<char>>(p@),
                Err(e) => pr == Err::<PortView, Seq<char>>(e@),
            }
        }),
{
    let name: String = match assoc_lookup(data, "name") {
        None => {
            return Err("Field does not define [name]".to_owned());
        },
        Some(nv) => match nv {
            IdlValue::Text(name0) => name0.clone(),
            _ => {
                return Err("Field [name] is not a string".to_owned());
            },
        },
    };
    let typename: String = match assoc_lookup(data, "type") {
        None => {
            let mut m = "Field ".to_owned();
            m.append(name.as_str());
            m.append(" does not define [type]");
            return Err(m);
        },
        Some(tv) => match tv {
            IdlValue::Text(ty0) => ty0.clone(),
            _ => {
                let mut m = "Field ".to_owned();
                m.append(name.as_str());
                m.append(" [desc] is not a string");
                return Err(m);
            },
        },
    };

    // Resolve the type name: a generic of the enclosing structure, a
    // defined structure, an imported structure (recording its import), or a
    // primitive.
    let is_generic = match assoc_lookup(&sd.generics, typename.as_str()) {
        Some(_) => true,
        None => false,
    };
    proof {
        lemma_assoc_lookup_view(sd.generics@, typename@);
        assert(sd.generics@.map(|i: int, e: (String, GenericType)| (e.0@, e.1@)) =~= old(
            sd,
        )@.generics);
    }
    if !is_generic && !names_contain(&ctxt.structs, typename.as_str()) {
        if names_contain(&ctxt.importedstructs, typename.as_str()) {
            let imp: String = match assoc_lookup(&ctxt.structinfo, typename.as_str()) {
                Some(info) => {
                    proof {
                        lemma_assoc_lookup_view(ctxt.structinfo@, typename@);
                        assert(ctxt.structinfo@.map(
                            |i: int, e: (String, RsisStruct)| (e.0@, e.1@),
                        ) =~= ctxt@.structinfo);
                    }
                    info.import.clone()
                },
                None => {
                    // Excluded by the imported-structures requirement.
                    proof {
                        lemma_assoc_lookup_view(ctxt.structinfo@, typename@);
                        assert(ctxt.structinfo@.map(
                            |i: int, e: (String, RsisStruct)| (e.0@, e.1@),
                        ) =~= ctxt@.structinfo);
                        assert(false);
                    }
                    String::new()
                },
            };
            names_insert(&mut ctxt.imports, imp);
        } else {
            if get_type_format(typename.as_str()) == ValueType::INVALID {
                let mut m = "Field ".to_owned();
                m.append(name.as_str());
                m.append(" has base type [");
                m.append(typename.as_str());
                m.append("], which is undefined");
                proof {
                    assert(m@ =~= msg_field_undefined_type(name@, typename@));
                }
                return Err(m);
            }
        }
    }

    // The explicit type names a generic field is instantiated with.
    let specialized: Vec<String> = match assoc_lookup(data, "generic") {
        None => Vec::new(),
        Some(gv) => match gv {
            IdlValue::Array(vals) => match text_items(vals) {
                Some(xs) => xs,
                None => {
                    let mut m = "Field ".to_owned();
                    m.append(name.as_str());
                    m.append(" [generic] contains invalid value");
                    return Err(m);
                },
            },
            _ => {
                let mut m = "Field ".to_owned();
                m.append(name.as_str());
                m.append(" [generic] is not an array");
                return Err(m);
            },
        },
    };
    let is_specialized = specialized.len() != 0;

    let is_struct = names_contain(&ctxt.structs, typename.as_str());

    let dims: Vec<i64> = match assoc_lookup(data, "dims") {
        None => Vec::new(),
        Some(dv) => match parse_dimensions(name.as_str(), dv) {
            Ok(v) => v,
            Err(e) => {
                return Err(e);
            },
        },
    };
    let is_ndarray = dims.len() != 0;
    if is_ndarray {
        ctxt.has_ndarray = true;
    }

    // A non-structure default value must match the declared type.
    if !is_struct && !is_generic {
        match assoc_lookup(data, "default") {
            Some(d) => {
                let vtype = get_type_format(typename.as_str());
                match validate_default(name.as_str(), vtype, dims.as_slice(), d) {
                    Ok(_) => {
                    },
                    Err(e) => {
                        return Err(e);
                    },
                }
            },
            None => {
            },
        }
    }

    // Claim the field's tag, if any; a tag belongs to at most one field.
    match assoc_lookup(data, "tag") {
        None => {
        },
        Some(tv) => match tv {
            IdlValue::Text(tag0) => {
                let tag = tag0.clone();
                match assoc_lookup(&ctxt.tags, tag.as_str()) {
                    Some(owner) => {
                        let mut m = "Struct ".to_owned();
                        m.append(owner.as_str());
                        m.append(" already tagged as [");
                        m.append(tag.as_str());
                        m.append("] (");
                        m.append(name.as_str());
                        m.append(")");
                        proof {
                            lemma_assoc_lookup_view(ctxt.tags@, tag@);
                            assert(ctxt.tags@.map(|i: int, e: (String, String)| (e.0@, e.1@)) =~= ctxt@.tags);
                            assert(m@ =~= msg_already_tagged(owner@, tag@, name@));
                        }
                        return Err(m);
                    },
                    None => {
                        proof {
                            lemma_assoc_lookup_view(ctxt.tags@, tag@);
                            assert(ctxt.tags@.map(|i: int, e: (String, String)| (e.0@, e.1@)) =~= ctxt@.tags);
                        }
                        let ghost prev = ctxt@.tags;
                        ctxt.tags.push((tag, name.clone()));
                        proof {
                            assert(ctxt@.tags =~= prev.push((tag0@, name@)));
                        }
                    },
                }
            },
            _ => {
                let mut m = "Field ".to_owned();
                m.append(name.as_str());
                m.append(" [tag] is not a string");
                return Err(m);
            },
        },
    }

    let p = Port {
        name,
        typename,
        base_type: String::new(),
        dimension: dims,
        default: None,
        specialized,
        is_generic,
        is_specialized,
        is_struct,
        is_ndarray,
    };
    proof {
        let t = spec_parse_field(old(ctxt)@, old(sd)@.generics, data@);
        assert(ctxt@.imports =~= t.0.imports);
        assert(ctxt@.tags =~= t.0.tags);
        assert(ctxt@ =~= t.0);
        match t.1 {
            Ok(pv) => {
                assert(p@.specialized =~= pv.specialized);
                assert(p@ =~= pv);
            },
            Err(_) => {
            },
        }
    }
    Ok(p)
}

/// A field parse changes only the imports, the tag claims and the array
/// flag of the context; what types are defined or imported stays as it was.
pub proof fn lemma_parse_field_preserves(
    c: ContextView,
    generics: Seq<(Seq<char>, GenericTypeView)>,
    data: Seq<(String, IdlValue)>,
)
    ensures
        ({
            let c2 = spec_parse_field(c, generics, data).0;
            &&& c2.structs == c.structs
            &&& c2.structinfo == c.structinfo
            &&& c2.importedstructs == c.importedstructs
            &&& c2.name == c.name
        }),
{
}

/// "Struct NAME defines [desc] but is not a string"
pub open spec fn msg_struct_desc_not_string(name: Seq<char>) -> Seq<char> {
    "Struct "@ + name + " defines [desc] but is not a string"@
}

/// "Struct NAME generic KEY is not a table"
pub open spec fn msg_struct_generic_not_table(name: Seq<char>, key: Seq<char>) -> Seq<char> {
    "Struct "@ + name + " generic "@ + key + " is not a table"@
}

/// "Struct NAME defines [generic] but is not a table"
pub open spec fn msg_struct_generic_decl_not_table(name: Seq<char>) -> Seq<char> {
    "Struct "@ + name + " defines [generic] but is not a table"@
}

/// "Struct NAME [fields] contains a value that is not a table"
pub open spec fn msg_struct_field_not_table(name: Seq<char>) -> Seq<char> {
    "Struct "@ + name + " [fields] contains a value that is not a table"@
}

/// "Struct NAME [fields] is not a table" — the message a non-array
/// [fields] entry gets.
pub open spec fn msg_struct_fields_not_table(name: Seq<char>) -> Seq<char> {
    "Struct "@ + name + " [fields] is not a table"@
}

/// "Struct NAME is empty. Did you mean to make a forward define?"
pub open spec fn msg_struct_empty(name: Seq<char>) -> Seq<char> {
    "Struct "@ + name + " is empty. Did you mean to make a forward define?"@
}

/// The generic-parameter declarations of a structure, each a table parsed
/// by the generic rule, in declaration order; the first failing entry
/// decides the error.
pub open spec fn spec_parse_generics(name: Seq<char>, entries: Seq<(String, IdlValue)>) -> Result<
    Seq<(Seq<char>, GenericTypeView)>,
    Seq<char>,
>
    decreases entries.len(),
{
    if entries.len() == 0 {
        Ok(Seq::empty())
    } else {
        match entries[0].1 {
            IdlValue::Table(t) => match spec_parse_generic(entries[0].0@, t@) {
                Ok(g) => match spec_parse_generics(name, entries.drop_first()) {
                    Ok(gs) => Ok(seq![(entries[0].0@, g)] + gs),
                    Err(e) => Err(e),
                },
                Err(e) => Err(e),
            },
            _ => Err(msg_struct_generic_not_table(name, entries[0].0@)),
        }
    }
}

/// The fields of a structure, each a table parsed by the field rule with
/// the context threaded through; the first failing field decides the error.
pub open spec fn spec_parse_fields(
    c: ContextView,
    generics: Seq<(Seq<char>, GenericTypeView)>,
    name: Seq<char>,
    vals: Seq<IdlValue>,
) -> (ContextView, Result<Seq<PortView>, Seq<char>>)
    decreases vals.len(),
{
    if vals.len() == 0 {
        (c, Ok(Seq::empty()))
    } else {
        match vals[0] {
            IdlValue::Table(t) => {
                let fr = spec_parse_field(c, generics, t@);
                match fr.1 {
                    Ok(p) => {
                        let rest = spec_parse_fields(fr.0, generics, name, vals.drop_first());
                        match rest.1 {
                            Ok(ps) => (rest.0, Ok(seq![p] + ps)),
                            Err(e) => (rest.0, Err(e)),
                        }
                    },
                    Err(e) => (fr.0, Err(e)),
                }
            },
            _ => (c, Err(msg_struct_field_not_table(name))),
        }
    }
}

/// What `parse_struct` accepts and returns: an optional text description,
/// optional generic-parameter declarations, and a mandatory field list,
/// each field parsed with the context threaded through.
pub open spec fn spec_parse_struct(
    c: ContextView,
    name: Seq<char>,
    data: Seq<(String, IdlValue)>,
) -> (ContextView, Result<RsisStructView, Seq<char>>) {
    let desc_r: Result<Seq<char>, Seq<char>> = match spec_assoc_lookup(data, "desc"@) {
        None => Ok(Seq::empty()),
        Some(dv) => match dv {
            IdlValue::Text(s) => Ok(s@),
            _ => Err(msg_struct_desc_not_string(name)),
        },
    };
    match desc_r {
        Err(e) => (c, Err(e)),
        Ok(desc) => {
            let gen_r: Result<(Seq<(Seq<char>, GenericTypeView)>, bool), Seq<char>> = match spec_assoc_lookup(
                data,
                "generic"@,
            ) {
                None => Ok((Seq::empty(), false)),
                Some(gv) => match gv {
                    IdlValue::Table(entries) => match spec_parse_generics(name, entries@) {
                        Ok(gs) => Ok((gs, true)),
                        Err(e) => Err(e),
                    },
                    _ => Err(msg_struct_generic_decl_not_table(name)),
                },
            };
            match gen_r {
                Err(e) => (c, Err(e)),
                Ok(gp) => match spec_assoc_lookup(data, "fields"@) {
                    None => (c, Err(msg_struct_empty(name))),
                    Some(fv) => match fv {
                        IdlValue::Array(vals) => {
                            let fr = spec_parse_fields(c, gp.0, name, vals@);
                            match fr.1 {
                                Ok(ps) => (
                                    fr.0,
                                    Ok(RsisStructView {
                                        name,
                                        desc,
                                        fields: ps,
                                        import: Seq::empty(),
                                        generics: gp.0,
                                        is_generic: gp.1,
                                        is_imported: false,
                                    }),
                                ),
                                Err(e) => (fr.0, Err(e)),
                            }
                        },
                        _ => (c, Err(msg_struct_fields_not_table(name))),
                    },
                },
            }
        },
    }
}

/// Prefix a structure error text with the structure's name.
fn struct_msg(name: &str, suffix: &str) -> (r: String)
    ensures
        r@ == "Struct "@ + name@ + suffix@,
{
    let mut s = "Struct ".to_owned();
    s.append(name);
    s.append(suffix);
    s
}
/// Read the generic-parameter table of a structure: each entry a table
/// parsed by the generic rule, in declaration order.
fn parse_generics_table(name: &str, entries: &IdlTable) -> (r: Result<
    Vec<(String, GenericType)>,
    String,
>)
    ensures
        ({
            let s = spec_parse_generics(name@, entries@);
            match r {
                Ok(gs) => s == Ok::<Seq<(Seq<char>, GenericTypeView)>, Seq<char>>(
                    gs@.map(|k: int, g: (String, GenericType)| (g.0@, g.1@)),
                ),
                Err(e) => s == Err::<Seq<(Seq<char>, GenericTypeView)>, Seq<char>>(e@),
            }
        }),
{
    let ghost whole = spec_parse_generics(name@, entries@);
    let mut generics: Vec<(String, GenericType)> = Vec::new();
    let n = entries.len();
    let mut i: usize = 0;
    proof {
        assert(entries@.skip(0) =~= entries@);
    }
    while i < n
        invariant
            i <= n,
            n == entries@.len(),
            whole == spec_parse_generics(name@, entries@),
            (match spec_parse_generics(name@, entries@.skip(i as int)) {
                Ok(gs) => whole == Ok::<Seq<(Seq<char>, GenericTypeView)>, Seq<char>>(
                    generics@.map(|k: int, g: (String, GenericType)| (g.0@, g.1@)) + gs,
                ),
                Err(e) => whole == Err::<Seq<(Seq<char>, GenericTypeView)>, Seq<char>>(e),
            }),
        decreases n - i,
    {
        let ghost pre = entries@.skip(i as int);
        proof {
            assert(pre[0] == entries@[i as int]);
            assert(pre.drop_first() =~= entries@.skip(i as int + 1));
        }
        match &entries[i].1 {
            IdlValue::Table(t) => {
                let key = entries[i].0.clone();
                match parse_generic(key, t) {
                    Ok(g) => {
                        let ghost prev = generics@.map(
                            |k: int, g: (String, GenericType)| (g.0@, g.1@),
                        );
                        let ghost gv = g@;
                        generics.push((entries[i].0.clone(), g));
                        proof {
                            let cur = generics@.map(|k: int, g: (String, GenericType)| (g.0@, g.1@));
                            assert(cur =~= prev.push((entries@[i as int].0@, gv)));
                            match spec_parse_generics(name@, entries@.skip(i as int + 1)) {
                                Ok(gs) => {
                                    assert(prev + (seq![(entries@[i as int].0@, gv)] + gs) =~= cur
                                        + gs);
                                },
                                Err(e) => {
                                },
                            }
                        }
                    },
                    Err(e) => {
                        return Err(e);
                    },
                }
            },
            _ => {
                let mut m = "Struct ".to_owned();
                m.append(name);
                m.append(" generic ");
                m.append(entries[i].0.as_str());
                m.append(" is not a table");
                proof {
                    assert(m@ =~= msg_struct_generic_not_table(name@, entries@[i as int].0@));
                }
                return Err(m);
            },
        }
        i += 1;
    }
    proof {
        assert(entries@.skip(n as int).len() == 0);
        assert(generics@.map(|k: int, g: (String, GenericType)| (g.0@, g.1@)) + Seq::<
            (Seq<char>, GenericTypeView),
        >::empty() =~= generics@.map(|k: int, g: (String, GenericType)| (g.0@, g.1@)));
    }
    Ok(generics)
}

/// Read the field list of a structure, appending each parsed field and
/// threading the context through.
fn parse_fields(ctxt: &mut Context, tbl: &mut RsisStruct, vals: &Vec<IdlValue>) -> (r: Result<
    (),
    String,
>)
    requires
        old(tbl)@.fields.len() == 0,
        forall|k: Seq<char>|
            #[trigger] old(ctxt)@.importedstructs.contains(k) ==> view_assoc_contains(
                old(ctxt)@.structinfo,
                k,
            ),
    ensures
        ({
            let fr = spec_parse_fields(old(ctxt)@, old(tbl)@.generics, old(tbl)@.name, vals@);
            &&& final(ctxt)@ == fr.0
            &&& *final(tbl) == (RsisStruct { fields: final(tbl).fields, ..*old(tbl) })
            &&& match r {
                Ok(u) => fr.1 == Ok::<Seq<PortView>, Seq<char>>(final(tbl)@.fields),
                Err(e) => fr.1 == Err::<Seq<PortView>, Seq<char>>(e@),
            }
        }),
{
    let ghost c0 = ctxt@;
    let ghost gviews = tbl@.generics;
    let ghost nm = tbl@.name;
    let ghost whole = spec_parse_fields(c0, gviews, nm, vals@);
    let n = vals.len();
    let mut i: usize = 0;
    proof {
        assert(vals@.skip(0) =~= vals@);
        match whole.1 {
            Ok(ps) => {
                assert(tbl@.fields + ps =~= ps);
            },
            Err(_) => {
            },
        }
    }
    while i < n
        invariant
            i <= n,
            n == vals@.len(),
            whole == spec_parse_fields(c0, gviews, nm, vals@),
            c0 == old(ctxt)@,
            gviews == old(tbl)@.generics,
            nm == old(tbl)@.name,
            *tbl == (RsisStruct { fields: tbl.fields, ..*old(tbl) }),
            gviews == tbl@.generics,
            nm == tbl@.name,
            ctxt@.structinfo == c0.structinfo,
            ctxt@.importedstructs == c0.importedstructs,
            forall|k: Seq<char>|
                #[trigger] ctxt@.importedstructs.contains(k) ==> view_assoc_contains(
                    ctxt@.structinfo,
                    k,
                ),
            (match spec_parse_fields(ctxt@, gviews, nm, vals@.skip(i as int)).1 {
                Ok(ps) => whole == (
                    spec_parse_fields(ctxt@, gviews, nm, vals@.skip(i as int)).0,
                    Ok::<Seq<PortView>, Seq<char>>(tbl@.fields + ps),
                ),
                Err(e) => whole == (
                    spec_parse_fields(ctxt@, gviews, nm, vals@.skip(i as int)).0,
                    Err::<Seq<PortView>, Seq<char>>(e),
                ),
            }),
        decreases n - i,
    {
        let ghost pre = vals@.skip(i as int);
        proof {
            assert(pre[0] == vals@[i as int]);
            assert(pre.drop_first() =~= vals@.skip(i as int + 1));
        }
        match &vals[i] {
            IdlValue::Table(t) => {
                proof {
                    lemma_parse_field_preserves(ctxt@, gviews, t@);
                }
                match parse_field(ctxt, tbl, t) {
                    Ok(p) => {
                        let ghost prev = tbl@.fields;
                        let ghost pv = p@;
                        tbl.fields.push(p);
                        proof {
                            assert(tbl@.fields =~= prev.push(pv));
                            match spec_parse_fields(ctxt@, gviews, nm, vals@.skip(i as int + 1)).1 {
                                Ok(ps) => {
                                    assert(prev + (seq![pv] + ps) =~= tbl@.fields + ps);
                                },
                                Err(e) => {
                                },
                            }
                        }
                    },
                    Err(e) => {
                        return Err(e);
                    },
                }
            },
            _ => {
                let mut m = "Struct ".to_owned();
                m.append(tbl.name.as_str());
                m.append(" [fields] contains a value that is not a table");
                proof {
                    assert(m@ =~= msg_struct_field_not_table(nm));
                }
                return Err(m);
            },
        }
        i += 1;
    }
    proof {
        assert(vals@.skip(n as int).len() == 0);
        assert(tbl@.fields + Seq::<PortView>::empty() =~= tbl@.fields);
    }
    Ok(())
}

/// Read one structure definition: its description, its generic parameters
/// and its fields, recording imports, array use and tag claims in the
/// context.
pub fn parse_struct(ctxt: &mut Context, name: String, data: &IdlTable) -> (r: Result<
    RsisStruct,
    String,
>)
    requires
        forall|k: Seq<char>|
            #[trigger] old(ctxt)@.importedstructs.contains(k) ==> view_assoc_contains(
                old(ctxt)@.structinfo,
                k,
            ),
    ensures
        ({
            let (c2, sr) = spec_parse_struct(old(ctxt)@, name@, data@);
            &&& final(ctxt)@ == c2
            &&& match r {
                Ok(s) => sr == Ok::<RsisStructView, Seq<char>>(s@),
                Err(e) => sr == Err::<RsisStructView, Seq<char>>(e@),
            }
        }),
{
    let desc: String = match assoc_lookup(data, "desc") {
        None => String::new(),
        Some(dv) => match dv {
            IdlValue::Text(s) => s.clone(),
            _ => {
                return Err(struct_msg(name.as_str(), " defines [desc] but is not a string"));
            },
        },
    };

    let mut generics: Vec<(String, GenericType)> = Vec::new();
    let mut is_generic = false;
    match assoc_lookup(data, "generic") {
        None => {
        },
        Some(gv) => match gv {
            IdlValue::Table(entries) => {
                match parse_generics_table(name.as_str(), entries) {
                    Ok(gs) => {
                        generics = gs;
                    },
                    Err(e) => {
                        return Err(e);
                    },
                }
                is_generic = true;
            },
            _ => {
                return Err(struct_msg(name.as_str(), " defines [generic] but is not a table"));
            },
        },
    }

    let mut tbl = RsisStruct {
        name,
        desc,
        fields: Vec::new(),
        import: String::new(),
        generics,
        is_generic,
        is_imported: false,
    };
    proof {
        assert(tbl@.generics =~= tbl.generics@.map(
            |k: int, g: (String, GenericType)| (g.0@, g.1@),
        ));
        assert(tbl@.fields =~= Seq::<PortView>::empty());
        match spec_assoc_lookup(data@, "generic"@) {
            None => {
                assert(tbl@.generics =~= Seq::<(Seq<char>, GenericTypeView)>::empty());
            },
            Some(gv) => match gv {
                IdlValue::Table(entries) => {
                    match spec_parse_generics(tbl.name@, entries@) {
                        Ok(gs) => {
                            assert(tbl@.generics == gs);
                        },
                        Err(_) => {
                            assert(false);
                        },
                    }
                },
                _ => {
                    assert(false);
                },
            },
        }
    }

    match assoc_lookup(data, "fields") {
        None => {
            let m = struct_msg(
                tbl.name.as_str(),
                " is empty. Did you mean to make a forward define?",
            );
            return Err(m);
        },
        Some(fv) => match fv {
            IdlValue::Array(vals) => {
                match parse_fields(ctxt, &mut tbl, vals) {
                    Ok(_) => {
                    },
                    Err(e) => {
                        return Err(e);
                    },
                }
            },
            _ => {
                return Err(struct_msg(tbl.name.as_str(), " [fields] is not a table"));
            },
        },
    }

    proof {
        let t = spec_parse_struct(old(ctxt)@, tbl.name@, data@);
        match t.1 {
            Ok(sv) => {
                assert(tbl@.generics =~= sv.generics);
                assert(tbl@.fields =~= sv.fields);
                assert(tbl@ =~= sv);
            },
            Err(_) => {
            },
        }
    }
    Ok(tbl)
}


/// Appending an entry to an association list leaves every lookup that
/// already succeeds unchanged; a failing one now finds the new entry if the
/// key matches.
pub proof fn lemma_view_assoc_push<T>(t: Seq<(Seq<char>, T)>, x: (Seq<char>, T), key: Seq<char>)
    ensures
        view_assoc_lookup(t.push(x), key) == (match view_assoc_lookup(t, key) {
            Some(v) => Some(v),
            None => if x.0 == key {
                Some(x.1)
            } else {
                None
            },
        }),
    decreases t.len(),
{
    if t.len() == 0 {
        assert(t.push(x)[0] == x);
        assert(t.push(x).drop_first() =~= Seq::<(Seq<char>, T)>::empty());
    } else {
        assert(t.push(x)[0] == t[0]);
        assert(t.push(x).drop_first() =~= t.drop_first().push(x));
        lemma_view_assoc_push(t.drop_first(), x, key);
    }
}

/// A field-list parse changes neither the defined nor the imported
/// structures of the context, nor its name.
pub proof fn lemma_parse_fields_preserves(
    c: ContextView,
    generics: Seq<(Seq<char>, GenericTypeView)>,
    name: Seq<char>,
    vals: Seq<IdlValue>,
)
    ensures
        ({
            let c2 = spec_parse_fields(c, generics, name, vals).0;
            &&& c2.structs == c.structs
            &&& c2.structinfo == c.structinfo
            &&& c2.importedstructs == c.importedstructs
            &&& c2.name == c.name
        }),
    decreases vals.len(),
{
    if vals.len() > 0 {
        match vals[0] {
            IdlValue::Table(t) => {
                lemma_parse_field_preserves(c, generics, t@);
                let fr = spec_parse_field(c, generics, t@);
                match fr.1 {
                    Ok(_) => {
                        lemma_parse_fields_preserves(fr.0, generics, name, vals.drop_first());
                    },
                    Err(_) => {
                    },
                }
            },
            _ => {
            },
        }
    }
}

/// A structure parse changes neither the defined nor the imported
/// structures of the context, nor its name.
pub proof fn lemma_parse_struct_preserves(
    c: ContextView,
    name: Seq<char>,
    data: Seq<(String, IdlValue)>,
)
    ensures
        ({
            let c2 = spec_parse_struct(c, name, data).0;
            &&& c2.structs == c.structs
            &&& c2.structinfo == c.structinfo
            &&& c2.importedstructs == c.importedstructs
            &&& c2.name == c.name
        }),
{
    match spec_assoc_lookup(data, "generic"@) {
        None => {
        },
        Some(gv) => match gv {
            IdlValue::Table(entries) => {
                match spec_parse_generics(name, entries@) {
                    Ok(gs) => {
                        match spec_assoc_lookup(data, "fields"@) {
                            Some(fv) => match fv {
                                IdlValue::Array(vals) => {
                                    lemma_parse_fields_preserves(c, gs, name, vals@);
                                },
                                _ => {
                                },
                            },
                            None => {
                            },
                        }
                    },
                    Err(_) => {
                    },
                }
            },
            _ => {
            },
        },
    }
    match spec_assoc_lookup(data, "fields"@) {
        Some(fv) => match fv {
            IdlValue::Array(vals) => {
                lemma_parse_fields_preserves(c, Seq::empty(), name, vals@);
            },
            _ => {
            },
        },
        None => {
        },
    }
}

/// "Exactly one of the following: [model, table, message] must be defined
/// as a top level key"
pub open spec fn msg_exactly_one_top() -> Seq<char> {
    "Exactly one of the following: [model, table, message] must be defined as a top level key"@
}

/// "Model interface contains no [types] table"
pub open spec fn msg_no_types_table() -> Seq<char> {
    "Model interface contains no [types] table"@
}

/// "Model interface does not properly define a name"
pub open spec fn msg_no_model_name() -> Seq<char> {
    "Model interface does not properly define a name"@
}

/// "Type: [KEY] already defined"
pub open spec fn msg_type_already_defined(k: Seq<char>) -> Seq<char> {
    "Type: ["@ + k + "] already defined"@
}

/// The defined type names, in document order, each at most once; a repeated
/// name decides the error.
pub open spec fn spec_collect_types(ts: Seq<(String, IdlValue)>, acc: Seq<Seq<char>>) -> Result<
    Seq<Seq<char>>,
    Seq<char>,
>
    decreases ts.len(),
{
    if ts.len() == 0 {
        Ok(acc)
    } else if acc.contains(ts[0].0@) {
        Err(msg_type_already_defined(ts[0].0@))
    } else {
        spec_collect_types(ts.drop_first(), acc.push(ts[0].0@))
    }
}

/// Parse every structure definition of the types table in document order,
/// recording each under its name; the first failing definition decides the
/// error. Every entry's value is a table here; the caller owes that.
pub open spec fn spec_parse_structs(c: ContextView, ts: Seq<(String, IdlValue)>) -> Result<
    ContextView,
    Seq<char>,
>
    decreases ts.len(),
{
    if ts.len() == 0 {
        Ok(c)
    } else {
        match ts[0].1 {
            IdlValue::Table(t) => {
                let sr = spec_parse_struct(c, ts[0].0@, t@);
                match sr.1 {
                    Ok(sv) => spec_parse_structs(
                        ContextView { structinfo: sr.0.structinfo.push((ts[0].0@, sv)), ..sr.0 },
                        ts.drop_first(),
                    ),
                    Err(e) => Err(e),
                }
            },
            _ => Err(Seq::empty()),
        }
    }
}

/// Every value of the types table, where one exists, is itself a table.
pub open spec fn types_values_are_tables(data: Seq<(String, IdlValue)>) -> bool {
    match spec_assoc_lookup(data, "types"@) {
        Some(tv) => match tv {
            IdlValue::Table(ts) => forall|i: int| 0 <= i < ts@.len() ==> ts@[i].1 is Table,
            _ => true,
        },
        None => true,
    }
}

/// A context holding only the defined type names and the model name.
pub open spec fn fresh_context(structs: Seq<Seq<char>>, name: Seq<char>) -> ContextView {
    ContextView {
        structs,
        structinfo: Seq::empty(),
        importedstructs: Seq::empty(),
        name,
        tags: Seq::empty(),
        has_ndarray: false,
        imports: Seq::empty(),
    }
}

/// What `parse_idl` accepts and returns: exactly one top-level kind, of
/// which only a model is implemented; a model must carry a types table and
/// a name; the type names are collected first (each once), the predefined
/// structures registered, and every definition parsed in document order.
pub open spec fn spec_parse_idl(data: Seq<(String, IdlValue)>) -> Result<ContextView, Seq<char>> {
    let kinds = (if spec_assoc_contains(data, "model"@) {
        1int
    } else {
        0int
    }) + (if spec_assoc_contains(data, "table"@) {
        1int
    } else {
        0int
    }) + (if spec_assoc_contains(data, "message"@) {
        1int
    } else {
        0int
    });
    if kinds != 1 {
        Err(msg_exactly_one_top())
    } else if spec_assoc_contains(data, "model"@) {
        match spec_assoc_lookup(data, "types"@) {
            None => Err(msg_no_types_table()),
            Some(tv) => match tv {
                IdlValue::Table(ts) => match spec_assoc_lookup(data, "model"@) {
                    Some(mv) => match mv {
                        IdlValue::Table(m) => match spec_assoc_lookup(m@, "name"@) {
                            None => Err(msg_no_model_name()),
                            Some(nv) => match nv {
                                IdlValue::Text(nm) => match spec_collect_types(
                                    ts@,
                                    Seq::empty(),
                                ) {
                                    Err(e) => Err(e),
                                    Ok(all) => spec_parse_structs(
                                        spec_add_predefined(fresh_context(all, nm@)),
                                        ts@,
                                    ),
                                },
                                _ => Err(msg_no_model_name()),
                            },
                        },
                        _ => Err(Seq::empty()),
                    },
                    None => Err(Seq::empty()),
                },
                _ => Err(msg_no_types_table()),
            },
        }
    } else if spec_assoc_contains(data, "table"@) {
        Err("table is not implemented"@)
    } else {
        Err("message is not implemented"@)
    }
}

/// Read a whole interface description document. The caller owes two shape
/// obligations the original resolves by failing hard: a `model` entry, when
/// present, is a table, and every entry of the types table is a table.
pub fn parse_idl(data: &IdlTable) -> (r: Result<Context, String>)
    requires
        (spec_assoc_lookup(data@, "model"@) matches Some(v) ==> v is Table),
        types_values_are_tables(data@),
    ensures
        ({
            let s = spec_parse_idl(data@);
            match r {
                Ok(c) => s == Ok::<ContextView, Seq<char>>(c@),
                Err(e) => s == Err::<ContextView, Seq<char>>(e@),
            }
        }),
{
    let has_model = match assoc_lookup(data, "model") {
        Some(_) => true,
        None => false,
    };
    let has_table = match assoc_lookup(data, "table") {
        Some(_) => true,
        None => false,
    };
    let has_message = match assoc_lookup(data, "message") {
        Some(_) => true,
        None => false,
    };
    let mut kinds: i32 = 0;
    if has_model {
        kinds = kinds + 1;
    }
    if has_table {
        kinds = kinds + 1;
    }
    if has_message {
        kinds = kinds + 1;
    }
    if kinds != 1 {
        return Err(
            "Exactly one of the following: [model, table, message] must be defined as a top level key".to_owned(),
        );
    }
    if !has_model {
        if has_table {
            return Err("table is not implemented".to_owned());
        }
        return Err("message is not implemented".to_owned());
    }

    let ts: &IdlTable = match assoc_lookup(data, "types") {
        Some(tv) => match tv {
            IdlValue::Table(ts) => ts,
            _ => {
                return Err("Model interface contains no [types] table".to_owned());
            },
        },
        None => {
            return Err("Model interface contains no [types] table".to_owned());
        },
    };
    let name: String = match assoc_lookup(data, "model") {
        Some(mv) => match mv {
            IdlValue::Table(m) => match assoc_lookup(m, "name") {
                Some(nv) => match nv {
                    IdlValue::Text(nm) => nm.clone(),
                    _ => {
                        return Err("Model interface does not properly define a name".to_owned());
                    },
                },
                None => {
                    return Err("Model interface does not properly define a name".to_owned());
                },
            },
            _ => {
                proof {
                    assert(false);
                }
                return Err(String::new());
            },
        },
        None => {
            proof {
                assert(false);
            }
            return Err(String::new());
        },
    };

    // Collect the defined type names, each at most once.
    let ghost whole_types = spec_collect_types(ts@, Seq::empty());
    let mut all_types: Vec<String> = Vec::new();
    let n = ts.len();
    let mut i: usize = 0;
    proof {
        assert(ts@.skip(0) =~= ts@);
        assert(all_types@.map(|k: int, s: String| s@) =~= Seq::<Seq<char>>::empty());
    }
    while i < n
        invariant
            i <= n,
            n == ts@.len(),
            whole_types == spec_collect_types(ts@, Seq::empty()),
            spec_collect_types(ts@.skip(i as int), all_types@.map(|k: int, s: String| s@))
                == whole_types,
            (match whole_types {
                Err(e) => spec_parse_idl(data@) == Err::<ContextView, Seq<char>>(e),
                Ok(all) => spec_parse_idl(data@) == spec_parse_structs(
                    spec_add_predefined(fresh_context(all, name@)),
                    ts@,
                ),
            }),
        decreases n - i,
    {
        let ghost pre = ts@.skip(i as int);
        proof {
            assert(pre[0] == ts@[i as int]);
            assert(pre.drop_first() =~= ts@.skip(i as int + 1));
        }
        if names_contain(&all_types, ts[i].0.as_str()) {
            let mut m = "Type: [".to_owned();
            m.append(ts[i].0.as_str());
            m.append("] already defined");
            proof {
                assert(m@ =~= msg_type_already_defined(ts@[i as int].0@));
            }
            return Err(m);
        }
        let ghost prev = all_types@.map(|k: int, s: String| s@);
        all_types.push(ts[i].0.clone());
        proof {
            assert(all_types@.map(|k: int, s: String| s@) =~= prev.push(ts@[i as int].0@));
        }
        i += 1;
    }
    proof {
        assert(ts@.skip(n as int).len() == 0);
    }

    let mut ctxt = Context {
        structs: all_types,
        structinfo: Vec::new(),
        importedstructs: Vec::new(),
        name,
        tags: Vec::new(),
        has_ndarray: false,
        imports: Vec::new(),
    };
    add_predefined_structures(&mut ctxt);
    let ghost c1 = ctxt@;
    proof {
        reveal_strlit("Complex");
        reveal_strlit("HashMap");
        assert forall|k: Seq<char>| #[trigger]
            ctxt@.importedstructs.contains(k) implies view_assoc_contains(
            ctxt@.structinfo,
            k,
        ) by {
            let idx = choose|idx: int|
                0 <= idx < ctxt@.importedstructs.len() && ctxt@.importedstructs[idx] == k;
            lemma_view_assoc_push(
                Seq::<(Seq<char>, RsisStructView)>::empty().push(("Complex"@, complex_struct())),
                ("HashMap"@, hashmap_struct()),
                k,
            );
            lemma_view_assoc_push(
                Seq::<(Seq<char>, RsisStructView)>::empty(),
                ("Complex"@, complex_struct()),
                k,
            );
            assert(ctxt@.structinfo =~= Seq::<(Seq<char>, RsisStructView)>::empty().push(
                ("Complex"@, complex_struct()),
            ).push(("HashMap"@, hashmap_struct())));
        }
    }

    // Parse every structure definition, in document order.
    let ghost whole_structs = spec_parse_structs(c1, ts@);
    proof {
        assert(c1 == spec_add_predefined(
            fresh_context(ctxt.structs@.map(|k: int, s: String| s@), ctxt.name@),
        ));
        assert(spec_parse_idl(data@) == whole_structs);
    }
    let mut i: usize = 0;
    proof {
        assert(ts@.skip(0) =~= ts@);
    }
    while i < n
        invariant
            i <= n,
            n == ts@.len(),
            whole_structs == spec_parse_structs(c1, ts@),
            spec_parse_idl(data@) == whole_structs,
            forall|j: int| 0 <= j < ts@.len() ==> (#[trigger] ts@[j]).1 is Table,
            spec_parse_structs(ctxt@, ts@.skip(i as int)) == whole_structs,
            forall|k: Seq<char>| #[trigger]
                ctxt@.importedstructs.contains(k) ==> view_assoc_contains(ctxt@.structinfo, k),
        decreases n - i,
    {
        let ghost pre = ts@.skip(i as int);
        proof {
            assert(pre[0] == ts@[i as int]);
            assert(pre.drop_first() =~= ts@.skip(i as int + 1));
        }
        match &ts[i].1 {
            IdlValue::Table(t) => {
                proof {
                    lemma_parse_struct_preserves(ctxt@, ts@[i as int].0@, t@);
                }
                let ghost cpre = ctxt@;
                match parse_struct(&mut ctxt, ts[i].0.clone(), t) {
                    Ok(st) => {
                        let ghost sv = st@;
                        let ghost before_push = ctxt@;
                        ctxt.structinfo.push((ts[i].0.clone(), st));
                        proof {
                            assert(ctxt@.structinfo =~= before_push.structinfo.push(
                                (ts@[i as int].0@, sv),
                            ));
                            assert(ctxt@ =~= (ContextView {
                                structinfo: before_push.structinfo.push((ts@[i as int].0@, sv)),
                                ..before_push
                            }));
                            assert forall|k: Seq<char>| #[trigger]
                                ctxt@.importedstructs.contains(k) implies view_assoc_contains(
                                ctxt@.structinfo,
                                k,
                            ) by {
                                lemma_view_assoc_push(
                                    before_push.structinfo,
                                    (ts@[i as int].0@, sv),
                                    k,
                                );
                            }
                        }
                    },
                    Err(e) => {
                        return Err(e);
                    },
                }
            },
            _ => {
                proof {
                    assert(false);
                }
                return Err(String::new());
            },
        }
        i += 1;
    }
    proof {
        assert(ts@.skip(n as int).len() == 0);
    }
    Ok(ctxt)
}

} // verus!
