//! Validation of interface-description values. A description document is
//! read outside the library and handed in as `IdlValue` trees; the rules on
//! field types, dimensions and default values are decided here.

use vstd::prelude::*;
use vstd::slice::slice_subrange;
use vstd::string::StringExecFns;
use crate::context::GenericType;
use crate::context::GenericTypeView;
use crate::generation::{dec_int, u64_to_string};

verus! {

/// A table of an interface description: a name-keyed association list in
/// document order, unique by name, looked up by first match.
pub type IdlTable = Vec<(String, IdlValue)>;

/// One value of an interface description document: the scalar kinds, arrays
/// and tables the validator inspects. A floating-point or date-time payload
/// is never read by any validation rule, so only its presence is recorded.
#[derive(Debug)]
pub enum IdlValue {
    Boolean(bool),
    Integer(i64),
    Float,
    Text(String),
    Datetime,
    Array(Vec<IdlValue>),
    Table(Vec<(String, IdlValue)>),
}

/// The value category a primitive interface type name denotes.
#[derive(Copy, Clone, Debug, PartialEq, Eq, Structural)]
pub enum ValueType {
    BOOLEAN,
    UnsignedInteger,
    SignedInteger,
    FLOATING,
    STRING,
    INVALID,
}

/// The category of a primitive interface type name; unknown names are
/// `INVALID`.
pub open spec fn spec_type_format(t: Seq<char>) -> ValueType {
    if t == "i8"@ || t == "i16"@ || t == "i32"@ || t == "i64"@ {
        ValueType::SignedInteger
    } else if t == "u8"@ || t == "u16"@ || t == "u32"@ || t == "u64"@ {
        ValueType::UnsignedInteger
    } else if t == "f32"@ || t == "f64"@ {
        ValueType::FLOATING
    } else if t == "String"@ {
        ValueType::STRING
    } else if t == "bool"@ {
        ValueType::BOOLEAN
    } else {
        ValueType::INVALID
    }
}

/// Classify a primitive interface type name.
pub fn get_type_format(name: &str) -> (r: ValueType)
    ensures
        r == spec_type_format(name@),
{
    if crate::generation::str_eq(name, "i8") || crate::generation::str_eq(name, "i16")
        || crate::generation::str_eq(name, "i32") || crate::generation::str_eq(name, "i64") {
        ValueType::SignedInteger
    } else if crate::generation::str_eq(name, "u8") || crate::generation::str_eq(name, "u16")
        || crate::generation::str_eq(name, "u32") || crate::generation::str_eq(name, "u64") {
        ValueType::UnsignedInteger
    } else if crate::generation::str_eq(name, "f32") || crate::generation::str_eq(name, "f64") {
        ValueType::FLOATING
    } else if crate::generation::str_eq(name, "String") {
        ValueType::STRING
    } else if crate::generation::str_eq(name, "bool") {
        ValueType::BOOLEAN
    } else {
        ValueType::INVALID
    }
}

/// Whether a scalar default value matches the declared category. An
/// unsigned category additionally demands a non-negative integer; the
/// `INVALID` category matches nothing.
pub open spec fn spec_validate_value(vtype: ValueType, val: IdlValue) -> bool {
    match vtype {
        ValueType::BOOLEAN => val is Boolean,
        ValueType::SignedInteger => val is Integer,
        ValueType::UnsignedInteger => val matches IdlValue::Integer(v) && v >= 0,
        ValueType::FLOATING => val is Float,
        ValueType::STRING => val is Text,
        ValueType::INVALID => false,
    }
}

/// Check a scalar default value against the declared category.
pub fn validate_value(vtype: &ValueType, val: &IdlValue) -> (r: bool)
    ensures
        r == spec_validate_value(*vtype, *val),
{
    match vtype {
        ValueType::BOOLEAN => matches!(val, IdlValue::Boolean(_)),
        ValueType::SignedInteger => matches!(val, IdlValue::Integer(_)),
        ValueType::UnsignedInteger => match val {
            IdlValue::Integer(v) => *v >= 0,
            _ => false,
        },
        ValueType::FLOATING => matches!(val, IdlValue::Float),
        ValueType::STRING => matches!(val, IdlValue::Text(_)),
        ValueType::INVALID => false,
    }
}

/// First-match lookup in a name-keyed association list.
pub open spec fn spec_assoc_lookup<T>(t: Seq<(String, T)>, key: Seq<char>) -> Option<T>
    decreases t.len(),
{
    if t.len() == 0 {
        None
    } else if t[0].0@ == key {
        Some(t[0].1)
    } else {
        spec_assoc_lookup(t.drop_first(), key)
    }
}

/// Whether a name-keyed association list has an entry for `key`.
pub open spec fn spec_assoc_contains<T>(t: Seq<(String, T)>, key: Seq<char>) -> bool {
    spec_assoc_lookup(t, key) is Some
}

/// Look a key up in a name-keyed association list.
pub fn assoc_lookup<'a, T>(t: &'a Vec<(String, T)>, key: &str) -> (r: Option<&'a T>)
    ensures
        match r {
            Some(v) => spec_assoc_lookup(t@, key@) == Some(*v),
            None => spec_assoc_lookup(t@, key@) is None,
        },
{
    let n = t.len();
    let mut i: usize = 0;
    proof {
        assert(t@.skip(0) =~= t@);
    }
    while i < n
        invariant
            i <= n,
            n == t@.len(),
            spec_assoc_lookup(t@.skip(i as int), key@) == spec_assoc_lookup(t@, key@),
        decreases n - i,
    {
        let ghost pre = t@.skip(i as int);
        if crate::generation::str_eq(t[i].0.as_str(), key) {
            proof {
                assert(pre[0] == t@[i as int]);
            }
            return Some(&t[i].1);
        }
        proof {
            assert(pre[0] == t@[i as int]);
            assert(pre.drop_first() =~= t@.skip(i as int + 1));
        }
        i += 1;
    }
    proof {
        assert(t@.skip(n as int).len() == 0);
    }
    None
}

/// Whether a list of names holds `key`.
pub fn names_contain(t: &Vec<String>, key: &str) -> (r: bool)
    ensures
        r == t@.map(|i: int, s: String| s@).contains(key@),
{
    let ghost names = t@.map(|i: int, s: String| s@);
    let n = t.len();
    let mut i: usize = 0;
    while i < n
        invariant
            i <= n,
            n == t@.len(),
            names == t@.map(|i: int, s: String| s@),
            forall|j: int| 0 <= j < i ==> names[j] != key@,
        decreases n - i,
    {
        if crate::generation::str_eq(t[i].as_str(), key) {
            proof {
                assert(names[i as int] == key@);
            }
            return true;
        }
        i += 1;
    }
    proof {
        if names.contains(key@) {
            let j = choose|j: int| 0 <= j < names.len() && names[j] == key@;
            assert(false);
        }
    }
    false
}

/// The texts of a list of values, if every one of them is a text.
pub open spec fn spec_text_items(vals: Seq<IdlValue>) -> Option<Seq<Seq<char>>>
    decreases vals.len(),
{
    if vals.len() == 0 {
        Some(Seq::empty())
    } else {
        match vals[0] {
            IdlValue::Text(s) => match spec_text_items(vals.drop_first()) {
                Some(rest) => Some(seq![s@] + rest),
                None => None,
            },
            _ => None,
        }
    }
}

/// Collect the texts of a list of values; `None` if any is not a text.
pub fn text_items(vals: &Vec<IdlValue>) -> (r: Option<Vec<String>>)
    ensures
        match r {
            Some(v) => spec_text_items(vals@) == Some(v@.map(|i: int, s: String| s@)),
            None => spec_text_items(vals@) is None,
        },
{
    let ghost whole = spec_text_items(vals@);
    let mut out: Vec<String> = Vec::new();
    let n = vals.len();
    let mut i: usize = 0;
    proof {
        assert(vals@.skip(0) =~= vals@);
    }
    while i < n
        invariant
            i <= n,
            n == vals@.len(),
            whole == spec_text_items(vals@),
            (match spec_text_items(vals@.skip(i as int)) {
                Some(rest) => whole == Some(out@.map(|k: int, s: String| s@) + rest),
                None => whole is None,
            }),
        decreases n - i,
    {
        let ghost pre = vals@.skip(i as int);
        match &vals[i] {
            IdlValue::Text(s) => {
                let ghost prev = out@;
                out.push(s.clone());
                proof {
                    assert(pre[0] == vals@[i as int]);
                    assert(pre.drop_first() =~= vals@.skip(i as int + 1));
                    match spec_text_items(vals@.skip(i as int + 1)) {
                        Some(rest) => {
                            assert(prev.map(|k: int, s: String| s@) + (seq![s@] + rest) =~= out@.map(
                                |k: int, s: String| s@,
                            ) + rest);
                        },
                        None => {
                        },
                    }
                }
            },
            _ => {
                proof {
                    assert(pre[0] == vals@[i as int]);
                }
                return None;
            },
        }
        i += 1;
    }
    proof {
        assert(vals@.skip(n as int).len() == 0);
        assert(out@.map(|k: int, s: String| s@) + Seq::<Seq<char>>::empty() =~= out@.map(
            |k: int, s: String| s@,
        ));
    }
    Some(out)
}

/// "Generic [NAME] has non-string option"
pub open spec fn msg_generic_option_not_string(name: Seq<char>) -> Seq<char> {
    "Generic ["@ + name + "] has non-string option"@
}

/// "Generic [NAME] defines options but is not an array"
pub open spec fn msg_generic_options_not_array(name: Seq<char>) -> Seq<char> {
    "Generic ["@ + name + "] defines options but is not an array"@
}

/// "Generic [NAME] missing `options`"
pub open spec fn msg_generic_missing_options(name: Seq<char>) -> Seq<char> {
    "Generic ["@ + name + "] missing `options`"@
}

/// "Generic [NAME] has default DEF which is not included in the defined options"
pub open spec fn msg_generic_default_not_included(name: Seq<char>, def: Seq<char>) -> Seq<char> {
    "Generic ["@ + name + "] has default "@ + def
        + " which is not included in the defined options"@
}

/// "Generic [NAME] `default` is not a string"
pub open spec fn msg_generic_default_not_string(name: Seq<char>) -> Seq<char> {
    "Generic ["@ + name + "] `default` is not a string"@
}

/// "Generic [NAME] missing [default]"
pub open spec fn msg_generic_missing_default(name: Seq<char>) -> Seq<char> {
    "Generic ["@ + name + "] missing [default]"@
}

/// What `parse_generic` accepts and returns: the `options` entry must be an
/// array of texts, the `default` entry a text among them; the declaration's
/// default field is left empty. Errors report the first rule broken, in
/// this order.
pub open spec fn spec_parse_generic(name: Seq<char>, t: Seq<(String, IdlValue)>) -> Result<
    GenericTypeView,
    Seq<char>,
> {
    match spec_assoc_lookup(t, "options"@) {
        None => Err(msg_generic_missing_options(name)),
        Some(v) => match v {
            IdlValue::Array(vals) => match spec_text_items(vals@) {
                None => Err(msg_generic_option_not_string(name)),
                Some(opts) => match spec_assoc_lookup(t, "default"@) {
                    None => Err(msg_generic_missing_default(name)),
                    Some(d) => match d {
                        IdlValue::Text(def) => if !opts.contains(def@) {
                            Err(msg_generic_default_not_included(name, def@))
                        } else {
                            Ok(GenericTypeView { options: opts, default: Seq::empty() })
                        },
                        _ => Err(msg_generic_default_not_string(name)),
                    },
                },
            },
            _ => Err(msg_generic_options_not_array(name)),
        },
    }
}

/// Prefix a generic-parameter error text with the parameter's name.
fn generic_msg(name: &str, suffix: &str) -> (r: String)
    ensures
        r@ == "Generic ["@ + name@ + suffix@,
{
    let mut s = "Generic [".to_owned();
    s.append(name);
    s.append(suffix);
    s
}

/// Read one generic-parameter declaration: its allowed type names and its
/// default, which must be one of them.
pub fn parse_generic(name: String, data: &IdlTable) -> (r: Result<GenericType, String>)
    ensures
        ({
            let s = spec_parse_generic(name@, data@);
            match r {
                Ok(g) => s == Ok::<GenericTypeView, Seq<char>>(g@),
                Err(e) => s == Err::<GenericTypeView, Seq<char>>(e@),
            }
        }),
{
    let options: Vec<String> = match assoc_lookup(data, "options") {
        Some(v) => match v {
            IdlValue::Array(vals) => match text_items(vals) {
                Some(opts) => opts,
                None => {
                    return Err(generic_msg(name.as_str(), "] has non-string option"));
                },
            },
            _ => {
                return Err(generic_msg(name.as_str(), "] defines options but is not an array"));
            },
        },
        None => {
            return Err(generic_msg(name.as_str(), "] missing `options`"));
        },
    };
    match assoc_lookup(data, "default") {
        Some(d) => match d {
            IdlValue::Text(def) => {
                if !names_contain(&options, def.as_str()) {
                    let mut m = generic_msg(name.as_str(), "] has default ");
                    m.append(def.as_str());
                    m.append(" which is not included in the defined options");
                    proof {
                        assert(m@ =~= msg_generic_default_not_included(name@, def@));
                    }
                    Err(m)
                } else {
                    let g = GenericType { options, default: String::new() };
                    proof {
                        assert(g@ =~= (GenericTypeView {
                            options: g@.options,
                            default: Seq::empty(),
                        }));
                    }
                    Ok(g)
                }
            },
            _ => Err(generic_msg(name.as_str(), "] `default` is not a string")),
        },
        None => Err(generic_msg(name.as_str(), "] missing [default]")),
    }
}

/// "Field NAME [dims] is not an array"
pub open spec fn msg_dims_not_array(name: Seq<char>) -> Seq<char> {
    "Field "@ + name + " [dims] is not an array"@
}

/// "Field NAME [dims][I] is not an integer"
pub open spec fn msg_dim_not_integer(name: Seq<char>, i: int) -> Seq<char> {
    "Field "@ + name + " [dims]["@ + dec_int(i) + "] is not an integer"@
}

/// "Field NAME [dims][I] invalid: D"
pub open spec fn msg_dim_invalid(name: Seq<char>, i: int, d: int) -> Seq<char> {
    "Field "@ + name + " [dims]["@ + dec_int(i) + "] invalid: "@ + dec_int(d)
}

/// The dimension entries accepted from position `i` on: every entry must be
/// an integer, non-negative or the wildcard `-1`; the first offending entry
/// decides the error.
pub open spec fn spec_parse_dims_from(name: Seq<char>, arr: Seq<IdlValue>, i: int) -> Result<
    Seq<i64>,
    Seq<char>,
>
    decreases arr.len() - i,
{
    if i < 0 || i >= arr.len() {
        Ok(Seq::empty())
    } else {
        match arr[i] {
            IdlValue::Integer(d) => if d < 0 && d != -1 {
                Err(msg_dim_invalid(name, i, d as int))
            } else {
                match spec_parse_dims_from(name, arr, i + 1) {
                    Ok(rest) => Ok(seq![d] + rest),
                    Err(e) => Err(e),
                }
            },
            _ => Err(msg_dim_not_integer(name, i)),
        }
    }
}

/// What `parse_dimensions` accepts and returns: the integer entries of an
/// array value, rejecting a non-array, a non-integer entry, and a negative
/// entry other than the wildcard `-1`.
pub open spec fn spec_parse_dimensions(name: Seq<char>, data: IdlValue) -> Result<
    Seq<i64>,
    Seq<char>,
> {
    match data {
        IdlValue::Array(arr) => spec_parse_dims_from(name, arr@, 0),
        _ => Err(msg_dims_not_array(name)),
    }
}

/// Prefix an error text with the field name, as every validation message
/// does.
fn field_msg(name: &str, suffix: &str) -> (r: String)
    ensures
        r@ == "Field "@ + name@ + suffix@,
{
    let mut s = "Field ".to_owned();
    s.append(name);
    s.append(suffix);
    s
}

/// Read a field's dimension list: an array of integers, each non-negative
/// or the wildcard `-1`.
pub fn parse_dimensions(name: &str, data: &IdlValue) -> (r: Result<Vec<i64>, String>)
    ensures
        ({
            let s = spec_parse_dimensions(name@, *data);
            match r {
                Ok(v) => s == Ok::<Seq<i64>, Seq<char>>(v@),
                Err(e) => s == Err::<Seq<i64>, Seq<char>>(e@),
            }
        }),
{
    match data {
        IdlValue::Array(arr) => {
            let ghost whole = spec_parse_dims_from(name@, arr@, 0);
            let mut dims: Vec<i64> = Vec::new();
            let n = arr.len();
            let mut i: usize = 0;
            while i < n
                invariant
                    i <= n,
                    n == arr@.len(),
                    whole == spec_parse_dims_from(name@, arr@, 0),
                    spec_parse_dimensions(name@, *data) == whole,
                    (match spec_parse_dims_from(name@, arr@, i as int) {
                        Ok(rest) => whole == Ok::<Seq<i64>, Seq<char>>(dims@ + rest),
                        Err(e) => whole == Err::<Seq<i64>, Seq<char>>(e),
                    }),
                decreases n - i,
            {
                match &arr[i] {
                    IdlValue::Integer(d) => {
                        let d = *d;
                        if d < 0 && d != -1 {
                            let mut m = field_msg(name, " [dims][");
                            m.append(u64_to_string(i as u64).as_str());
                            m.append("] invalid: ");
                            m.append(crate::generation::i64_to_string(d).as_str());
                            proof {
                                assert(arr@[i as int] == IdlValue::Integer(d));
                                assert(spec_parse_dims_from(name@, arr@, i as int) == Err::<
                                    Seq<i64>,
                                    Seq<char>,
                                >(msg_dim_invalid(name@, i as int, d as int)));
                                assert(m@ =~= msg_dim_invalid(name@, i as int, d as int));
                                assert(whole == Err::<Seq<i64>, Seq<char>>(m@));
                                assert(spec_parse_dimensions(name@, *data) == whole);
                            }
                            return Err(m);
                        }
                        let ghost prev = dims@;
                        dims.push(d);
                        proof {
                            assert(arr@[i as int] == IdlValue::Integer(d));
                            match spec_parse_dims_from(name@, arr@, i as int + 1) {
                                Ok(rest) => {
                                    assert(spec_parse_dims_from(name@, arr@, i as int) == Ok::<
                                        Seq<i64>,
                                        Seq<char>,
                                    >(seq![d] + rest));
                                    assert(prev + (seq![d] + rest) =~= dims@ + rest);
                                },
                                Err(e) => {
                                    assert(spec_parse_dims_from(name@, arr@, i as int) == Err::<
                                        Seq<i64>,
                                        Seq<char>,
                                    >(e));
                                },
                            }
                        }
                    },
                    _ => {
                        let mut m = field_msg(name, " [dims][");
                        m.append(u64_to_string(i as u64).as_str());
                        m.append("] is not an integer");
                        proof {
                            assert(m@ =~= msg_dim_not_integer(name@, i as int));
                        }
                        return Err(m);
                    },
                }
                i += 1;
            }
            proof {
                assert(spec_parse_dims_from(name@, arr@, i as int) == Ok::<Seq<i64>, Seq<char>>(
                    Seq::empty(),
                ));
                assert(dims@ + Seq::<i64>::empty() =~= dims@);
            }
            Ok(dims)
        },
        _ => Err(field_msg(name, " [dims] is not an array")),
    }
}

/// The variant name of a value category, as an error message spells it.
pub open spec fn spec_vtype_name(v: ValueType) -> Seq<char> {
    match v {
        ValueType::BOOLEAN => "BOOLEAN"@,
        ValueType::UnsignedInteger => "UnsignedInteger"@,
        ValueType::SignedInteger => "SignedInteger"@,
        ValueType::FLOATING => "FLOATING"@,
        ValueType::STRING => "STRING"@,
        ValueType::INVALID => "INVALID"@,
    }
}

/// The value category's name for error messages.
pub fn vtype_name(v: &ValueType) -> (r: &'static str)
    ensures
        r@ == spec_vtype_name(*v),
{
    match v {
        ValueType::BOOLEAN => "BOOLEAN",
        ValueType::UnsignedInteger => "UnsignedInteger",
        ValueType::SignedInteger => "SignedInteger",
        ValueType::FLOATING => "FLOATING",
        ValueType::STRING => "STRING",
        ValueType::INVALID => "INVALID",
    }
}

/// "Field NAME default is an array for a scalar value"
pub open spec fn msg_scalar_array(name: Seq<char>) -> Seq<char> {
    "Field "@ + name + " default is an array for a scalar value"@
}

/// "Field NAME default does not match defined type: VTYPE"
pub open spec fn msg_type_mismatch(name: Seq<char>, vtype: ValueType) -> Seq<char> {
    "Field "@ + name + " default does not match defined type: "@ + spec_vtype_name(vtype)
}

/// "Field NAME default fails to match dimension"
pub open spec fn msg_dim_mismatch(name: Seq<char>) -> Seq<char> {
    "Field "@ + name + " default fails to match dimension"@
}

/// What `validate_default` accepts: with no dimensions left, the default
/// must be a matching scalar; with dimensions left, it must be an array
/// whose every element validates one level down. Only the nesting depth is
/// checked against the dimension list, never the extents.
pub open spec fn spec_validate_default(
    name: Seq<char>,
    vtype: ValueType,
    dims: Seq<i64>,
    data: IdlValue,
) -> Result<bool, Seq<char>>
    decreases dims.len() + 1, 0int,
{
    if dims.len() == 0 {
        if data is Array {
            Err(msg_scalar_array(name))
        } else if !spec_validate_value(vtype, data) {
            Err(msg_type_mismatch(name, vtype))
        } else {
            Ok(true)
        }
    } else {
        match data {
            IdlValue::Array(arr) => spec_validate_elements(name, vtype, dims, arr@),
            _ => Err(msg_dim_mismatch(name)),
        }
    }
}

/// Validate each element of an array default one dimension level down; the
/// first failing element decides the error.
pub open spec fn spec_validate_elements(
    name: Seq<char>,
    vtype: ValueType,
    dims: Seq<i64>,
    arr: Seq<IdlValue>,
) -> Result<bool, Seq<char>>
    decreases dims.len(), arr.len(),
{
    if dims.len() == 0 || arr.len() == 0 {
        Ok(true)
    } else {
        match spec_validate_default(name, vtype, dims.drop_first(), arr[0]) {
            Ok(_) => spec_validate_elements(name, vtype, dims, arr.drop_first()),
            Err(e) => Err(e),
        }
    }
}

/// Check a field's default value against its declared category and its
/// dimension list (nesting depth only, as documented).
pub fn validate_default(name: &str, vtype: ValueType, dims: &[i64], data: &IdlValue) -> (r: Result<
    bool,
    String,
>)
    ensures
        ({
            let s = spec_validate_default(name@, vtype, dims@, *data);
            match r {
                Ok(v) => s == Ok::<bool, Seq<char>>(v),
                Err(e) => s == Err::<bool, Seq<char>>(e@),
            }
        }),
    decreases dims@.len(),
{
    if dims.len() == 0 {
        match data {
            IdlValue::Array(_) => Err(field_msg(name, " default is an array for a scalar value")),
            _ => {
                if !validate_value(&vtype, data) {
                    let mut m = field_msg(name, " default does not match defined type: ");
                    m.append(vtype_name(&vtype));
                    Err(m)
                } else {
                    Ok(true)
                }
            },
        }
    } else {
        match data {
            IdlValue::Array(arr) => {
                let inner = slice_subrange(dims, 1, dims.len());
                proof {
                    assert(inner@ =~= dims@.drop_first());
                }
                let n = arr.len();
                let mut i: usize = 0;
                proof {
                    assert(arr@.skip(0) =~= arr@);
                }
                while i < n
                    invariant
                        i <= n,
                        n == arr@.len(),
                        dims@.len() >= 1,
                        inner@ == dims@.drop_first(),
                        spec_validate_elements(name@, vtype, dims@, arr@.skip(i as int))
                            == spec_validate_elements(name@, vtype, dims@, arr@),
                        spec_validate_default(name@, vtype, dims@, *data)
                            == spec_validate_elements(name@, vtype, dims@, arr@),
                    decreases n - i,
                {
                    let ghost pre = arr@.skip(i as int);
                    match validate_default(name, vtype, inner, &arr[i]) {
                        Ok(_) => {
                        },
                        Err(e) => {
                            proof {
                                assert(pre[0] == arr@[i as int]);
                                assert(spec_validate_default(name@, vtype, inner@, arr@[i as int])
                                    == Err::<bool, Seq<char>>(e@));
                                assert(spec_validate_elements(name@, vtype, dims@, pre) == Err::<
                                    bool,
                                    Seq<char>,
                                >(e@));
                            }
                            return Err(e);
                        },
                    }
                    proof {
                        assert(pre[0] == arr@[i as int]);
                        assert(pre.drop_first() =~= arr@.skip(i as int + 1));
                    }
                    i += 1;
                }
                proof {
                    assert(arr@.skip(n as int).len() == 0);
                }
                Ok(true)
            },
            _ => Err(field_msg(name, " default fails to match dimension")),
        }
    }
}

} // verus!
