//! Text helpers for the adapter generator: decimal rendering of integers,
//! comma joins, and the type and dimension strings emitted into generated
//! interface code.

use vstd::prelude::*;
use vstd::string::StringExecFns;
use crate::context::GenericType;

verus! {

/// The decimal digit character for `d`.
pub open spec fn dec_digit(d: nat) -> char {
    if d == 0 {
        '0'
    } else if d == 1 {
        '1'
    } else if d == 2 {
        '2'
    } else if d == 3 {
        '3'
    } else if d == 4 {
        '4'
    } else if d == 5 {
        '5'
    } else if d == 6 {
        '6'
    } else if d == 7 {
        '7'
    } else if d == 8 {
        '8'
    } else {
        '9'
    }
}

/// The decimal rendering of a non-negative integer, most significant digit
/// first, without leading zeros (`0` renders as "0").
pub open spec fn dec_nat(n: nat) -> Seq<char>
    decreases n,
{
    if n < 10 {
        seq![dec_digit(n)]
    } else {
        dec_nat(n / 10).push(dec_digit(n % 10))
    }
}

/// The decimal rendering of an integer: a minus sign before the magnitude
/// when negative.
pub open spec fn dec_int(n: int) -> Seq<char> {
    if n < 0 {
        seq!['-'] + dec_nat((-n) as nat)
    } else {
        dec_nat(n as nat)
    }
}

/// The comma-free join of a list of character sequences with a separator
/// between consecutive elements.
pub open spec fn join_seqs(parts: Seq<Seq<char>>, sep: Seq<char>) -> Seq<char>
    decreases parts.len(),
{
    if parts.len() == 0 {
        Seq::empty()
    } else if parts.len() == 1 {
        parts[0]
    } else {
        parts[0] + sep + join_seqs(parts.drop_first(), sep)
    }
}

/// The one-character string for a decimal digit.
fn digit_str(d: u64) -> (r: &'static str)
    requires
        d < 10,
    ensures
        r@ == seq![dec_digit(d as nat)],
{
    proof {
        reveal_strlit("0");
        reveal_strlit("1");
        reveal_strlit("2");
        reveal_strlit("3");
        reveal_strlit("4");
        reveal_strlit("5");
        reveal_strlit("6");
        reveal_strlit("7");
        reveal_strlit("8");
        reveal_strlit("9");
    }
    let r = match d {
        0 => "0",
        1 => "1",
        2 => "2",
        3 => "3",
        4 => "4",
        5 => "5",
        6 => "6",
        7 => "7",
        8 => "8",
        _ => "9",
    };
    proof {
        assert(r@ =~= seq![dec_digit(d as nat)]);
    }
    r
}

/// Render an unsigned integer in decimal.
pub fn u64_to_string(n: u64) -> (r: String)
    ensures
        r@ == dec_nat(n as nat),
    decreases n,
{
    if n < 10 {
        digit_str(n).to_owned()
    } else {
        let mut s = u64_to_string(n / 10);
        s.append(digit_str(n % 10));
        proof {
            assert(s@ =~= dec_nat(n as nat));
        }
        s
    }
}

/// Render a signed integer in decimal.
pub fn i64_to_string(n: i64) -> (r: String)
    ensures
        r@ == dec_int(n as int),
{
    if n >= 0 {
        u64_to_string(n as u64)
    } else {
        let mag: u64 = if n == i64::MIN {
            9223372036854775808u64
        } else {
            (-n) as u64
        };
        let mut s = "-".to_owned();
        s.append(u64_to_string(mag).as_str());
        proof {
            reveal_strlit("-");
            assert(s@ =~= dec_int(n as int));
        }
        s
    }
}

/// Join the strings from position `i` on with commas, as `join_seqs` of the
/// remaining views.
fn join_from(strings: &Vec<String>, i: usize) -> (r: String)
    requires
        i <= strings@.len(),
    ensures
        r@ == join_seqs(strings@.skip(i as int).map(|k: int, s: String| s@), ","@),
    decreases strings@.len() - i,
{
    let ghost parts = strings@.skip(i as int).map(|k: int, s: String| s@);
    if i == strings.len() {
        proof {
            assert(parts =~= Seq::<Seq<char>>::empty());
        }
        String::new()
    } else if i + 1 == strings.len() {
        proof {
            assert(parts.len() == 1);
            assert(parts[0] == strings@[i as int]@);
        }
        strings[i].clone()
    } else {
        let mut s = strings[i].clone();
        s.append(",");
        let rest = join_from(strings, i + 1);
        s.append(rest.as_str());
        proof {
            assert(strings@.skip(i as int + 1).map(|k: int, s: String| s@) =~= parts.drop_first());
            assert(parts[0] == strings@[i as int]@);
            assert(s@ == parts[0] + ","@ + join_seqs(parts.drop_first(), ","@));
        }
        s
    }
}

/// Join strings with commas.
pub fn join_string(strings: &Vec<String>) -> (r: String)
    ensures
        r@ == join_seqs(strings@.map(|k: int, s: String| s@), ","@),
{
    let r = join_from(strings, 0);
    proof {
        assert(strings@.skip(0) =~= strings@);
    }
    r
}

/// The comma join of the names of a structure's generic parameters, in
/// declaration order.
pub fn generics_join(generics: &Vec<(String, GenericType)>) -> (r: String)
    ensures
        r@ == join_seqs(generics@.map(|k: int, p: (String, GenericType)| p.0@), ","@),
{
    let mut names: Vec<String> = Vec::new();
    let mut i: usize = 0;
    while i < generics.len()
        invariant
            i <= generics@.len(),
            names@.len() == i,
            forall|j: int| 0 <= j < i ==> names@[j]@ == generics@[j].0@,
        decreases generics@.len() - i,
    {
        names.push(generics[i].0.clone());
        i += 1;
    }
    let r = join_string(&names);
    proof {
        assert(names@.map(|k: int, s: String| s@) =~= generics@.map(
            |k: int, p: (String, GenericType)| p.0@,
        ));
    }
    r
}

/// The generic-parameter bounds emitted for deserialization support: each
/// parameter name followed by the deserialize bound, comma joined.
pub fn generics_deserialize(generics: &Vec<(String, GenericType)>) -> (r: String)
    ensures
        r@ == join_seqs(
            generics@.map(
                |k: int, p: (String, GenericType)| p.0@ + ": for <'a> Deserialize<'a>"@,
            ),
            ","@,
        ),
{
    let mut bounds: Vec<String> = Vec::new();
    let mut i: usize = 0;
    while i < generics.len()
        invariant
            i <= generics@.len(),
            bounds@.len() == i,
            forall|j: int|
                0 <= j < i ==> bounds@[j]@ == generics@[j].0@ + ": for <'a> Deserialize<'a>"@,
        decreases generics@.len() - i,
    {
        let b = generics[i].0.clone().concat(": for <'a> Deserialize<'a>");
        bounds.push(b);
        i += 1;
    }
    let r = join_string(&bounds);
    proof {
        assert(bounds@.map(|k: int, s: String| s@) =~= generics@.map(
            |k: int, p: (String, GenericType)| p.0@ + ": for <'a> Deserialize<'a>"@,
        ));
    }
    r
}

/// Executable string comparison, specified over the character views.
pub fn str_eq(a: &str, b: &str) -> (r: bool)
    ensures
        r == (a@ == b@),
{
    let sa = a.to_owned();
    let sb = b.to_owned();
    sa == sb
}

/// The C++ spelling of a primitive interface type name; unknown names map
/// to `void`.
pub open spec fn spec_cpp_type(t: Seq<char>) -> Seq<char> {
    if t == "u8"@ {
        "uint8_t"@
    } else if t == "u16"@ {
        "uint16_t"@
    } else if t == "u32"@ {
        "uint32_t"@
    } else if t == "u64"@ {
        "uint64_t"@
    } else if t == "i8"@ {
        "int8_t"@
    } else if t == "i16"@ {
        "int16_t"@
    } else if t == "i32"@ {
        "int32_t"@
    } else if t == "i64"@ {
        "int64_t"@
    } else if t == "String"@ {
        "std::string"@
    } else if t == "bool"@ {
        "bool"@
    } else if t == "f32"@ {
        "float"@
    } else if t == "f64"@ {
        "double"@
    } else {
        "void"@
    }
}

/// Translate an interface type name to its C++ spelling.
pub fn rust_to_cpp_type(typename: &String) -> (r: String)
    ensures
        r@ == spec_cpp_type(typename@),
{
    let t = typename.as_str();
    let r: &str = if str_eq(t, "u8") {
        "uint8_t"
    } else if str_eq(t, "u16") {
        "uint16_t"
    } else if str_eq(t, "u32") {
        "uint32_t"
    } else if str_eq(t, "u64") {
        "uint64_t"
    } else if str_eq(t, "i8") {
        "int8_t"
    } else if str_eq(t, "i16") {
        "int16_t"
    } else if str_eq(t, "i32") {
        "int32_t"
    } else if str_eq(t, "i64") {
        "int64_t"
    } else if str_eq(t, "String") {
        "std::string"
    } else if str_eq(t, "bool") {
        "bool"
    } else if str_eq(t, "f32") {
        "float"
    } else if str_eq(t, "f64") {
        "double"
    } else {
        "void"
    };
    r.to_owned()
}

/// The views of the decimal renderings of a dimension list.
pub open spec fn dim_strings(dims: Seq<i64>) -> Seq<Seq<char>> {
    dims.map(|k: int, d: i64| dec_int(d as int))
}

/// Render each dimension in decimal.
fn dims_to_strings(dims: &Vec<i64>) -> (r: Vec<String>)
    ensures
        r@.map(|k: int, s: String| s@) == dim_strings(dims@),
{
    let mut txtarr: Vec<String> = Vec::new();
    let mut i: usize = 0;
    while i < dims.len()
        invariant
            i <= dims@.len(),
            txtarr@.len() == i,
            forall|j: int| 0 <= j < i ==> txtarr@[j]@ == dec_int(dims@[j] as int),
        decreases dims@.len() - i,
    {
        txtarr.push(i64_to_string(dims[i]));
        i += 1;
    }
    proof {
        assert(txtarr@.map(|k: int, s: String| s@) =~= dim_strings(dims@));
    }
    txtarr
}

/// The matrix type spelling emitted into generated interface code: the
/// element type and the comma-joined dimensions.
pub open spec fn spec_rust_dimstr(t: Seq<char>, dims: Seq<i64>) -> Seq<char> {
    "SMatrix<"@ + t + ", "@ + join_seqs(dim_strings(dims), ","@) + ">"@
}

/// The dimensioned matrix type spelling for generated interface code.
pub fn rust_dimstr(typename: &String, dims: &Vec<i64>) -> (r: String)
    ensures
        r@ == spec_rust_dimstr(typename@, dims@),
{
    let txtarr = dims_to_strings(dims);
    let joined = join_string(&txtarr);
    let mut s = "SMatrix<".to_owned();
    s.append(typename.as_str());
    s.append(", ");
    s.append(joined.as_str());
    s.append(">");
    s
}

/// The C++ array declarator emitted into generated wrapper code: the C++
/// type, the field name, and the comma-joined dimensions in brackets.
pub open spec fn spec_cpp_dimstr(t: Seq<char>, name: Seq<char>, dims: Seq<i64>) -> Seq<char> {
    spec_cpp_type(t) + " "@ + name + "["@ + join_seqs(dim_strings(dims), ","@) + "]"@
}

/// Whether a template name is one the generator can render.
pub open spec fn spec_supported_template(t: Seq<char>) -> bool {
    t == "interface.rs"@ || t == "interface.hxx"@ || t == "msgpack.rs"@
}

/// Decide whether a template name is one the generator can render; the C++
/// source template is declared but not implemented.
pub fn supported_template(template: &str) -> (r: bool)
    ensures
        r == spec_supported_template(template@),
{
    str_eq(template, "interface.rs") || str_eq(template, "interface.hxx") || str_eq(
        template,
        "msgpack.rs",
    )
}

/// The file name a rendered template is written to: the context's name and
/// the template name, joined by an underscore.
pub fn template_output_name(name: &String, template: &str) -> (r: String)
    ensures
        r@ == name@ + "_"@ + template@,
{
    let mut s = name.clone();
    s.append("_");
    s.append(template);
    s
}

/// The dimensioned C++ declarator for generated wrapper code.
pub fn cpp_dimstr(typename: &String, name: &String, dims: &Vec<i64>) -> (r: String)
    ensures
        r@ == spec_cpp_dimstr(typename@, name@, dims@),
{
    let txtarr = dims_to_strings(dims);
    let joined = join_string(&txtarr);
    let mut s = rust_to_cpp_type(typename);
    s.append(" ");
    s.append(name.as_str());
    s.append("[");
    s.append(joined.as_str());
    s.append("]");
    s
}

} // verus!
