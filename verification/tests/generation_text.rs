use rsis::{
    cpp_dimstr, generics_deserialize, generics_join, i64_to_string, join_string, rust_dimstr,
    rust_to_cpp_type, str_eq, u64_to_string, GenericType,
};

fn gt(options: Vec<&str>, default: &str) -> GenericType {
    GenericType {
        options: options.into_iter().map(|s| s.to_string()).collect(),
        default: default.to_string(),
    }
}

#[test]
fn decimal_rendering() {
    assert_eq!(u64_to_string(0), "0");
    assert_eq!(u64_to_string(7), "7");
    assert_eq!(u64_to_string(10), "10");
    assert_eq!(u64_to_string(90210), "90210");
    assert_eq!(u64_to_string(u64::MAX), "18446744073709551615");
    assert_eq!(i64_to_string(0), "0");
    assert_eq!(i64_to_string(42), "42");
    assert_eq!(i64_to_string(-1), "-1");
    assert_eq!(i64_to_string(-305), "-305");
    assert_eq!(i64_to_string(i64::MAX), "9223372036854775807");
    assert_eq!(i64_to_string(i64::MIN), "-9223372036854775808");
}

#[test]
fn join_string_with_commas() {
    assert_eq!(join_string(&vec![]), "");
    assert_eq!(join_string(&vec!["a".to_string()]), "a");
    assert_eq!(
        join_string(&vec!["a".to_string(), "b".to_string(), "c".to_string()]),
        "a,b,c"
    );
}

#[test]
fn rust_dimstr_formats_matrix_types() {
    assert_eq!(
        rust_dimstr(&"f64".to_string(), &vec![3, 3]),
        "SMatrix<f64, 3,3>"
    );
    assert_eq!(
        rust_dimstr(&"u8".to_string(), &vec![2]),
        "SMatrix<u8, 2>"
    );
    assert_eq!(
        rust_dimstr(&"i32".to_string(), &vec![-1, 4]),
        "SMatrix<i32, -1,4>"
    );
}

#[test]
fn cpp_type_translation() {
    assert_eq!(rust_to_cpp_type(&"u8".to_string()), "uint8_t");
    assert_eq!(rust_to_cpp_type(&"u16".to_string()), "uint16_t");
    assert_eq!(rust_to_cpp_type(&"u32".to_string()), "uint32_t");
    assert_eq!(rust_to_cpp_type(&"u64".to_string()), "uint64_t");
    assert_eq!(rust_to_cpp_type(&"i8".to_string()), "int8_t");
    assert_eq!(rust_to_cpp_type(&"i16".to_string()), "int16_t");
    assert_eq!(rust_to_cpp_type(&"i32".to_string()), "int32_t");
    assert_eq!(rust_to_cpp_type(&"i64".to_string()), "int64_t");
    assert_eq!(rust_to_cpp_type(&"String".to_string()), "std::string");
    assert_eq!(rust_to_cpp_type(&"bool".to_string()), "bool");
    assert_eq!(rust_to_cpp_type(&"f32".to_string()), "float");
    assert_eq!(rust_to_cpp_type(&"f64".to_string()), "double");
    assert_eq!(rust_to_cpp_type(&"Complex".to_string()), "void");
}

#[test]
fn cpp_dimstr_formats_array_declarators() {
    assert_eq!(
        cpp_dimstr(&"f32".to_string(), &"gains".to_string(), &vec![4]),
        "float gains[4]"
    );
    assert_eq!(
        cpp_dimstr(&"u16".to_string(), &"grid".to_string(), &vec![2, 8]),
        "uint16_t grid[2,8]"
    );
}

#[test]
fn generics_join_names() {
    let generics = vec![
        ("K".to_string(), gt(vec![], "f64")),
        ("V".to_string(), gt(vec![], "f64")),
    ];
    assert_eq!(generics_join(&generics), "K,V");
    assert_eq!(generics_join(&vec![]), "");
    let one = vec![("T".to_string(), gt(vec!["f32", "f64"], "f64"))];
    assert_eq!(generics_join(&one), "T");
}

#[test]
fn generics_deserialize_bounds() {
    let generics = vec![
        ("K".to_string(), gt(vec![], "f64")),
        ("V".to_string(), gt(vec![], "f64")),
    ];
    assert_eq!(
        generics_deserialize(&generics),
        "K: for <'a> Deserialize<'a>,V: for <'a> Deserialize<'a>"
    );
}

#[test]
fn str_eq_compares_contents() {
    assert!(str_eq("abc", "abc"));
    assert!(!str_eq("abc", "abd"));
    assert!(!str_eq("abc", "abcd"));
    assert!(str_eq("", ""));
}
