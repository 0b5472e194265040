use rsis::{
    add_predefined_structures, parse_generic, parse_idl, parse_struct, supported_template,
    template_output_name, Context, IdlTable, IdlValue,
};

fn entry(key: &str, v: IdlValue) -> (String, IdlValue) {
    (key.to_string(), v)
}

fn text(s: &str) -> IdlValue {
    IdlValue::Text(s.to_string())
}

fn fresh_context() -> Context {
    Context {
        structs: vec![],
        structinfo: vec![],
        importedstructs: vec![],
        name: "m".to_string(),
        tags: vec![],
        has_ndarray: false,
        imports: vec![],
    }
}

#[test]
fn parse_generic_accepts_options_and_default() {
    let data: IdlTable = vec![
        entry("options", IdlValue::Array(vec![text("f32"), text("f64")])),
        entry("default", text("f64")),
    ];
    let g = parse_generic("T".to_string(), &data).unwrap();
    assert_eq!(g.options, vec!["f32".to_string(), "f64".to_string()]);
    // The declaration's default field is left empty.
    assert_eq!(g.default, "");
}

#[test]
fn parse_generic_rejects_bad_declarations() {
    let data: IdlTable = vec![entry("default", text("f64"))];
    assert_eq!(
        parse_generic("T".to_string(), &data).unwrap_err(),
        "Generic [T] missing `options`"
    );
    let data: IdlTable = vec![entry("options", text("f64"))];
    assert_eq!(
        parse_generic("T".to_string(), &data).unwrap_err(),
        "Generic [T] defines options but is not an array"
    );
    let data: IdlTable = vec![entry(
        "options",
        IdlValue::Array(vec![IdlValue::Integer(3)]),
    )];
    assert_eq!(
        parse_generic("T".to_string(), &data).unwrap_err(),
        "Generic [T] has non-string option"
    );
    let data: IdlTable = vec![entry("options", IdlValue::Array(vec![text("f32")]))];
    assert_eq!(
        parse_generic("T".to_string(), &data).unwrap_err(),
        "Generic [T] missing [default]"
    );
    let data: IdlTable = vec![
        entry("options", IdlValue::Array(vec![text("f32")])),
        entry("default", text("f64")),
    ];
    assert_eq!(
        parse_generic("T".to_string(), &data).unwrap_err(),
        "Generic [T] has default f64 which is not included in the defined options"
    );
}

#[test]
fn predefined_structures_are_registered() {
    let mut c = fresh_context();
    add_predefined_structures(&mut c);
    assert_eq!(c.importedstructs, vec!["Complex".to_string(), "HashMap".to_string()]);
    assert_eq!(c.structinfo.len(), 2);
    assert_eq!(c.structinfo[0].0, "Complex");
    assert_eq!(c.structinfo[0].1.import, "num::complex::Complex");
    assert_eq!(c.structinfo[0].1.fields.len(), 2);
    assert_eq!(c.structinfo[1].0, "HashMap");
    assert!(c.structinfo[1].1.is_imported);
}

#[test]
fn parse_struct_reads_fields() {
    let mut c = fresh_context();
    let field: IdlTable = vec![
        entry("name", text("signal")),
        entry("type", text("f64")),
        entry("dims", IdlValue::Array(vec![IdlValue::Integer(3)])),
    ];
    let data: IdlTable = vec![
        entry("desc", text("one input")),
        entry("fields", IdlValue::Array(vec![IdlValue::Table(field)])),
    ];
    let s = parse_struct(&mut c, "Input".to_string(), &data).unwrap();
    assert_eq!(s.name, "Input");
    assert_eq!(s.desc, "one input");
    assert_eq!(s.fields.len(), 1);
    assert_eq!(s.fields[0].name, "signal");
    assert_eq!(s.fields[0].typename, "f64");
    assert_eq!(s.fields[0].dimension, vec![3]);
    assert!(s.fields[0].is_ndarray);
    assert!(!s.is_generic);
    // The field's array use is recorded on the context.
    assert!(c.has_ndarray);
}

#[test]
fn parse_struct_rejects_bad_shapes() {
    let mut c = fresh_context();
    let data: IdlTable = vec![entry("desc", text("x"))];
    assert_eq!(
        parse_struct(&mut c, "S".to_string(), &data).unwrap_err(),
        "Struct S is empty. Did you mean to make a forward define?"
    );
    let data: IdlTable = vec![entry("fields", text("x"))];
    assert_eq!(
        parse_struct(&mut c, "S".to_string(), &data).unwrap_err(),
        "Struct S [fields] is not a table"
    );
    let field: IdlTable = vec![entry("name", text("a")), entry("type", text("Quaternion"))];
    let data: IdlTable = vec![entry("fields", IdlValue::Array(vec![IdlValue::Table(field)]))];
    assert_eq!(
        parse_struct(&mut c, "S".to_string(), &data).unwrap_err(),
        "Field a has base type [Quaternion], which is undefined"
    );
}

#[test]
fn parse_field_checks_defaults() {
    let mut c = fresh_context();
    let good: IdlTable = vec![
        entry("name", text("gain")),
        entry("type", text("u32")),
        entry("default", IdlValue::Integer(7)),
    ];
    let bad: IdlTable = vec![
        entry("name", text("gain")),
        entry("type", text("u32")),
        entry("default", IdlValue::Integer(-7)),
    ];
    let data: IdlTable = vec![entry("fields", IdlValue::Array(vec![IdlValue::Table(good)]))];
    assert!(parse_struct(&mut c, "S".to_string(), &data).is_ok());
    let data: IdlTable = vec![entry("fields", IdlValue::Array(vec![IdlValue::Table(bad)]))];
    assert_eq!(
        parse_struct(&mut c, "S".to_string(), &data).unwrap_err(),
        "Field gain default does not match defined type: UnsignedInteger"
    );
}

#[test]
fn parse_field_records_imports() {
    let mut c = fresh_context();
    add_predefined_structures(&mut c);
    let field: IdlTable = vec![entry("name", text("z")), entry("type", text("Complex"))];
    let data: IdlTable = vec![entry("fields", IdlValue::Array(vec![IdlValue::Table(field)]))];
    let s = parse_struct(&mut c, "S".to_string(), &data).unwrap();
    assert_eq!(c.imports, vec!["num::complex::Complex".to_string()]);
    assert!(!s.fields[0].is_struct);
}

#[test]
fn parse_field_tags_are_unique() {
    let mut c = fresh_context();
    let f1: IdlTable = vec![
        entry("name", text("a")),
        entry("type", text("u8")),
        entry("tag", text("time")),
    ];
    let f2: IdlTable = vec![
        entry("name", text("b")),
        entry("type", text("u8")),
        entry("tag", text("time")),
    ];
    let data: IdlTable = vec![entry(
        "fields",
        IdlValue::Array(vec![IdlValue::Table(f1), IdlValue::Table(f2)]),
    )];
    assert_eq!(
        parse_struct(&mut c, "S".to_string(), &data).unwrap_err(),
        "Struct a already tagged as [time] (b)"
    );
}

#[test]
fn parse_idl_reads_a_model_document() {
    let field: IdlTable = vec![entry("name", text("out")), entry("type", text("f32"))];
    let strukt: IdlTable = vec![entry("fields", IdlValue::Array(vec![IdlValue::Table(field)]))];
    let model: IdlTable = vec![entry("name", text("sine"))];
    let data: IdlTable = vec![
        entry("model", IdlValue::Table(model)),
        entry("types", IdlValue::Table(vec![entry("Output", IdlValue::Table(strukt))])),
    ];
    let c = parse_idl(&data).unwrap();
    assert_eq!(c.name, "sine");
    assert_eq!(c.structs, vec!["Output".to_string()]);
    // The predefined structures come first, then the parsed one.
    assert_eq!(c.structinfo.len(), 3);
    assert_eq!(c.structinfo[2].0, "Output");
    assert_eq!(c.structinfo[2].1.fields[0].name, "out");
}

#[test]
fn parse_idl_demands_exactly_one_kind() {
    let data: IdlTable = vec![];
    assert_eq!(
        parse_idl(&data).unwrap_err(),
        "Exactly one of the following: [model, table, message] must be defined as a top level key"
    );
    let data: IdlTable = vec![
        entry("model", IdlValue::Table(vec![])),
        entry("table", IdlValue::Boolean(true)),
    ];
    assert_eq!(
        parse_idl(&data).unwrap_err(),
        "Exactly one of the following: [model, table, message] must be defined as a top level key"
    );
    let data: IdlTable = vec![entry("table", IdlValue::Boolean(true))];
    assert_eq!(parse_idl(&data).unwrap_err(), "table is not implemented");
    let data: IdlTable = vec![entry("message", IdlValue::Boolean(true))];
    assert_eq!(parse_idl(&data).unwrap_err(), "message is not implemented");
}

#[test]
fn parse_idl_demands_types_and_name() {
    let data: IdlTable = vec![entry("model", IdlValue::Table(vec![]))];
    assert_eq!(
        parse_idl(&data).unwrap_err(),
        "Model interface contains no [types] table"
    );
    let data: IdlTable = vec![
        entry("model", IdlValue::Table(vec![])),
        entry("types", IdlValue::Table(vec![])),
    ];
    assert_eq!(
        parse_idl(&data).unwrap_err(),
        "Model interface does not properly define a name"
    );
}

#[test]
fn template_names() {
    assert!(supported_template("interface.rs"));
    assert!(supported_template("interface.hxx"));
    assert!(supported_template("msgpack.rs"));
    assert!(!supported_template("interface.cxx"));
    assert!(!supported_template("other"));
    assert_eq!(
        template_output_name(&"sine".to_string(), "interface.rs"),
        "sine_interface.rs"
    );
}
