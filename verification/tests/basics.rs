use yaml_schema::engine::Engine;
use yaml_schema::ConstValue;
use yaml_schema::RootSchema;
use yaml_schema::YamlSchema;

fn eval(schema: &str, doc: &str) -> yaml_schema::Context {
    let root = RootSchema::load_from_str(schema).unwrap();
    Engine::evaluate(&root, doc, false).unwrap()
}

#[test]
fn test_const_equality() {
    let i1 = ConstValue::integer(42);
    let i2 = ConstValue::integer(42);
    assert_eq!(i1, i2);

    let s1 = ConstValue::string(String::from("NW"));
    let s2 = ConstValue::string(String::from("NW"));
    assert_eq!(s1, s2);
}

#[test]
fn test_engine_empty_schema() {
    let root_schema = RootSchema::new(YamlSchema::Empty);
    let context = Engine::evaluate(&root_schema, "", false).unwrap();
    assert!(!context.has_errors());
}

#[test]
fn test_engine_boolean_literal_true() {
    let root_schema = RootSchema::new(YamlSchema::BooleanLiteral(true));
    let context = Engine::evaluate(&root_schema, "", false).unwrap();
    assert!(!context.has_errors());
}

#[test]
fn test_engine_boolean_literal_false() {
    let root_schema = RootSchema::new(YamlSchema::BooleanLiteral(false));
    let context = Engine::evaluate(&root_schema, "", false).unwrap();
    assert!(context.has_errors());
    assert_eq!(context.errors[0].error, "Empty YAML document is not allowed");
}

#[test]
fn test_type_string_accepts_string() {
    let context = eval("type: string", "\"hello\"");
    assert!(!context.has_errors());
}

#[test]
fn test_type_string_rejects_integer() {
    let context = eval("type: string", "42");
    assert_eq!(context.errors.len(), 1);
    assert_eq!(context.errors[0].path, "");
    assert_eq!(context.errors[0].error, "Expected a string, but got: Integer(42)");
}

#[test]
fn test_object_properties_two_errors_in_order() {
    let schema = "type: object\nproperties:\n  foo: { type: string }\n  bar: { type: number }\n";
    let context = eval(schema, "{ foo: 42, bar: \"x\" }");
    assert_eq!(context.errors.len(), 2);
    assert_eq!(context.errors[0].path, "foo");
    assert_eq!(context.errors[0].error, "Expected a string, but got: Integer(42)");
    assert_eq!(context.errors[1].path, "bar");
    assert_eq!(context.errors[1].error, "Expected a number, but got: String(\"x\")");
}

#[test]
fn test_min_length() {
    let schema = "type: string\nminLength: 5\n";
    let context = eval(schema, "\"hell\"");
    assert_eq!(context.errors.len(), 1);
    assert_eq!(context.errors[0].error, "String is too short! (min length: 5)");
    let context = eval(schema, "\"hello\"");
    assert!(!context.has_errors());
}

#[test]
fn test_one_of_multiples() {
    let schema =
        "oneOf:\n  - { type: number, multipleOf: 5 }\n  - { type: number, multipleOf: 3 }\n";
    let context = eval(schema, "10");
    assert!(!context.has_errors());
    let context = eval(schema, "15");
    assert_eq!(context.errors.len(), 1);
    assert_eq!(context.errors[0].error, "Value matched multiple schemas in `oneOf`!");
    let context = eval(schema, "7");
    assert_eq!(context.errors.len(), 1);
    assert_eq!(context.errors[0].error, "None of the schemas in `oneOf` matched!");
}

#[test]
fn test_prefix_items() {
    let schema = "type: array\nprefixItems:\n  - { type: number }\n  - { type: string }\nitems: { type: string }\n";
    let context = eval(schema, "[1600, \"Pennsylvania\", \"Avenue\", \"NW\"]");
    assert!(!context.has_errors());
    let context = eval(schema, "[true, \"Pennsylvania\"]");
    assert_eq!(context.errors.len(), 1);
    assert_eq!(context.errors[0].path, "0");
}

#[test]
fn test_enum_membership() {
    let schema = "enum: [red, amber, green, null, 42]";
    let context = eval(schema, "amber");
    assert!(!context.has_errors());
    let context = eval(schema, "blue");
    assert_eq!(context.errors.len(), 1);
    assert_eq!(
        context.errors[0].error,
        "Value \"blue\" is not in the enum: [\"red\", \"amber\", \"green\", null, 42 (number)]"
    );
}

#[test]
fn test_integer_accepts_integral_real() {
    let context = eval("type: integer", "2.0");
    assert!(!context.has_errors());
    let context = eval("type: integer", "2.5");
    assert_eq!(context.errors.len(), 1);
}

#[test]
fn test_integer_schema_against_string() {
    let root = RootSchema::load_from_str("type: integer").unwrap();
    let context = Engine::evaluate(&root, "foo", true).unwrap();
    assert!(context.has_errors());
    assert_eq!(context.errors[0].error, "Expected a number, but got: String(\"foo\")");
}

#[test]
fn test_fail_fast_stops_after_first_error() {
    let schema = "type: object\nproperties:\n  foo: { type: string }\n  bar: { type: number }\n";
    let root = RootSchema::load_from_str(schema).unwrap();
    let context = Engine::evaluate(&root, "{ foo: 42, bar: \"x\" }", true).unwrap();
    assert_eq!(context.errors.len(), 1);
    assert_eq!(context.errors[0].path, "foo");
}

#[test]
fn test_idempotent_runs() {
    let schema = "type: object\nproperties:\n  foo: { type: string }\n";
    let root = RootSchema::load_from_str(schema).unwrap();
    let doc = "{ foo: 42 }";
    let c1 = Engine::evaluate(&root, doc, false).unwrap();
    let c2 = Engine::evaluate(&root, doc, false).unwrap();
    assert_eq!(c1.errors.len(), c2.errors.len());
    for k in 0..c1.errors.len() {
        assert_eq!(c1.errors[k].path, c2.errors[k].path);
        assert_eq!(c1.errors[k].error, c2.errors[k].error);
    }
}

#[test]
fn test_validation_error_location() {
    let context = eval("type: string", "42");
    let lc = context.errors[0].line_col.unwrap();
    assert_eq!(lc.line, 1);
    assert_eq!(lc.col, 1);
}

#[test]
fn test_required_and_counts() {
    let schema = "type: object\nrequired: [name]\nminProperties: 1\nmaxProperties: 2\n";
    let context = eval(schema, "{ other: 1 }");
    assert_eq!(context.errors.len(), 1);
    assert_eq!(context.errors[0].error, "Required property 'name' is missing!");
    let context = eval(schema, "{ a: 1, b: 2, c: 3 }");
    assert_eq!(context.errors.len(), 2);
    assert_eq!(context.errors[0].error, "Required property 'name' is missing!");
    assert_eq!(context.errors[1].error, "Object has too many properties! Maximum is 2!");
}

#[test]
fn test_not_schema() {
    let schema = "not: { type: string }";
    let context = eval(schema, "42");
    assert!(!context.has_errors());
    let context = eval(schema, "\"x\"");
    assert_eq!(context.errors.len(), 1);
    assert_eq!(context.errors[0].error, "Value matches schema in `not`");
}

#[test]
fn test_any_of() {
    let schema = "anyOf:\n  - { type: string }\n  - { type: number }\n";
    let context = eval(schema, "\"x\"");
    assert!(!context.has_errors());
    let context = eval(schema, "true");
    assert_eq!(context.errors.len(), 1);
    assert_eq!(context.errors[0].error, "None of the schemas in `anyOf` matched!");
}

#[test]
fn test_const_schema() {
    let schema = "const: 42";
    let context = eval(schema, "42");
    assert!(!context.has_errors());
    let context = eval(schema, "43");
    assert_eq!(context.errors.len(), 1);
    assert_eq!(context.errors[0].error, "Const validation failed, expected: 42, got: Integer(43)");
}

#[test]
fn test_pattern() {
    let schema = "type: string\npattern: \"^[a-z]+$\"";
    let context = eval(schema, "\"hello\"");
    assert!(!context.has_errors());
    let context = eval(schema, "\"Hello7\"");
    assert_eq!(context.errors.len(), 1);
    assert_eq!(context.errors[0].error, "String does not match regular expression ^[a-z]+$!");
}

#[test]
fn test_type_foo_should_error() {
    let err = RootSchema::load_from_str("type: foo").unwrap_err();
    assert_eq!(err.message(), "Unsupported type 'foo'!");
}

#[test]
fn test_boolean_literal_true() {
    let root = RootSchema::load_from_str("true").unwrap();
    assert_eq!(*root.schema, YamlSchema::BooleanLiteral(true));
}

#[test]
fn test_boolean_literal_false() {
    let root = RootSchema::load_from_str("false").unwrap();
    assert_eq!(*root.schema, YamlSchema::BooleanLiteral(false));
}

#[test]
fn test_version() {
    assert_eq!(yaml_schema::version(), "0.1.0");
}

#[test]
fn test_format_vec() {
    let items = vec![String::from("a"), String::from("b")];
    assert_eq!(yaml_schema::format_vec(&items), "[a, b]");
}

#[test]
fn test_contains() {
    let schema = "type: array\ncontains: { type: number }";
    let context = eval(schema, "[life, universe, everything, 42]");
    assert!(!context.has_errors());
    let context = eval(schema, "[life, universe]");
    assert_eq!(context.errors.len(), 1);
    assert_eq!(context.errors[0].error, "Contains validation failed!");
}

#[test]
fn test_cli_action() {
    let opts = yaml_schema::cli::Opts {
        command: None,
        schemas: vec![],
        fail_fast: false,
        file: None,
    };
    assert_eq!(opts.action(), yaml_schema::cli::CliAction::MissingSchema);
    let opts = yaml_schema::cli::Opts {
        command: Some(yaml_schema::cli::Commands::Version),
        schemas: vec![],
        fail_fast: false,
        file: None,
    };
    assert_eq!(opts.action(), yaml_schema::cli::CliAction::PrintVersion);
}

#[test]
fn test_const_string() {
    let root = RootSchema::load_from_str("const: string value").unwrap();
    let expected = yaml_schema::ConstSchema { value: ConstValue::string(String::from("string value")) };
    assert_eq!(*root.schema, YamlSchema::Const(expected));
}

#[test]
fn test_const_integer() {
    let root = RootSchema::load_from_str("const: 42").unwrap();
    let expected = yaml_schema::ConstSchema { value: ConstValue::integer(42) };
    assert_eq!(*root.schema, YamlSchema::Const(expected));
}

#[test]
fn test_type_string() {
    let root = RootSchema::load_from_str("type: string").unwrap();
    assert_eq!(*root.schema, YamlSchema::String(yaml_schema::StringSchema::default()));
}

#[test]
fn test_integer_schema() {
    let root = RootSchema::load_from_str("type: integer").unwrap();
    assert_eq!(*root.schema, YamlSchema::Integer(yaml_schema::IntegerSchema::default()));
}

#[test]
fn test_enum_without_type() {
    let root = RootSchema::load_from_str("enum:\n  - red\n  - amber\n  - green\n  - null\n  - 42\n").unwrap();
    let expected = yaml_schema::EnumSchema {
        values: vec![
            ConstValue::string(String::from("red")),
            ConstValue::string(String::from("amber")),
            ConstValue::string(String::from("green")),
            ConstValue::null(),
            ConstValue::integer(42),
        ],
    };
    assert_eq!(*root.schema, YamlSchema::Enum(expected));
}

#[test]
fn test_metadata_kept_at_root() {
    let schema = "$id: https://example.com/s\n$schema: https://json-schema.org/draft\ntitle: a title\ndescription: words\ntype: string\n";
    let root = RootSchema::load_from_str(schema).unwrap();
    assert_eq!(root.id.as_deref(), Some("https://example.com/s"));
    assert_eq!(root.meta_schema.as_deref(), Some("https://json-schema.org/draft"));
    assert_eq!(root.title.as_deref(), Some("a title"));
    assert_eq!(root.description.as_deref(), Some("words"));
    assert_eq!(*root.schema, YamlSchema::String(yaml_schema::StringSchema::default()));
}

#[test]
fn test_invalid_pattern_is_loader_error() {
    let err = RootSchema::load_from_str("type: string\npattern: \"[\"").unwrap_err();
    assert!(matches!(err, yaml_schema::Error::RegexParsingError(_)));
}
