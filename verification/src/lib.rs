use vstd::prelude::*;

pub mod cli;
pub mod engine;
pub mod error;
pub mod laws;
pub mod loader;
pub mod loading;
pub mod messages;
pub mod node;
pub mod pattern;
pub mod reals;
pub mod render;
pub mod schemas;
pub mod semantics;
pub mod validation;
pub mod validator;

pub use engine::Engine;
pub use error::Error;
pub use validation::Context;
pub use validation::LineCol;
pub use validation::ValidationError;
pub use loader::load_from_doc;
pub use pattern::Pattern;
pub use schemas::AnyOfSchema;
pub use schemas::ArraySchema;
pub use schemas::BoolOrTypedSchema;
pub use schemas::ConstSchema;
pub use schemas::EnumSchema;
pub use schemas::IntegerSchema;
pub use schemas::NotSchema;
pub use schemas::NumberSchema;
pub use schemas::ObjectSchema;
pub use schemas::OneOfSchema;
pub use schemas::StringSchema;
pub use schemas::TypedSchema;

verus! {

/// A Number is either an integer or a float; floats keep the lexical text
/// they were written with, so that no precision is lost.
#[derive(Debug, PartialEq)]
pub enum Number {
    Integer(i64),
    Float(String),
}

impl Number {
    /// Create a new integer Number.
    pub fn integer(value: i64) -> (r: Number)
        ensures
            r == Number::Integer(value),
    {
        Number::Integer(value)
    }

    /// Create a new float Number from its lexical text.
    pub fn float(value: String) -> (r: Number)
        ensures
            r == Number::Float(value),
    {
        Number::Float(value)
    }
}

/// The canonical, comparable form of YAML scalars used for `const` and
/// `enum` matching.
#[derive(Debug, PartialEq)]
pub enum ConstValue {
    Boolean(bool),
    Null,
    Number(Number),
    String(String),
}

impl ConstValue {
    /// A boolean constant.
    pub fn boolean(value: bool) -> (r: ConstValue)
        ensures
            r == ConstValue::Boolean(value),
    {
        ConstValue::Boolean(value)
    }

    /// An integer constant.
    pub fn integer(value: i64) -> (r: ConstValue)
        ensures
            r == ConstValue::Number(Number::Integer(value)),
    {
        ConstValue::Number(Number::Integer(value))
    }

    /// A float constant from its lexical text.
    pub fn float(value: String) -> (r: ConstValue)
        ensures
            r == ConstValue::Number(Number::Float(value)),
    {
        ConstValue::Number(Number::Float(value))
    }

    /// The null constant.
    pub fn null() -> (r: ConstValue)
        ensures
            r == ConstValue::Null,
    {
        ConstValue::Null
    }

    /// A string constant.
    pub fn string(value: String) -> (r: ConstValue)
        ensures
            r == ConstValue::String(value),
    {
        ConstValue::String(value)
    }
}

/// YamlSchema is the core of the validation model.
#[derive(Debug, PartialEq)]
pub enum YamlSchema {
    Empty,
    BooleanLiteral(bool),
    Const(ConstSchema),
    TypeNull,
    Array(ArraySchema),
    BooleanSchema,
    Integer(IntegerSchema),
    Number(NumberSchema),
    Object(ObjectSchema),
    String(StringSchema),
    Enum(EnumSchema),
    AnyOf(AnyOfSchema),
    OneOf(OneOfSchema),
    Not(NotSchema),
}

impl YamlSchema {
    /// The `true` or `false` schema.
    pub fn boolean_literal(value: bool) -> (r: YamlSchema)
        ensures
            r == YamlSchema::BooleanLiteral(value),
    {
        YamlSchema::BooleanLiteral(value)
    }
}

impl Default for YamlSchema {
    /// The empty schema, which matches anything.
    fn default() -> (r: Self)
        ensures
            r is Empty,
    {
        YamlSchema::Empty
    }
}

/// Converts (upcast) a TypedSchema to a YamlSchema; a YamlSchema is a
/// superset of a TypedSchema, so this is a lossless conversion.
impl From<TypedSchema> for YamlSchema {
    fn from(schema: TypedSchema) -> (r: Self) {
        match schema {
            TypedSchema::Array(array_schema) => YamlSchema::Array(array_schema),
            TypedSchema::BooleanSchema => YamlSchema::BooleanSchema,
            TypedSchema::Null => YamlSchema::TypeNull,
            TypedSchema::Integer(integer_schema) => YamlSchema::Integer(integer_schema),
            TypedSchema::Number(number_schema) => YamlSchema::Number(number_schema),
            TypedSchema::Object(object_schema) => YamlSchema::Object(object_schema),
            TypedSchema::String(string_schema) => YamlSchema::String(string_schema),
        }
    }
}

impl vstd::std_specs::convert::FromSpecImpl<TypedSchema> for YamlSchema {
    open spec fn obeys_from_spec() -> bool {
        true
    }

    open spec fn from_spec(schema: TypedSchema) -> Self {
        match schema {
            TypedSchema::Array(array_schema) => YamlSchema::Array(array_schema),
            TypedSchema::BooleanSchema => YamlSchema::BooleanSchema,
            TypedSchema::Null => YamlSchema::TypeNull,
            TypedSchema::Integer(integer_schema) => YamlSchema::Integer(integer_schema),
            TypedSchema::Number(number_schema) => YamlSchema::Number(number_schema),
            TypedSchema::Object(object_schema) => YamlSchema::Object(object_schema),
            TypedSchema::String(string_schema) => YamlSchema::String(string_schema),
        }
    }
}

/// A RootSchema is a schema document: the schema itself together with the
/// metadata keys recognized at the root.
#[derive(Debug, PartialEq)]
pub struct RootSchema {
    pub id: Option<String>,
    pub meta_schema: Option<String>,
    pub title: Option<String>,
    pub description: Option<String>,
    pub defs: Option<Vec<(String, YamlSchema)>>,
    pub schema: Box<YamlSchema>,
}

impl RootSchema {
    /// Create a new RootSchema around the given schema, with no metadata.
    pub fn new(schema: YamlSchema) -> (r: RootSchema)
        ensures
            r.id is None && r.meta_schema is None && r.title is None && r.description is None
                && r.defs is None && *r.schema == schema,
    {
        RootSchema {
            id: None,
            meta_schema: None,
            title: None,
            description: None,
            defs: None,
            schema: Box::new(schema),
        }
    }
}

impl Default for RootSchema {
    /// A RootSchema with an empty schema and no metadata.
    fn default() -> (r: Self)
        ensures
            r.id is None && r.meta_schema is None && r.title is None && r.description is None
                && r.defs is None && *r.schema is Empty,
    {
        RootSchema::new(YamlSchema::Empty)
    }
}

/// Returns the library version, which reflects the crate version.
pub fn version() -> (r: String)
    ensures
        r@ == "0.1.0"@,
{
    String::from_str("0.1.0")
}

/// Formats a vector of rendered values as a string, by joining them with
/// commas inside brackets.
pub open spec fn joined_with_commas(items: Seq<Seq<char>>) -> Seq<char>
    decreases items.len(),
{
    if items.len() == 0 {
        Seq::empty()
    } else if items.len() == 1 {
        items[0]
    } else {
        items[0] + ", "@ + joined_with_commas(items.skip(1))
    }
}

/// Formats a vector of strings as a single string, joining the entries with
/// commas inside brackets.
pub fn format_vec(vec: &Vec<String>) -> (r: String)
    ensures
        r@ == "["@ + joined_with_commas(vec@.map_values(|s: String| s@)) + "]"@,
{
    proof {
        reveal_strlit("[");
        reveal_strlit("]");
        reveal_strlit(", ");
    }
    let mut out = String::from_str("[");
    let ghost views: Seq<Seq<char>> = vec@.map_values(|s: String| s@);
    let mut i: usize = 0;
    while i < vec.len()
        invariant
            views == vec@.map_values(|s: String| s@),
            i <= vec@.len(),
            out@ == "["@ + joined_with_commas(views.take(i as int)),
        decreases vec@.len() - i,
    {
        proof {
            reveal_strlit(", ");
        }
        if i > 0 {
            out.append(", ");
        }
        out.append(vec[i].as_str());
        proof {
            lemma_joined_snoc(views.take(i as int), views[i as int]);
            assert(views.take(i + 1 as int) =~= views.take(i as int).push(views[i as int]));
            assert(out@ =~= "["@ + joined_with_commas(views.take(i + 1 as int)));
        }
        i = i + 1;
    }
    out.append("]");
    proof {
        assert(views.take(vec@.len() as int) =~= views);
        assert(out@ =~= "["@ + joined_with_commas(views) + "]"@);
    }
    out
}

proof fn lemma_joined_snoc(items: Seq<Seq<char>>, last: Seq<char>)
    ensures
        joined_with_commas(items.push(last)) == if items.len() == 0 {
            last
        } else {
            joined_with_commas(items) + ", "@ + last
        },
    decreases items.len(),
{
    let whole = items.push(last);
    assert(whole.len() == items.len() + 1);
    if items.len() == 0 {
        assert(joined_with_commas(whole) == whole[0]);
        assert(whole[0] == last);
    } else if items.len() == 1 {
        assert(whole[0] == items[0]);
        assert(whole.skip(1) =~= seq![last]);
        assert(joined_with_commas(whole) == whole[0] + ", "@ + joined_with_commas(whole.skip(1)));
        assert(joined_with_commas(items) == items[0]);
        assert(joined_with_commas(whole) =~= joined_with_commas(items) + ", "@ + last);
    } else {
        assert(whole[0] == items[0]);
        assert(whole.skip(1) =~= items.skip(1).push(last));
        lemma_joined_snoc(items.skip(1), last);
        assert(joined_with_commas(whole) =~= joined_with_commas(items) + ", "@ + last);
    }
}

} // verus!
