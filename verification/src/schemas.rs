use vstd::prelude::*;

use crate::Number;
use crate::ConstValue;
use crate::YamlSchema;
use crate::pattern::Pattern;

verus! {

/// Numeric constraints over the integer domain.
#[derive(Debug, PartialEq)]
pub struct IntegerSchema {
    pub minimum: Option<Number>,
    pub maximum: Option<Number>,
    pub exclusive_minimum: Option<Number>,
    pub exclusive_maximum: Option<Number>,
    pub multiple_of: Option<Number>,
}

/// Numeric constraints over any numeric domain.
#[derive(Debug, PartialEq)]
pub struct NumberSchema {
    pub minimum: Option<Number>,
    pub maximum: Option<Number>,
    pub exclusive_minimum: Option<Number>,
    pub exclusive_maximum: Option<Number>,
    pub multiple_of: Option<Number>,
}

/// Length and pattern constraints for strings. Lengths count bytes of the
/// UTF-8 form.
#[derive(Debug, PartialEq)]
pub struct StringSchema {
    pub min_length: Option<usize>,
    pub max_length: Option<usize>,
    pub pattern: Option<Pattern>,
}

/// `items`, `prefixItems` and `contains` constraints for sequences.
#[derive(Debug, PartialEq)]
pub struct ArraySchema {
    pub items: Option<BoolOrTypedSchema>,
    pub prefix_items: Option<Vec<YamlSchema>>,
    pub contains: Option<Box<YamlSchema>>,
}

/// Property, requirement and size constraints for mappings. The mappings
/// keep insertion order; regexes are compiled at load time.
#[derive(Debug, PartialEq)]
pub struct ObjectSchema {
    pub properties: Option<Vec<(String, YamlSchema)>>,
    pub required: Option<Vec<String>>,
    pub additional_properties: Option<BoolOrTypedSchema>,
    pub pattern_properties: Option<Vec<(Pattern, YamlSchema)>>,
    pub property_names: Option<Pattern>,
    pub min_properties: Option<usize>,
    pub max_properties: Option<usize>,
}

/// Equality against one constant value.
#[derive(Debug, PartialEq)]
pub struct ConstSchema {
    pub value: ConstValue,
}

/// Membership in a list of constant values.
#[derive(Debug, PartialEq)]
pub struct EnumSchema {
    pub values: Vec<ConstValue>,
}

/// Matches when at least one of the listed schemas matches.
#[derive(Debug, PartialEq)]
pub struct AnyOfSchema {
    pub any_of: Vec<YamlSchema>,
}

/// Matches when exactly one of the listed schemas matches.
#[derive(Debug, PartialEq)]
pub struct OneOfSchema {
    pub one_of: Vec<YamlSchema>,
}

/// Matches when the inner schema does not.
#[derive(Debug, PartialEq)]
pub struct NotSchema {
    pub not: Box<YamlSchema>,
}

/// Either a boolean (allow or forbid anything) or a typed sub-schema.
#[derive(Debug, PartialEq)]
pub enum BoolOrTypedSchema {
    Boolean(bool),
    TypedSchema(Box<TypedSchema>),
}

/// The subset of schemas selected by a `type:` key.
#[derive(Debug, PartialEq)]
pub enum TypedSchema {
    Null,
    Array(ArraySchema),
    BooleanSchema,
    Integer(IntegerSchema),
    Number(NumberSchema),
    Object(ObjectSchema),
    String(StringSchema),
}

/// Well-formedness of a string schema: its pattern, if any, really is the
/// compiled form of its source.
pub open spec fn string_schema_wf(s: StringSchema) -> bool {
    match s.pattern {
        Some(p) => p.wf(),
        None => true,
    }
}

/// Well-formedness of a whole schema: every regex in it was compiled from
/// the source kept beside it. The loader establishes this; the validators
/// rely on it.
pub open spec fn yaml_schema_wf(s: YamlSchema) -> bool
    decreases s, 1int, 0int,
{
    match s {
        YamlSchema::String(ss) => string_schema_wf(ss),
        YamlSchema::Array(a) => array_schema_wf(a),
        YamlSchema::Object(o) => object_schema_wf(o),
        YamlSchema::AnyOf(a) => schema_list_wf(a.any_of@, 0),
        YamlSchema::OneOf(o) => schema_list_wf(o.one_of@, 0),
        YamlSchema::Not(n) => yaml_schema_wf(*n.not),
        _ => true,
    }
}

/// Well-formedness of a typed sub-schema.
pub open spec fn typed_schema_wf(t: TypedSchema) -> bool
    decreases t, 1int, 0int,
{
    match t {
        TypedSchema::String(ss) => string_schema_wf(ss),
        TypedSchema::Array(a) => array_schema_wf(a),
        TypedSchema::Object(o) => object_schema_wf(o),
        _ => true,
    }
}

/// Well-formedness of an array schema.
pub open spec fn array_schema_wf(a: ArraySchema) -> bool
    decreases a, 1int, 0int,
{
    &&& match a.items {
        Some(BoolOrTypedSchema::TypedSchema(ts)) => typed_schema_wf(*ts),
        _ => true,
    }
    &&& match a.prefix_items {
        Some(pre) => schema_list_wf(pre@, 0),
        None => true,
    }
    &&& match a.contains {
        Some(cs) => yaml_schema_wf(*cs),
        None => true,
    }
}

/// Well-formedness of an object schema.
pub open spec fn object_schema_wf(o: ObjectSchema) -> bool
    decreases o, 1int, 0int,
{
    &&& match o.properties {
        Some(props) => prop_list_wf(props@, 0),
        None => true,
    }
    &&& match o.additional_properties {
        Some(BoolOrTypedSchema::TypedSchema(ts)) => typed_schema_wf(*ts),
        _ => true,
    }
    &&& match o.pattern_properties {
        Some(pp) => patprop_list_wf(pp@, 0),
        None => true,
    }
    &&& match o.property_names {
        Some(p) => p.wf(),
        None => true,
    }
}

/// Well-formedness of each schema in a list.
pub open spec fn schema_list_wf(l: Seq<YamlSchema>, i: int) -> bool
    decreases l, 0int, l.len() - i,
{
    if i < 0 || i >= l.len() {
        true
    } else {
        yaml_schema_wf(l[i]) && schema_list_wf(l, i + 1)
    }
}

/// Well-formedness of each property schema in a list.
pub open spec fn prop_list_wf(l: Seq<(String, YamlSchema)>, i: int) -> bool
    decreases l, 0int, l.len() - i,
{
    if i < 0 || i >= l.len() {
        true
    } else {
        yaml_schema_wf(l[i].1) && prop_list_wf(l, i + 1)
    }
}

/// Well-formedness of each pattern-property entry in a list: the pattern
/// and the schema.
pub open spec fn patprop_list_wf(l: Seq<(Pattern, YamlSchema)>, i: int) -> bool
    decreases l, 0int, l.len() - i,
{
    if i < 0 || i >= l.len() {
        true
    } else {
        l[i].0.wf() && yaml_schema_wf(l[i].1) && patprop_list_wf(l, i + 1)
    }
}

proof fn schema_wf_from(l: Seq<YamlSchema>, j: int, i: int)
    requires
        schema_list_wf(l, j),
        0 <= j <= i < l.len(),
    ensures
        yaml_schema_wf(l[i]),
    decreases i - j,
{
    if j < i {
        schema_wf_from(l, j + 1, i);
    }
}

/// Every schema of a well-formed list is well-formed.
pub proof fn lemma_schema_list_wf_elem(l: Seq<YamlSchema>, i: int)
    requires
        schema_list_wf(l, 0),
        0 <= i < l.len(),
    ensures
        yaml_schema_wf(l[i]),
{
    schema_wf_from(l, 0, i);
}

proof fn prop_wf_from(l: Seq<(String, YamlSchema)>, j: int, i: int)
    requires
        prop_list_wf(l, j),
        0 <= j <= i < l.len(),
    ensures
        yaml_schema_wf(l[i].1),
    decreases i - j,
{
    if j < i {
        prop_wf_from(l, j + 1, i);
    }
}

/// Every property schema of a well-formed list is well-formed.
pub proof fn lemma_prop_list_wf_elem(l: Seq<(String, YamlSchema)>, i: int)
    requires
        prop_list_wf(l, 0),
        0 <= i < l.len(),
    ensures
        yaml_schema_wf(l[i].1),
{
    prop_wf_from(l, 0, i);
}

proof fn patprop_wf_from(l: Seq<(Pattern, YamlSchema)>, j: int, i: int)
    requires
        patprop_list_wf(l, j),
        0 <= j <= i < l.len(),
    ensures
        l[i].0.wf() && yaml_schema_wf(l[i].1),
    decreases i - j,
{
    if j < i {
        patprop_wf_from(l, j + 1, i);
    }
}

/// Every pattern-property entry of a well-formed list is well-formed.
pub proof fn lemma_patprop_list_wf_elem(l: Seq<(Pattern, YamlSchema)>, i: int)
    requires
        patprop_list_wf(l, 0),
        0 <= i < l.len(),
    ensures
        l[i].0.wf() && yaml_schema_wf(l[i].1),
{
    patprop_wf_from(l, 0, i);
}

/// Appending a well-formed schema keeps a schema list well-formed.
pub proof fn lemma_schema_list_wf_push(l: Seq<YamlSchema>, s: YamlSchema)
    requires
        schema_list_wf(l, 0),
        yaml_schema_wf(s),
    ensures
        schema_list_wf(l.push(s), 0),
{
    schema_push_from(l, s, 0);
}

proof fn schema_push_from(l: Seq<YamlSchema>, s: YamlSchema, j: int)
    requires
        schema_list_wf(l, j),
        yaml_schema_wf(s),
        0 <= j <= l.len(),
    ensures
        schema_list_wf(l.push(s), j),
    decreases l.len() - j,
{
    assert(l.push(s).len() == l.len() + 1);
    if j < l.len() {
        assert(yaml_schema_wf(l[j]));
        assert(l.push(s)[j] == l[j]);
        schema_push_from(l, s, j + 1);
        assert(schema_list_wf(l.push(s), j + 1));
        assert(yaml_schema_wf(l.push(s)[j]));
    } else {
        assert(l.push(s)[j] == s);
        assert(schema_list_wf(l.push(s), j + 1));
    }
}

/// Appending a well-formed property keeps a property list well-formed.
pub proof fn lemma_prop_list_wf_push(l: Seq<(String, YamlSchema)>, name: String, s: YamlSchema)
    requires
        prop_list_wf(l, 0),
        yaml_schema_wf(s),
    ensures
        prop_list_wf(l.push((name, s)), 0),
{
    prop_push_from(l, name, s, 0);
}

proof fn prop_push_from(l: Seq<(String, YamlSchema)>, name: String, s: YamlSchema, j: int)
    requires
        prop_list_wf(l, j),
        yaml_schema_wf(s),
        0 <= j <= l.len(),
    ensures
        prop_list_wf(l.push((name, s)), j),
    decreases l.len() - j,
{
    assert(l.push((name, s)).len() == l.len() + 1);
    if j < l.len() {
        assert(yaml_schema_wf(l[j].1));
        assert(l.push((name, s))[j] == l[j]);
        prop_push_from(l, name, s, j + 1);
        assert(prop_list_wf(l.push((name, s)), j + 1));
        assert(yaml_schema_wf(l.push((name, s))[j].1));
    } else {
        assert(l.push((name, s))[j] == (name, s));
        assert(prop_list_wf(l.push((name, s)), j + 1));
    }
}

/// Appending a well-formed pattern entry keeps the list well-formed.
pub proof fn lemma_patprop_list_wf_push(l: Seq<(Pattern, YamlSchema)>, p: Pattern, s: YamlSchema)
    requires
        patprop_list_wf(l, 0),
        p.wf(),
        yaml_schema_wf(s),
    ensures
        patprop_list_wf(l.push((p, s)), 0),
{
    patprop_push_from(l, p, s, 0);
}

proof fn patprop_push_from(l: Seq<(Pattern, YamlSchema)>, p: Pattern, s: YamlSchema, j: int)
    requires
        patprop_list_wf(l, j),
        p.wf(),
        yaml_schema_wf(s),
        0 <= j <= l.len(),
    ensures
        patprop_list_wf(l.push((p, s)), j),
    decreases l.len() - j,
{
    assert(l.push((p, s)).len() == l.len() + 1);
    if j < l.len() {
        assert(l[j].0.wf() && yaml_schema_wf(l[j].1));
        assert(l.push((p, s))[j] == l[j]);
        patprop_push_from(l, p, s, j + 1);
        assert(patprop_list_wf(l.push((p, s)), j + 1));
    } else {
        assert(l.push((p, s))[j] == (p, s));
        assert(patprop_list_wf(l.push((p, s)), j + 1));
    }
}

impl Default for IntegerSchema {
    /// A constraint-free integer schema.
    fn default() -> (r: Self)
        ensures
            r.minimum is None && r.maximum is None && r.exclusive_minimum is None
                && r.exclusive_maximum is None && r.multiple_of is None,
    {
        IntegerSchema {
            minimum: None,
            maximum: None,
            exclusive_minimum: None,
            exclusive_maximum: None,
            multiple_of: None,
        }
    }
}

impl Default for NumberSchema {
    /// A constraint-free number schema.
    fn default() -> (r: Self)
        ensures
            r.minimum is None && r.maximum is None && r.exclusive_minimum is None
                && r.exclusive_maximum is None && r.multiple_of is None,
    {
        NumberSchema {
            minimum: None,
            maximum: None,
            exclusive_minimum: None,
            exclusive_maximum: None,
            multiple_of: None,
        }
    }
}

impl Default for StringSchema {
    /// A constraint-free string schema.
    fn default() -> (r: Self)
        ensures
            r.min_length is None && r.max_length is None && r.pattern is None,
    {
        StringSchema { min_length: None, max_length: None, pattern: None }
    }
}

impl Default for ArraySchema {
    /// A constraint-free array schema.
    fn default() -> (r: Self)
        ensures
            r.items is None && r.prefix_items is None && r.contains is None,
    {
        ArraySchema { items: None, prefix_items: None, contains: None }
    }
}

impl Default for ObjectSchema {
    /// A constraint-free object schema.
    fn default() -> (r: Self)
        ensures
            r.properties is None && r.required is None && r.additional_properties is None
                && r.pattern_properties is None && r.property_names is None
                && r.min_properties is None && r.max_properties is None,
    {
        ObjectSchema {
            properties: None,
            required: None,
            additional_properties: None,
            pattern_properties: None,
            property_names: None,
            min_properties: None,
            max_properties: None,
        }
    }
}

impl TypedSchema {
    /// A `type: null` schema.
    pub fn null() -> (r: TypedSchema)
        ensures
            r is Null,
    {
        TypedSchema::Null
    }

    /// A constraint-free `type: string` schema.
    pub fn string() -> (r: TypedSchema)
        ensures
            r matches TypedSchema::String(s) && s.min_length is None && s.max_length is None
                && s.pattern is None,
    {
        TypedSchema::String(StringSchema::default())
    }

    /// A constraint-free `type: number` schema.
    pub fn number() -> (r: TypedSchema)
        ensures
            r is Number,
    {
        TypedSchema::Number(NumberSchema::default())
    }

    /// A constraint-free `type: object` schema.
    pub fn object() -> (r: TypedSchema)
        ensures
            r is Object,
    {
        TypedSchema::Object(ObjectSchema::default())
    }
}

} // verus!
