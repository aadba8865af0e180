use vstd::prelude::*;

use crate::ConstValue;
use crate::Error;
use crate::Number;
use crate::Pattern;
use crate::RootSchema;
use crate::YamlSchema;
use crate::node::{Node, NodeData};
use crate::pattern::{regex_compiles, regex_error_of};
use crate::render::int_str;
use crate::schemas::{
    ArraySchema, BoolOrTypedSchema, IntegerSchema, NumberSchema, ObjectSchema, StringSchema,
    TypedSchema,
};
use crate::semantics::plain_real_ok;

verus! {

// This module is the mathematical model of schema loading: for a parsed
// YAML node it defines which error, if any, loading reports — the first
// one, in the order the keys are examined — and, on success, exactly what
// the loaded schema holds. Compiled regexes are opaque, so for them the
// model fixes the kept source and its compiledness; every other field is
// pinned to the exact loaded value. The loader is proved against this
// model.

/// The failure a loading step reports: the error variant together with
/// its message text.
pub enum LoadFail {
    Unsupported(Seq<char>),
    Generic(Seq<char>),
    FloatParse(Seq<char>),
    RegexParse(Seq<char>),
}

/// Whether the returned error is the modelled failure.
pub open spec fn fail_matches(e: Error, f: LoadFail) -> bool {
    match (e, f) {
        (Error::UnsupportedType(s), LoadFail::Unsupported(m)) => s@ == m,
        (Error::GenericError(s), LoadFail::Generic(m)) => s@ == m,
        (Error::FloatParsingError(s), LoadFail::FloatParse(m)) => s@ == m,
        (Error::RegexParsingError(s), LoadFail::RegexParse(m)) => s@ == m,
        _ => false,
    }
}

/// The first failure of two sequential steps.
pub open spec fn first_fail(a: Option<LoadFail>, b: Option<LoadFail>) -> Option<LoadFail> {
    if a is Some {
        a
    } else {
        b
    }
}

// ---------------------------------------------------------------------
// key lookup
// ---------------------------------------------------------------------

/// The first index at or after `i` whose key is the string `name`.
pub open spec fn key_idx_from(entries: Seq<(Node, Node)>, name: Seq<char>, i: int) -> Option<int>
    decreases entries.len() - i,
{
    if i < 0 || i >= entries.len() {
        None
    } else if entries[i].0.data matches NodeData::String(s) && s@ == name {
        Some(i)
    } else {
        key_idx_from(entries, name, i + 1)
    }
}

/// The first entry stored under the string key `name`.
pub open spec fn key_idx(entries: Seq<(Node, Node)>, name: Seq<char>) -> Option<int> {
    key_idx_from(entries, name, 0)
}

/// Whether the mapping has an entry under the string key `name`.
pub open spec fn has_key(entries: Seq<(Node, Node)>, name: Seq<char>) -> bool {
    key_idx(entries, name) is Some
}

/// The value stored under the string key `name` (meaningful when the key
/// is there).
pub open spec fn key_node(entries: Seq<(Node, Node)>, name: Seq<char>) -> Node {
    entries[key_idx(entries, name)->Some_0].1
}

// ---------------------------------------------------------------------
// scalars
// ---------------------------------------------------------------------

/// How a metadata value renders as a string: scalars in their natural
/// form, collections rejected with the given message.
pub open spec fn scalar_string_result(v: Node, msg: Seq<char>) -> Result<Seq<char>, LoadFail> {
    match v.data {
        NodeData::String(s) => Ok(s@),
        NodeData::Integer(i) => Ok(int_str(i as int)),
        NodeData::Real(s) => Ok(s@),
        NodeData::Boolean(b) => Ok(
            if b {
                "true"@
            } else {
                "false"@
            },
        ),
        NodeData::Null => Ok("null"@),
        _ => Err(LoadFail::Unsupported(msg)),
    }
}

/// How a numeric bound loads: an integer as itself, a real by its lexical
/// form when it parses, everything else rejected.
pub open spec fn number_result(v: Node) -> Result<Number, LoadFail> {
    match v.data {
        NodeData::Integer(i) => Ok(Number::Integer(i)),
        NodeData::Real(s) => if plain_real_ok(s@) {
            Ok(Number::Float(s))
        } else {
            Err(LoadFail::FloatParse("invalid float literal"@))
        },
        _ => Err(
            LoadFail::Unsupported(
                "Expected type: integer or float, but got another kind of value"@,
            ),
        ),
    }
}

/// How a count (minLength, minProperties and friends) loads: a
/// non-negative integer that fits the machine.
pub open spec fn count_result(v: Node, msg: Seq<char>) -> Result<usize, LoadFail> {
    match v.data {
        NodeData::Integer(i) => if 0 <= i <= usize::MAX {
            Ok(i as usize)
        } else {
            Err(LoadFail::Unsupported(msg))
        },
        _ => Err(LoadFail::Unsupported(msg)),
    }
}

/// How a constant value loads: scalars only, reals by their lexical form.
pub open spec fn const_value_result(v: Node) -> Result<ConstValue, LoadFail> {
    match v.data {
        NodeData::String(s) => Ok(ConstValue::String(s)),
        NodeData::Integer(i) => Ok(ConstValue::Number(Number::Integer(i))),
        NodeData::Real(s) => if plain_real_ok(s@) {
            Ok(ConstValue::Number(Number::Float(s)))
        } else {
            Err(LoadFail::FloatParse("invalid float literal"@))
        },
        NodeData::Boolean(b) => Ok(ConstValue::Boolean(b)),
        NodeData::Null => Ok(ConstValue::Null),
        _ => Err(
            LoadFail::Unsupported("Expected a constant value, but got a collection"@),
        ),
    }
}

/// The failure of loading a pattern value, if any: the value must be a
/// string whose text the regex engine accepts.
pub open spec fn pattern_fail_of(v: Node) -> Option<LoadFail> {
    match v.data {
        NodeData::String(s) => if regex_compiles(s@) {
            None
        } else {
            Some(LoadFail::RegexParse(regex_error_of(s@)))
        },
        _ => Some(LoadFail::Unsupported("pattern expected string"@)),
    }
}

/// What a loaded pattern holds: the value's text as its kept source, in
/// compiled form.
pub open spec fn pattern_loads_to(v: Node, p: Pattern) -> bool {
    v.data matches NodeData::String(s) && p.wf() && p.source@ == s@
}

// ---------------------------------------------------------------------
// keyed fields
// ---------------------------------------------------------------------

/// The failure of an optional numeric field.
pub open spec fn num_field_fail(entries: Seq<(Node, Node)>, name: Seq<char>) -> Option<LoadFail> {
    match key_idx(entries, name) {
        None => None,
        Some(i) => match number_result(entries[i].1) {
            Ok(_) => None,
            Err(f) => Some(f),
        },
    }
}

/// The value of an optional numeric field (meaningful when it does not
/// fail).
pub open spec fn num_field_of(entries: Seq<(Node, Node)>, name: Seq<char>) -> Option<Number> {
    match key_idx(entries, name) {
        None => None,
        Some(i) => Some(number_result(entries[i].1)->Ok_0),
    }
}

/// The failure of an optional count field.
pub open spec fn count_field_fail(
    entries: Seq<(Node, Node)>,
    name: Seq<char>,
    msg: Seq<char>,
) -> Option<LoadFail> {
    match key_idx(entries, name) {
        None => None,
        Some(i) => match count_result(entries[i].1, msg) {
            Ok(_) => None,
            Err(f) => Some(f),
        },
    }
}

/// The value of an optional count field.
pub open spec fn count_field_of(entries: Seq<(Node, Node)>, name: Seq<char>, msg: Seq<char>) -> Option<
    usize,
> {
    match key_idx(entries, name) {
        None => None,
        Some(i) => Some(count_result(entries[i].1, msg)->Ok_0),
    }
}

// ---------------------------------------------------------------------
// numeric schemas
// ---------------------------------------------------------------------

/// The first failure among the five numeric constraint keys, in the order
/// they are examined.
pub open spec fn numeric_fields_fail(entries: Seq<(Node, Node)>) -> Option<LoadFail> {
    first_fail(
        num_field_fail(entries, "minimum"@),
        first_fail(
            num_field_fail(entries, "maximum"@),
            first_fail(
                num_field_fail(entries, "exclusiveMinimum"@),
                first_fail(
                    num_field_fail(entries, "exclusiveMaximum"@),
                    num_field_fail(entries, "multipleOf"@),
                ),
            ),
        ),
    )
}

/// The integer schema the five keys load to.
pub open spec fn integer_schema_of(entries: Seq<(Node, Node)>) -> IntegerSchema {
    IntegerSchema {
        minimum: num_field_of(entries, "minimum"@),
        maximum: num_field_of(entries, "maximum"@),
        exclusive_minimum: num_field_of(entries, "exclusiveMinimum"@),
        exclusive_maximum: num_field_of(entries, "exclusiveMaximum"@),
        multiple_of: num_field_of(entries, "multipleOf"@),
    }
}

/// The number schema the five keys load to.
pub open spec fn number_schema_of(entries: Seq<(Node, Node)>) -> NumberSchema {
    NumberSchema {
        minimum: num_field_of(entries, "minimum"@),
        maximum: num_field_of(entries, "maximum"@),
        exclusive_minimum: num_field_of(entries, "exclusiveMinimum"@),
        exclusive_maximum: num_field_of(entries, "exclusiveMaximum"@),
        multiple_of: num_field_of(entries, "multipleOf"@),
    }
}

// ---------------------------------------------------------------------
// string schemas
// ---------------------------------------------------------------------

/// The first failure among the string constraint keys.
pub open spec fn string_schema_fail(entries: Seq<(Node, Node)>) -> Option<LoadFail> {
    first_fail(
        count_field_fail(entries, "minLength"@, "minLength expected integer"@),
        first_fail(
            count_field_fail(entries, "maxLength"@, "maxLength expected integer"@),
            match key_idx(entries, "pattern"@) {
                None => None,
                Some(i) => pattern_fail_of(entries[i].1),
            },
        ),
    )
}

/// What a loaded string schema holds: the exact lengths, and the pattern
/// compiled from the kept source.
pub open spec fn string_schema_loads_to(entries: Seq<(Node, Node)>, s: StringSchema) -> bool {
    &&& s.min_length == count_field_of(entries, "minLength"@, "minLength expected integer"@)
    &&& s.max_length == count_field_of(entries, "maxLength"@, "maxLength expected integer"@)
    &&& match key_idx(entries, "pattern"@) {
        None => s.pattern is None,
        Some(i) => s.pattern matches Some(p) && pattern_loads_to(entries[i].1, p),
    }
}

// ---------------------------------------------------------------------
// enum and const schemas
// ---------------------------------------------------------------------

/// The first failure among the listed constant values.
pub open spec fn enum_vals_fail(vals: Seq<Node>, j: int) -> Option<LoadFail>
    decreases vals.len() - j,
{
    if j < 0 || j >= vals.len() {
        None
    } else {
        match const_value_result(vals[j]) {
            Ok(_) => enum_vals_fail(vals, j + 1),
            Err(f) => Some(f),
        }
    }
}

/// The constant values a sequence loads to, in order.
pub open spec fn enum_vals_of(vals: Seq<Node>) -> Seq<ConstValue> {
    vals.map_values(|v: Node| const_value_result(v)->Ok_0)
}

/// The failure of loading an enum schema, if any.
pub open spec fn enum_schema_fail(entries: Seq<(Node, Node)>) -> Option<LoadFail> {
    match key_idx(entries, "enum"@) {
        None => Some(LoadFail::Generic("enum: Missing value"@)),
        Some(i) => match entries[i].1.data {
            NodeData::Array(vals) => enum_vals_fail(vals@, 0),
            _ => Some(LoadFail::Generic("enum: Expected an array"@)),
        },
    }
}

/// The value list a loaded enum schema holds.
pub open spec fn enum_schema_of(entries: Seq<(Node, Node)>) -> Seq<ConstValue> {
    match key_node(entries, "enum"@).data {
        NodeData::Array(vals) => enum_vals_of(vals@),
        _ => Seq::empty(),
    }
}

/// The failure of loading a const schema, if any.
pub open spec fn const_schema_fail(entries: Seq<(Node, Node)>) -> Option<LoadFail> {
    match key_idx(entries, "const"@) {
        None => Some(LoadFail::Generic("const: Missing value"@)),
        Some(i) => match const_value_result(entries[i].1) {
            Ok(_) => None,
            Err(f) => Some(f),
        },
    }
}

/// The constant a loaded const schema holds.
pub open spec fn const_schema_of(entries: Seq<(Node, Node)>) -> ConstValue {
    const_value_result(key_node(entries, "const"@))->Ok_0
}

// ---------------------------------------------------------------------
// the recursive walk over nested schemas
// ---------------------------------------------------------------------

/// The failure of an `items` or `additionalProperties` value, if any.
pub open spec fn bool_or_typed_fail(v: Node) -> Option<LoadFail>
    decreases v, 7int, 0int,
{
    match v.data {
        NodeData::Boolean(_) => None,
        NodeData::Hash(h) => typed_fail(h@),
        _ => Some(
            LoadFail::Unsupported(
                "Expected type: boolean or hash, but got another kind of value"@,
            ),
        ),
    }
}

/// What an `items` or `additionalProperties` value loads to.
pub open spec fn bool_or_typed_loads_to(v: Node, b: BoolOrTypedSchema) -> bool
    decreases v, 7int, 0int,
{
    match v.data {
        NodeData::Boolean(x) => b == BoolOrTypedSchema::Boolean(x),
        NodeData::Hash(h) => b matches BoolOrTypedSchema::TypedSchema(t) && typed_loads_to(
            h@,
            *t,
        ),
        _ => false,
    }
}

/// The failure of the schema selected by the `type` key, if any.
pub open spec fn typed_fail(entries: Seq<(Node, Node)>) -> Option<LoadFail>
    decreases entries, 6int, 0int,
{
    match key_idx(entries, "type"@) {
        None => Some(LoadFail::Generic("No type key found in hash"@)),
        Some(i) => if 0 <= i < entries.len() {
            match entries[i].1.data {
                NodeData::String(s) => if s@ == "array"@ {
                    array_fail(entries)
                } else if s@ == "boolean"@ {
                    None
                } else if s@ == "integer"@ {
                    numeric_fields_fail(entries)
                } else if s@ == "number"@ {
                    numeric_fields_fail(entries)
                } else if s@ == "object"@ {
                    object_fail(entries)
                } else if s@ == "string"@ {
                    string_schema_fail(entries)
                } else {
                    Some(LoadFail::Unsupported(s@))
                },
                NodeData::Null => None,
                _ => Some(
                    LoadFail::Unsupported(
                        "Expected type: string, but got another kind of value"@,
                    ),
                ),
            }
        } else {
            None
        },
    }
}

/// What the schema selected by the `type` key loads to.
pub open spec fn typed_loads_to(entries: Seq<(Node, Node)>, t: TypedSchema) -> bool
    decreases entries, 6int, 0int,
{
    match key_idx(entries, "type"@) {
        None => false,
        Some(i) => if 0 <= i < entries.len() {
            match entries[i].1.data {
                NodeData::String(s) => if s@ == "array"@ {
                    t matches TypedSchema::Array(a) && array_loads_to(entries, a)
                } else if s@ == "boolean"@ {
                    t is BooleanSchema
                } else if s@ == "integer"@ {
                    t == TypedSchema::Integer(integer_schema_of(entries))
                } else if s@ == "number"@ {
                    t == TypedSchema::Number(number_schema_of(entries))
                } else if s@ == "object"@ {
                    t matches TypedSchema::Object(o) && object_loads_to(entries, o)
                } else if s@ == "string"@ {
                    t matches TypedSchema::String(ss) && string_schema_loads_to(entries, ss)
                } else {
                    false
                },
                NodeData::Null => t is Null,
                _ => false,
            }
        } else {
            false
        },
    }
}

/// One sequence element that must be a mapping loading to the schema.
pub open spec fn hash_elem_loads(v: Node, s: YamlSchema) -> bool
    decreases v, 9int, 0int,
{
    v.data matches NodeData::Hash(h) && yaml_loads_to(h@, s)
}

/// The first failure among a sequence of sub-schema mappings.
pub open spec fn schema_list_fail(vals: Seq<Node>, j: int) -> Option<LoadFail>
    decreases vals, 0int, vals.len() - j,
{
    if j < 0 || j >= vals.len() {
        None
    } else {
        match vals[j].data {
            NodeData::Hash(h) => first_fail(yaml_fail(h@), schema_list_fail(vals, j + 1)),
            _ => Some(
                LoadFail::Unsupported("Expected a hash, but got another kind of value"@),
            ),
        }
    }
}

/// What a sequence of sub-schema mappings loads to, element for element.
pub open spec fn schema_list_loads_to(vals: Seq<Node>, l: Seq<YamlSchema>) -> bool
    decreases vals, 1int, 0int,
{
    l.len() == vals.len() && (forall|j: int|
        0 <= j < vals.len() ==> hash_elem_loads(#[trigger] vals[j], l[j]))
}

/// The failure of the `items` key, if any.
pub open spec fn items_fail(entries: Seq<(Node, Node)>) -> Option<LoadFail>
    decreases entries, 2int, 0int,
{
    match key_idx(entries, "items"@) {
        None => None,
        Some(i) => if 0 <= i < entries.len() {
            bool_or_typed_fail(entries[i].1)
        } else {
            None
        },
    }
}

/// The failure of the `prefixItems` key, if any.
pub open spec fn prefix_items_fail(entries: Seq<(Node, Node)>) -> Option<LoadFail>
    decreases entries, 2int, 0int,
{
    match key_idx(entries, "prefixItems"@) {
        None => None,
        Some(i) => if 0 <= i < entries.len() {
            match entries[i].1.data {
                NodeData::Array(vals) => schema_list_fail(vals@, 0),
                _ => Some(
                    LoadFail::Unsupported(
                        "Expected an array of hashes, but got another kind of value"@,
                    ),
                ),
            }
        } else {
            None
        },
    }
}

/// The failure of the `contains` key, if any.
pub open spec fn contains_fail(entries: Seq<(Node, Node)>) -> Option<LoadFail>
    decreases entries, 2int, 0int,
{
    match key_idx(entries, "contains"@) {
        None => None,
        Some(i) => if 0 <= i < entries.len() {
            match entries[i].1.data {
                NodeData::Hash(h) => yaml_fail(h@),
                _ => Some(
                    LoadFail::Unsupported(
                        "contains: Expected a hash, but got another kind of value"@,
                    ),
                ),
            }
        } else {
            None
        },
    }
}

/// The failure of an array schema's keys, in the order `items`,
/// `prefixItems`, `contains`.
pub open spec fn array_fail(entries: Seq<(Node, Node)>) -> Option<LoadFail>
    decreases entries, 3int, 0int,
{
    first_fail(items_fail(entries), first_fail(prefix_items_fail(entries), contains_fail(entries)))
}

/// What the `items` key loads to.
pub open spec fn items_loads_to(entries: Seq<(Node, Node)>, field: Option<BoolOrTypedSchema>) -> bool
    decreases entries, 2int, 0int,
{
    match key_idx(entries, "items"@) {
        None => field is None,
        Some(i) => if 0 <= i < entries.len() {
            field matches Some(b) && bool_or_typed_loads_to(entries[i].1, b)
        } else {
            true
        },
    }
}

/// What the `prefixItems` key loads to.
pub open spec fn prefix_items_loads_to(
    entries: Seq<(Node, Node)>,
    field: Option<Vec<YamlSchema>>,
) -> bool
    decreases entries, 2int, 0int,
{
    match key_idx(entries, "prefixItems"@) {
        None => field is None,
        Some(i) => if 0 <= i < entries.len() {
            entries[i].1.data matches NodeData::Array(vals) && (field matches Some(pre)
                && schema_list_loads_to(vals@, pre@))
        } else {
            true
        },
    }
}

/// What the `contains` key loads to.
pub open spec fn contains_loads_to(
    entries: Seq<(Node, Node)>,
    field: Option<Box<YamlSchema>>,
) -> bool
    decreases entries, 2int, 0int,
{
    match key_idx(entries, "contains"@) {
        None => field is None,
        Some(i) => if 0 <= i < entries.len() {
            entries[i].1.data matches NodeData::Hash(h) && (field matches Some(cs)
                && yaml_loads_to(h@, *cs))
        } else {
            true
        },
    }
}

/// What a loaded array schema holds.
pub open spec fn array_loads_to(entries: Seq<(Node, Node)>, a: ArraySchema) -> bool
    decreases entries, 3int, 0int,
{
    &&& items_loads_to(entries, a.items)
    &&& prefix_items_loads_to(entries, a.prefix_items)
    &&& contains_loads_to(entries, a.contains)
}

/// The first failure among an object's declared properties.
pub open spec fn props_entries_fail(props: Seq<(Node, Node)>, j: int) -> Option<LoadFail>
    decreases props, 0int, props.len() - j,
{
    if j < 0 || j >= props.len() {
        None
    } else if !(props[j].0.data is String) {
        Some(LoadFail::Unsupported("Expected a string key, but got another kind of value"@))
    } else {
        match props[j].1.data {
            NodeData::Hash(h) => first_fail(yaml_fail(h@), props_entries_fail(props, j + 1)),
            _ => Some(
                LoadFail::Unsupported("Expected a hash, but got another kind of value"@),
            ),
        }
    }
}

/// What an object's declared properties load to, in order, names kept.
pub open spec fn props_loads_to(props: Seq<(Node, Node)>, list: Seq<(String, YamlSchema)>) -> bool
    decreases props, 1int, 0int,
{
    list.len() == props.len() && (forall|j: int|
        0 <= j < props.len() ==> ((#[trigger] props[j]).0.data matches NodeData::String(nm)
            && list[j].0 == nm && hash_elem_loads(props[j].1, list[j].1)))
}

/// The first failure among an object's pattern properties: each key must
/// be a string the regex engine accepts, each value a mapping.
pub open spec fn patprops_entries_fail(props: Seq<(Node, Node)>, j: int) -> Option<LoadFail>
    decreases props, 0int, props.len() - j,
{
    if j < 0 || j >= props.len() {
        None
    } else {
        match props[j].0.data {
            NodeData::String(src) => if !regex_compiles(src@) {
                Some(LoadFail::RegexParse(regex_error_of(src@)))
            } else {
                match props[j].1.data {
                    NodeData::Hash(h) => first_fail(
                        yaml_fail(h@),
                        patprops_entries_fail(props, j + 1),
                    ),
                    _ => Some(
                        LoadFail::Unsupported(
                            "Expected a hash, but got another kind of value"@,
                        ),
                    ),
                }
            },
            _ => Some(
                LoadFail::Unsupported(
                    "Expected a string key, but got another kind of value"@,
                ),
            ),
        }
    }
}

/// What an object's pattern properties load to: compiled keys with their
/// sources kept, schemas in order.
pub open spec fn patprops_loads_to(
    props: Seq<(Node, Node)>,
    list: Seq<(Pattern, YamlSchema)>,
) -> bool
    decreases props, 1int, 0int,
{
    list.len() == props.len() && (forall|j: int|
        0 <= j < props.len() ==> ((#[trigger] props[j]).0.data matches NodeData::String(src)
            && list[j].0.wf() && list[j].0.source@ == src@ && hash_elem_loads(
            props[j].1,
            list[j].1,
        )))
}

/// The failure of the `propertyNames` key, if any: a mapping carrying a
/// `pattern` string.
pub open spec fn property_names_fail(v: Node) -> Option<LoadFail> {
    match v.data {
        NodeData::Hash(h) => match key_idx(h@, "pattern"@) {
            None => Some(LoadFail::Generic("propertyNames: Missing required key: pattern"@)),
            Some(i) => pattern_fail_of(h@[i].1),
        },
        _ => Some(
            LoadFail::Unsupported(
                "propertyNames: Expected a hash, but got another kind of value"@,
            ),
        ),
    }
}

/// What the `propertyNames` key loads to.
pub open spec fn property_names_loads_to(v: Node, p: Pattern) -> bool {
    v.data matches NodeData::Hash(h) && (key_idx(h@, "pattern"@) matches Some(i)
        && pattern_loads_to(h@[i].1, p))
}

/// The failure of the `required` key, if any: a sequence of strings.
pub open spec fn required_fail(v: Node) -> Option<LoadFail> {
    match v.data {
        NodeData::Array(vals) => if forall|j: int|
            0 <= j < vals@.len() ==> (#[trigger] vals@[j]).data is String {
            None
        } else {
            Some(
                LoadFail::Unsupported(
                    "required: Expected a string, but got another kind of value"@,
                ),
            )
        },
        _ => Some(
            LoadFail::Unsupported(
                "required: Expected an array, but got another kind of value"@,
            ),
        ),
    }
}

/// What the `required` key loads to: the names in order.
pub open spec fn required_loads_to(v: Node, names: Seq<String>) -> bool {
    v.data matches NodeData::Array(vals) && names.len() == vals@.len() && (forall|j: int|
        0 <= j < vals@.len() ==> ((#[trigger] vals@[j]).data matches NodeData::String(s)
            && names[j] == s))
}

/// The failure of the `properties` key, if any.
pub open spec fn obj_props_fail(entries: Seq<(Node, Node)>) -> Option<LoadFail>
    decreases entries, 2int, 0int,
{
    match key_idx(entries, "properties"@) {
        None => None,
        Some(i) => if 0 <= i < entries.len() {
            match entries[i].1.data {
                NodeData::Hash(props) => props_entries_fail(props@, 0),
                _ => Some(
                    LoadFail::Unsupported(
                        "properties: Expected a hash, but got another kind of value"@,
                    ),
                ),
            }
        } else {
            None
        },
    }
}

/// The failure of the `additionalProperties` key, if any.
pub open spec fn obj_addl_fail(entries: Seq<(Node, Node)>) -> Option<LoadFail>
    decreases entries, 2int, 0int,
{
    match key_idx(entries, "additionalProperties"@) {
        None => None,
        Some(i) => if 0 <= i < entries.len() {
            bool_or_typed_fail(entries[i].1)
        } else {
            None
        },
    }
}

/// The failure of the `patternProperties` key, if any.
pub open spec fn obj_patprops_fail(entries: Seq<(Node, Node)>) -> Option<LoadFail>
    decreases entries, 2int, 0int,
{
    match key_idx(entries, "patternProperties"@) {
        None => None,
        Some(i) => if 0 <= i < entries.len() {
            match entries[i].1.data {
                NodeData::Hash(props) => patprops_entries_fail(props@, 0),
                _ => Some(
                    LoadFail::Unsupported(
                        "patternProperties: Expected a hash, but got another kind of value"@,
                    ),
                ),
            }
        } else {
            None
        },
    }
}

/// The failure of the `propertyNames` key, if any, at its place among the
/// object's keys.
pub open spec fn obj_propnames_fail(entries: Seq<(Node, Node)>) -> Option<LoadFail> {
    match key_idx(entries, "propertyNames"@) {
        None => None,
        Some(i) => property_names_fail(entries[i].1),
    }
}

/// The failure of the `required` key, if any, at its place among the
/// object's keys.
pub open spec fn obj_required_fail(entries: Seq<(Node, Node)>) -> Option<LoadFail> {
    match key_idx(entries, "required"@) {
        None => None,
        Some(i) => required_fail(entries[i].1),
    }
}

/// The failure of an object schema's keys, in the order `properties`,
/// `additionalProperties`, `minProperties`, `maxProperties`,
/// `patternProperties`, `propertyNames`, `required`.
pub open spec fn object_fail(entries: Seq<(Node, Node)>) -> Option<LoadFail>
    decreases entries, 3int, 0int,
{
    first_fail(
        obj_props_fail(entries),
        first_fail(
            obj_addl_fail(entries),
            first_fail(
                count_field_fail(entries, "minProperties"@, "minProperties expected integer"@),
                first_fail(
                    count_field_fail(
                        entries,
                        "maxProperties"@,
                        "maxProperties expected integer"@,
                    ),
                    first_fail(
                        obj_patprops_fail(entries),
                        first_fail(obj_propnames_fail(entries), obj_required_fail(entries)),
                    ),
                ),
            ),
        ),
    )
}

/// What the `properties` key loads to.
pub open spec fn obj_props_loads_to(
    entries: Seq<(Node, Node)>,
    field: Option<Vec<(String, YamlSchema)>>,
) -> bool
    decreases entries, 2int, 0int,
{
    match key_idx(entries, "properties"@) {
        None => field is None,
        Some(i) => if 0 <= i < entries.len() {
            entries[i].1.data matches NodeData::Hash(props) && (field matches Some(list)
                && props_loads_to(props@, list@))
        } else {
            true
        },
    }
}

/// What the `additionalProperties` key loads to.
pub open spec fn obj_addl_loads_to(
    entries: Seq<(Node, Node)>,
    field: Option<BoolOrTypedSchema>,
) -> bool
    decreases entries, 2int, 0int,
{
    match key_idx(entries, "additionalProperties"@) {
        None => field is None,
        Some(i) => if 0 <= i < entries.len() {
            field matches Some(b) && bool_or_typed_loads_to(entries[i].1, b)
        } else {
            true
        },
    }
}

/// What the `patternProperties` key loads to.
pub open spec fn obj_patprops_loads_to(
    entries: Seq<(Node, Node)>,
    field: Option<Vec<(Pattern, YamlSchema)>>,
) -> bool
    decreases entries, 2int, 0int,
{
    match key_idx(entries, "patternProperties"@) {
        None => field is None,
        Some(i) => if 0 <= i < entries.len() {
            entries[i].1.data matches NodeData::Hash(props) && (field matches Some(list)
                && patprops_loads_to(props@, list@))
        } else {
            true
        },
    }
}

/// What the `propertyNames` key loads to.
pub open spec fn obj_propnames_loads_to(entries: Seq<(Node, Node)>, field: Option<Pattern>) -> bool {
    match key_idx(entries, "propertyNames"@) {
        None => field is None,
        Some(i) => field matches Some(p) && property_names_loads_to(entries[i].1, p),
    }
}

/// What the `required` key loads to.
pub open spec fn obj_required_loads_to(entries: Seq<(Node, Node)>, field: Option<Vec<String>>) -> bool {
    match key_idx(entries, "required"@) {
        None => field is None,
        Some(i) => field matches Some(names) && required_loads_to(entries[i].1, names@),
    }
}

/// What a loaded object schema holds.
pub open spec fn object_loads_to(entries: Seq<(Node, Node)>, o: ObjectSchema) -> bool
    decreases entries, 3int, 0int,
{
    &&& obj_props_loads_to(entries, o.properties)
    &&& obj_addl_loads_to(entries, o.additional_properties)
    &&& o.min_properties == count_field_of(
        entries,
        "minProperties"@,
        "minProperties expected integer"@,
    )
    &&& o.max_properties == count_field_of(
        entries,
        "maxProperties"@,
        "maxProperties expected integer"@,
    )
    &&& obj_patprops_loads_to(entries, o.pattern_properties)
    &&& obj_propnames_loads_to(entries, o.property_names)
    &&& obj_required_loads_to(entries, o.required)
}

/// The failure of a schema mapping, if any, with the kind selected by the
/// first matching key: `type`, then `enum`, `const`, `anyOf`, `oneOf`,
/// `not`; with none of them the mapping is the empty schema.
pub open spec fn yaml_fail(entries: Seq<(Node, Node)>) -> Option<LoadFail>
    decreases entries, 8int, 0int,
{
    if has_key(entries, "type"@) {
        typed_fail(entries)
    } else if has_key(entries, "enum"@) {
        enum_schema_fail(entries)
    } else if has_key(entries, "const"@) {
        const_schema_fail(entries)
    } else if has_key(entries, "anyOf"@) {
        keyed_list_fail(entries, "anyOf"@)
    } else if has_key(entries, "oneOf"@) {
        keyed_list_fail(entries, "oneOf"@)
    } else if has_key(entries, "not"@) {
        match key_idx(entries, "not"@) {
            Some(i) => if 0 <= i < entries.len() {
                match entries[i].1.data {
                    NodeData::Hash(h) => yaml_fail(h@),
                    _ => Some(
                        LoadFail::Unsupported(
                            "not: Expected a hash, but got another kind of value"@,
                        ),
                    ),
                }
            } else {
                None
            },
            None => None,
        }
    } else {
        None
    }
}

/// The failure of a sequence-of-schemas key (`anyOf`, `oneOf`), if any.
pub open spec fn keyed_list_fail(entries: Seq<(Node, Node)>, name: Seq<char>) -> Option<LoadFail>
    decreases entries, 7int, 0int,
{
    match key_idx(entries, name) {
        Some(i) => if 0 <= i < entries.len() {
            match entries[i].1.data {
                NodeData::Array(vals) => schema_list_fail(vals@, 0),
                _ => Some(
                    LoadFail::Unsupported(
                        "Expected an array of hashes, but got another kind of value"@,
                    ),
                ),
            }
        } else {
            None
        },
        None => None,
    }
}

/// What a schema mapping loads to, with the kind selected by the first
/// matching key.
pub open spec fn yaml_loads_to(entries: Seq<(Node, Node)>, s: YamlSchema) -> bool
    decreases entries, 8int, 0int,
{
    if has_key(entries, "type"@) {
        match key_idx(entries, "type"@) {
            Some(i) => if 0 <= i < entries.len() {
                match entries[i].1.data {
                    NodeData::String(ts) => if ts@ == "array"@ {
                        s matches YamlSchema::Array(a) && array_loads_to(entries, a)
                    } else if ts@ == "boolean"@ {
                        s is BooleanSchema
                    } else if ts@ == "integer"@ {
                        s == YamlSchema::Integer(integer_schema_of(entries))
                    } else if ts@ == "number"@ {
                        s == YamlSchema::Number(number_schema_of(entries))
                    } else if ts@ == "object"@ {
                        s matches YamlSchema::Object(o) && object_loads_to(entries, o)
                    } else if ts@ == "string"@ {
                        s matches YamlSchema::String(ss) && string_schema_loads_to(entries, ss)
                    } else {
                        false
                    },
                    NodeData::Null => s is TypeNull,
                    _ => false,
                }
            } else {
                false
            },
            None => false,
        }
    } else if has_key(entries, "enum"@) {
        s matches YamlSchema::Enum(es) && es.values@ == enum_schema_of(entries)
    } else if has_key(entries, "const"@) {
        s matches YamlSchema::Const(c) && c.value == const_schema_of(entries)
    } else if has_key(entries, "anyOf"@) {
        match key_idx(entries, "anyOf"@) {
            Some(i) => if 0 <= i < entries.len() {
                entries[i].1.data matches NodeData::Array(vals) && (s matches YamlSchema::AnyOf(
                    a,
                ) && schema_list_loads_to(vals@, a.any_of@))
            } else {
                true
            },
            None => false,
        }
    } else if has_key(entries, "oneOf"@) {
        match key_idx(entries, "oneOf"@) {
            Some(i) => if 0 <= i < entries.len() {
                entries[i].1.data matches NodeData::Array(vals) && (s matches YamlSchema::OneOf(
                    a,
                ) && schema_list_loads_to(vals@, a.one_of@))
            } else {
                true
            },
            None => false,
        }
    } else if has_key(entries, "not"@) {
        match key_idx(entries, "not"@) {
            Some(i) => if 0 <= i < entries.len() {
                entries[i].1.data matches NodeData::Hash(h) && (s matches YamlSchema::Not(n)
                    && yaml_loads_to(h@, *n.not))
            } else {
                true
            },
            None => false,
        }
    } else {
        s is Empty
    }
}

// ---------------------------------------------------------------------
// the schema document root
// ---------------------------------------------------------------------

/// The failure of one metadata key that must render as a string.
pub open spec fn meta_str_fail(
    entries: Seq<(Node, Node)>,
    name: Seq<char>,
    msg: Seq<char>,
) -> Option<LoadFail> {
    match key_idx(entries, name) {
        None => None,
        Some(i) => match scalar_string_result(entries[i].1, msg) {
            Ok(_) => None,
            Err(f) => Some(f),
        },
    }
}

/// What one metadata key loads to.
pub open spec fn meta_str_loads_to(
    entries: Seq<(Node, Node)>,
    name: Seq<char>,
    msg: Seq<char>,
    field: Option<String>,
) -> bool {
    match key_idx(entries, name) {
        None => field is None,
        Some(i) => field matches Some(x) && Ok::<Seq<char>, LoadFail>(x@) == scalar_string_result(entries[i].1, msg),
    }
}

/// The first failure among the `$defs` entries.
pub open spec fn defs_entries_fail(defs: Seq<(Node, Node)>, j: int) -> Option<LoadFail>
    decreases defs, 0int, defs.len() - j,
{
    if j < 0 || j >= defs.len() {
        None
    } else {
        match scalar_string_result(defs[j].0, "key must be a string"@) {
            Err(f) => Some(f),
            Ok(_) => match defs[j].1.data {
                NodeData::Hash(h) => first_fail(yaml_fail(h@), defs_entries_fail(defs, j + 1)),
                _ => Some(
                    LoadFail::Unsupported("Expected a hash, but got another kind of value"@),
                ),
            },
        }
    }
}

/// What the `$defs` entries load to: each name rendered as a string, each
/// value a loaded schema, in order.
pub open spec fn defs_loads_to(defs: Seq<(Node, Node)>, list: Seq<(String, YamlSchema)>) -> bool
    decreases defs, 1int, 0int,
{
    list.len() == defs.len() && (forall|j: int|
        0 <= j < defs.len() ==> (Ok::<Seq<char>, LoadFail>((#[trigger] list[j]).0@)
            == scalar_string_result(defs[j].0, "key must be a string"@) && hash_elem_loads(
            defs[j].1,
            list[j].1,
        )))
}

/// The failure of the `$defs` key, if any.
pub open spec fn defs_fail(entries: Seq<(Node, Node)>) -> Option<LoadFail>
    decreases entries, 5int, 0int,
{
    match key_idx(entries, "$defs"@) {
        None => None,
        Some(i) => if 0 <= i < entries.len() {
            match entries[i].1.data {
                NodeData::Hash(defs) => defs_entries_fail(defs@, 0),
                _ => Some(
                    LoadFail::Unsupported("Expected a hash, but got another kind of value"@),
                ),
            }
        } else {
            None
        },
    }
}

/// The failure of loading a whole schema document, if any: the schema
/// itself first, then the metadata keys in the order `$id`, `$schema`,
/// `title`, `description`, `$defs`.
pub open spec fn doc_fail(doc: Node) -> Option<LoadFail>
    decreases doc, 9int, 0int,
{
    match doc.data {
        NodeData::Boolean(_) => None,
        NodeData::Null => None,
        NodeData::String(s) => if s@ == "true"@ || s@ == "false"@ {
            None
        } else {
            Some(LoadFail::Generic("Expected true or false, but got: "@ + s@))
        },
        NodeData::Hash(h) => first_fail(
            yaml_fail(h@),
            first_fail(
                meta_str_fail(h@, "$id"@, "$id must be a string"@),
                first_fail(
                    meta_str_fail(h@, "$schema"@, "$schema must be a string"@),
                    first_fail(
                        meta_str_fail(h@, "title"@, "title must be a string"@),
                        first_fail(
                            meta_str_fail(h@, "description"@, "description must be a string"@),
                            defs_fail(h@),
                        ),
                    ),
                ),
            ),
        ),
        _ => Some(
            LoadFail::Unsupported(
                "Expected a boolean, mapping, string or null at the schema root"@,
            ),
        ),
    }
}

/// A root schema with no metadata set.
pub open spec fn meta_none(root: RootSchema) -> bool {
    &&& root.id is None
    &&& root.meta_schema is None
    &&& root.title is None
    &&& root.description is None
    &&& root.defs is None
}

/// What a whole schema document loads to.
pub open spec fn doc_loads_to(doc: Node, root: RootSchema) -> bool
    decreases doc, 9int, 0int,
{
    match doc.data {
        NodeData::Boolean(b) => meta_none(root) && *root.schema == YamlSchema::BooleanLiteral(b),
        NodeData::Null => meta_none(root) && *root.schema is Empty,
        NodeData::String(s) => if s@ == "true"@ {
            meta_none(root) && *root.schema == YamlSchema::BooleanLiteral(true)
        } else if s@ == "false"@ {
            meta_none(root) && *root.schema == YamlSchema::BooleanLiteral(false)
        } else {
            false
        },
        NodeData::Hash(h) => {
            &&& yaml_loads_to(h@, *root.schema)
            &&& meta_str_loads_to(h@, "$id"@, "$id must be a string"@, root.id)
            &&& meta_str_loads_to(h@, "$schema"@, "$schema must be a string"@, root.meta_schema)
            &&& meta_str_loads_to(h@, "title"@, "title must be a string"@, root.title)
            &&& meta_str_loads_to(
                h@,
                "description"@,
                "description must be a string"@,
                root.description,
            )
            &&& match key_idx(h@, "$defs"@) {
                None => root.defs is None,
                Some(i) => if 0 <= i < h@.len() {
                    h@[i].1.data matches NodeData::Hash(defs) && (root.defs matches Some(list)
                        && defs_loads_to(defs@, list@))
                } else {
                    true
                },
            }
        },
        _ => false,
    }
}

} // verus!
