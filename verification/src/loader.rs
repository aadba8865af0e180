use vstd::prelude::*;

use crate::ConstValue;
use crate::Error;
use crate::Number;
use crate::Pattern;
use crate::RootSchema;
use crate::YamlSchema;
use crate::loading::{
    LoadFail, array_fail, array_loads_to, bool_or_typed_fail, bool_or_typed_loads_to,
    const_schema_fail, const_schema_of, const_value_result, count_field_fail, count_field_of,
    count_result, defs_entries_fail, defs_fail, defs_loads_to, doc_fail, doc_loads_to,
    enum_schema_fail, enum_schema_of, enum_vals_fail, enum_vals_of, fail_matches, has_key,
    hash_elem_loads, integer_schema_of, items_fail, key_idx, key_idx_from, keyed_list_fail,
    meta_str_fail, num_field_fail, num_field_of, number_result, number_schema_of,
    numeric_fields_fail, obj_addl_fail, obj_patprops_fail, obj_propnames_fail, obj_props_fail,
    object_fail, object_loads_to, patprops_entries_fail, patprops_loads_to, pattern_fail_of,
    pattern_loads_to, prefix_items_fail, props_entries_fail, props_loads_to, required_fail,
    required_loads_to, scalar_string_result, schema_list_fail, schema_list_loads_to,
    string_schema_fail, string_schema_loads_to, typed_fail, typed_loads_to, yaml_fail,
    yaml_loads_to,
};
use crate::node::{Node, NodeData};
use crate::schemas::{
    array_schema_wf, object_schema_wf, prop_list_wf, schema_list_wf, string_schema_wf,
    typed_schema_wf, yaml_schema_wf, ArraySchema, BoolOrTypedSchema, ConstSchema, EnumSchema,
    IntegerSchema, NumberSchema, ObjectSchema, OneOfSchema, AnyOfSchema, NotSchema, StringSchema,
    TypedSchema,
};
use crate::validator::plain_real_ok_exec;

verus! {

// The loader turns a parsed YAML tree into the schema model, proved
// against the model of loading in `loading`: success is decided exactly by
// the model, the returned schema holds exactly the modelled values (with
// regexes pinned to their kept sources), and a failure is the model's
// first failure. Every regex is compiled here, so a loaded schema is
// well-formed and validation never compiles a pattern. Keys a schema kind
// does not consume are ignored, and the metadata keys are kept only at the
// root.

/// The index of the first entry stored under the string key `name`.
fn key_index(hash: &Vec<(Node, Node)>, name: &str) -> (r: Option<usize>)
    ensures
        match r {
            Some(ix) => ix < hash@.len() && key_idx(hash@, name@) == Some(ix as int),
            None => key_idx(hash@, name@) is None,
        },
{
    let mut i: usize = 0;
    while i < hash.len()
        invariant
            i <= hash@.len(),
            key_idx(hash@, name@) == key_idx_from(hash@, name@, i as int),
        decreases hash@.len() - i,
    {
        match &hash[i].0.data {
            NodeData::String(s) => {
                if s.eq(&String::from_str(name)) {
                    return Some(i);
                }
            },
            _ => {},
        }
        i = i + 1;
    }
    None
}

/// A scalar rendered as a string, for the metadata keys.
fn scalar_to_string(value: &Node, msg: &str) -> (r: Result<String, Error>)
    ensures
        r is Ok <==> scalar_string_result(*value, msg@) is Ok,
        r matches Ok(s) ==> scalar_string_result(*value, msg@) == Ok::<Seq<char>, LoadFail>(s@),
        r matches Err(e) ==> scalar_string_result(*value, msg@) matches Err(f) && fail_matches(
            e,
            f,
        ),
{
    match &value.data {
        NodeData::String(s) => Ok(s.clone()),
        NodeData::Integer(i) => Ok(crate::render::format_i64(*i)),
        NodeData::Real(s) => Ok(s.clone()),
        NodeData::Boolean(b) => {
            if *b {
                Ok(String::from_str("true"))
            } else {
                Ok(String::from_str("false"))
            }
        },
        NodeData::Null => Ok(String::from_str("null")),
        _ => Err(Error::UnsupportedType(String::from_str(msg))),
    }
}

/// A numeric bound: an integer, or a real whose lexical form parses under
/// plain float parsing.
fn load_number(value: &Node) -> (r: Result<Number, Error>)
    ensures
        r is Ok <==> number_result(*value) is Ok,
        r matches Ok(n) ==> number_result(*value) == Ok::<Number, LoadFail>(n),
        r matches Err(e) ==> number_result(*value) matches Err(f) && fail_matches(e, f),
{
    match &value.data {
        NodeData::Integer(i) => Ok(Number::Integer(*i)),
        NodeData::Real(s) => {
            if plain_real_ok_exec(s) {
                Ok(Number::Float(s.clone()))
            } else {
                Err(Error::FloatParsingError(String::from_str("invalid float literal")))
            }
        },
        _ => Err(
            Error::UnsupportedType(String::from_str("Expected type: integer or float, but got another kind of value")),
        ),
    }
}

/// A non-negative count (minLength, minProperties and friends).
fn load_count(value: &Node, msg: &str) -> (r: Result<usize, Error>)
    ensures
        r is Ok <==> count_result(*value, msg@) is Ok,
        r matches Ok(n) ==> count_result(*value, msg@) == Ok::<usize, LoadFail>(n),
        r matches Err(e) ==> count_result(*value, msg@) matches Err(f) && fail_matches(e, f),
{
    match &value.data {
        NodeData::Integer(i) => {
            if *i >= 0 && (*i as u64) <= (usize::MAX as u64) {
                Ok(*i as usize)
            } else {
                Err(Error::UnsupportedType(String::from_str(msg)))
            }
        },
        _ => Err(Error::UnsupportedType(String::from_str(msg))),
    }
}

/// One constant value for `const` or `enum`; only scalars have one.
fn load_const_value(value: &Node) -> (r: Result<ConstValue, Error>)
    ensures
        r is Ok <==> const_value_result(*value) is Ok,
        r matches Ok(c) ==> const_value_result(*value) == Ok::<ConstValue, LoadFail>(c),
        r matches Err(e) ==> const_value_result(*value) matches Err(f) && fail_matches(e, f),
{
    match &value.data {
        NodeData::String(s) => Ok(ConstValue::String(s.clone())),
        NodeData::Integer(i) => Ok(ConstValue::Number(Number::Integer(*i))),
        NodeData::Real(s) => {
            if plain_real_ok_exec(s) {
                Ok(ConstValue::Number(Number::Float(s.clone())))
            } else {
                Err(Error::FloatParsingError(String::from_str("invalid float literal")))
            }
        },
        NodeData::Boolean(b) => Ok(ConstValue::Boolean(*b)),
        NodeData::Null => Ok(ConstValue::Null),
        _ => Err(
            Error::UnsupportedType(String::from_str("Expected a constant value, but got a collection")),
        ),
    }
}

/// A compiled pattern from a string value.
fn load_pattern(value: &Node) -> (r: Result<Pattern, Error>)
    ensures
        r is Ok <==> pattern_fail_of(*value) is None,
        r matches Ok(p) ==> pattern_loads_to(*value, p),
        r matches Err(e) ==> pattern_fail_of(*value) matches Some(f) && fail_matches(e, f),
{
    match &value.data {
        NodeData::String(s) => Pattern::new(s.as_str()),
        _ => Err(Error::UnsupportedType(String::from_str("pattern expected string"))),
    }
}

/// An optional numeric field, by its key.
fn load_num_field(hash: &Vec<(Node, Node)>, name: &str) -> (r: Result<Option<Number>, Error>)
    ensures
        r is Ok <==> num_field_fail(hash@, name@) is None,
        r matches Ok(n) ==> n == num_field_of(hash@, name@),
        r matches Err(e) ==> num_field_fail(hash@, name@) matches Some(f) && fail_matches(e, f),
{
    match key_index(hash, name) {
        None => Ok(None),
        Some(ix) => {
            match load_number(&hash[ix].1) {
                Ok(n) => Ok(Some(n)),
                Err(e) => Err(e),
            }
        },
    }
}

/// An optional count field, by its key.
fn load_count_field(hash: &Vec<(Node, Node)>, name: &str, msg: &str) -> (r: Result<
    Option<usize>,
    Error,
>)
    ensures
        r is Ok <==> count_field_fail(hash@, name@, msg@) is None,
        r matches Ok(n) ==> n == count_field_of(hash@, name@, msg@),
        r matches Err(e) ==> count_field_fail(hash@, name@, msg@) matches Some(f)
            && fail_matches(e, f),
{
    match key_index(hash, name) {
        None => Ok(None),
        Some(ix) => {
            match load_count(&hash[ix].1, msg) {
                Ok(n) => Ok(Some(n)),
                Err(e) => Err(e),
            }
        },
    }
}

impl IntegerSchema {
    /// Builds an integer schema from the numeric constraint keys: each
    /// bound is exactly the loaded value of its key, and a value that is
    /// neither an integer nor a parsable real is the first failure.
    pub fn construct(hash: &Vec<(Node, Node)>) -> (r: Result<IntegerSchema, Error>)
        ensures
            r is Ok <==> numeric_fields_fail(hash@) is None,
            r matches Ok(s) ==> s == integer_schema_of(hash@),
            r matches Err(e) ==> numeric_fields_fail(hash@) matches Some(f) && fail_matches(
                e,
                f,
            ),
    {
        let minimum = match load_num_field(hash, "minimum") {
            Ok(n) => n,
            Err(e) => {
                return Err(e);
            },
        };
        let maximum = match load_num_field(hash, "maximum") {
            Ok(n) => n,
            Err(e) => {
                return Err(e);
            },
        };
        let exclusive_minimum = match load_num_field(hash, "exclusiveMinimum") {
            Ok(n) => n,
            Err(e) => {
                return Err(e);
            },
        };
        let exclusive_maximum = match load_num_field(hash, "exclusiveMaximum") {
            Ok(n) => n,
            Err(e) => {
                return Err(e);
            },
        };
        let multiple_of = match load_num_field(hash, "multipleOf") {
            Ok(n) => n,
            Err(e) => {
                return Err(e);
            },
        };
        Ok(IntegerSchema { minimum, maximum, exclusive_minimum, exclusive_maximum, multiple_of })
    }
}

impl NumberSchema {
    /// Builds a number schema from the numeric constraint keys, exactly as
    /// the integer schema loads its own.
    pub fn construct(hash: &Vec<(Node, Node)>) -> (r: Result<NumberSchema, Error>)
        ensures
            r is Ok <==> numeric_fields_fail(hash@) is None,
            r matches Ok(s) ==> s == number_schema_of(hash@),
            r matches Err(e) ==> numeric_fields_fail(hash@) matches Some(f) && fail_matches(
                e,
                f,
            ),
    {
        let minimum = match load_num_field(hash, "minimum") {
            Ok(n) => n,
            Err(e) => {
                return Err(e);
            },
        };
        let maximum = match load_num_field(hash, "maximum") {
            Ok(n) => n,
            Err(e) => {
                return Err(e);
            },
        };
        let exclusive_minimum = match load_num_field(hash, "exclusiveMinimum") {
            Ok(n) => n,
            Err(e) => {
                return Err(e);
            },
        };
        let exclusive_maximum = match load_num_field(hash, "exclusiveMaximum") {
            Ok(n) => n,
            Err(e) => {
                return Err(e);
            },
        };
        let multiple_of = match load_num_field(hash, "multipleOf") {
            Ok(n) => n,
            Err(e) => {
                return Err(e);
            },
        };
        Ok(NumberSchema { minimum, maximum, exclusive_minimum, exclusive_maximum, multiple_of })
    }
}

impl StringSchema {
    /// Builds a string schema: the lengths are exactly the loaded counts,
    /// the pattern is compiled here with its source kept.
    pub fn construct(hash: &Vec<(Node, Node)>) -> (r: Result<StringSchema, Error>)
        ensures
            r is Ok <==> string_schema_fail(hash@) is None,
            r matches Ok(s) ==> string_schema_loads_to(hash@, s) && string_schema_wf(s),
            r matches Err(e) ==> string_schema_fail(hash@) matches Some(f) && fail_matches(
                e,
                f,
            ),
    {
        let min_length = match load_count_field(hash, "minLength", "minLength expected integer") {
            Ok(n) => n,
            Err(e) => {
                return Err(e);
            },
        };
        let max_length = match load_count_field(hash, "maxLength", "maxLength expected integer") {
            Ok(n) => n,
            Err(e) => {
                return Err(e);
            },
        };
        let pattern = match key_index(hash, "pattern") {
            None => None,
            Some(ix) => {
                match load_pattern(&hash[ix].1) {
                    Ok(p) => Some(p),
                    Err(e) => {
                        return Err(e);
                    },
                }
            },
        };
        Ok(StringSchema { min_length, max_length, pattern })
    }
}

impl EnumSchema {
    /// Builds an enum schema: the loaded values, in order; values without
    /// a constant form are the failure.
    pub fn construct(hash: &Vec<(Node, Node)>) -> (r: Result<EnumSchema, Error>)
        ensures
            r is Ok <==> enum_schema_fail(hash@) is None,
            r matches Ok(es) ==> es.values@ == enum_schema_of(hash@),
            r matches Err(e) ==> enum_schema_fail(hash@) matches Some(f) && fail_matches(e, f),
    {
        match key_index(hash, "enum") {
            Some(ix) => {
                let v = &hash[ix].1;
                match &v.data {
                    NodeData::Array(vals) => {
                        let mut values: Vec<ConstValue> = Vec::new();
                        let mut i: usize = 0;
                        while i < vals.len()
                            invariant
                                i <= vals@.len(),
                                values@.len() == i,
                                ix < hash@.len(),
                                key_idx(hash@, "enum"@) == Some(ix as int),
                                hash@[ix as int].1.data matches NodeData::Array(vv) && vv@
                                    == vals@,
                                enum_vals_fail(vals@, 0) == enum_vals_fail(vals@, i as int),
                                forall|k: int|
                                    0 <= k < i ==> ((#[trigger] const_value_result(vals@[k]))
                                        matches Ok(c) && values@[k] == c),
                            decreases vals@.len() - i,
                        {
                            match load_const_value(&vals[i]) {
                                Ok(c) => {
                                    values.push(c);
                                },
                                Err(e) => {
                                    proof {
                                        assert(enum_vals_fail(vals@, i as int) matches Some(
                                            f,
                                        ) && fail_matches(e, f));
                                        assert(key_idx(hash@, "enum"@) == Some(ix as int));
                                    }
                                    return Err(e);
                                },
                            }
                            i = i + 1;
                        }
                        proof {
                            assert(values@ =~= enum_vals_of(vals@));
                            assert(crate::loading::key_node(hash@, "enum"@) == hash@[
                                ix as int
                            ].1);
                        }
                        Ok(EnumSchema { values })
                    },
                    _ => Err(
                        Error::GenericError(String::from_str("enum: Expected an array")),
                    ),
                }
            },
            None => Err(Error::GenericError(String::from_str("enum: Missing value"))),
        }
    }
}

impl ConstSchema {
    /// Builds a const schema: exactly the loaded constant under `const`.
    pub fn construct(hash: &Vec<(Node, Node)>) -> (r: Result<ConstSchema, Error>)
        ensures
            r is Ok <==> const_schema_fail(hash@) is None,
            r matches Ok(c) ==> c.value == const_schema_of(hash@),
            r matches Err(e) ==> const_schema_fail(hash@) matches Some(f) && fail_matches(e, f),
    {
        match key_index(hash, "const") {
            Some(ix) => {
                match load_const_value(&hash[ix].1) {
                    Ok(c) => {
                        proof {
                            assert(crate::loading::key_node(hash@, "const"@) == hash@[
                                ix as int
                            ].1);
                        }
                        Ok(ConstSchema { value: c })
                    },
                    Err(e) => Err(e),
                }
            },
            None => Err(Error::GenericError(String::from_str("const: Missing value"))),
        }
    }
}

impl TypedSchema {
    /// Builds the schema selected by the `type` key: one of the six type
    /// names or null; any other value is the failure.
    pub fn construct(hash: &Vec<(Node, Node)>) -> (r: Result<TypedSchema, Error>)
        ensures
            r is Ok <==> typed_fail(hash@) is None,
            r matches Ok(t) ==> typed_loads_to(hash@, t) && typed_schema_wf(t),
            r matches Err(e) ==> typed_fail(hash@) matches Some(f) && fail_matches(e, f),
        decreases hash@, 3int,
    {
        match key_index(hash, "type") {
            Some(ix) => {
                let tv = &hash[ix].1;
                match &tv.data {
                    NodeData::String(s) => {
                        if s.eq(&String::from_str("array")) {
                            match ArraySchema::construct(hash) {
                                Ok(a) => Ok(TypedSchema::Array(a)),
                                Err(e) => Err(e),
                            }
                        } else if s.eq(&String::from_str("boolean")) {
                            Ok(TypedSchema::BooleanSchema)
                        } else if s.eq(&String::from_str("integer")) {
                            match IntegerSchema::construct(hash) {
                                Ok(i) => Ok(TypedSchema::Integer(i)),
                                Err(e) => Err(e),
                            }
                        } else if s.eq(&String::from_str("number")) {
                            match NumberSchema::construct(hash) {
                                Ok(n) => Ok(TypedSchema::Number(n)),
                                Err(e) => Err(e),
                            }
                        } else if s.eq(&String::from_str("object")) {
                            match ObjectSchema::construct(hash) {
                                Ok(o) => Ok(TypedSchema::Object(o)),
                                Err(e) => Err(e),
                            }
                        } else if s.eq(&String::from_str("string")) {
                            match StringSchema::construct(hash) {
                                Ok(ss) => Ok(TypedSchema::String(ss)),
                                Err(e) => Err(e),
                            }
                        } else {
                            Err(Error::UnsupportedType(s.clone()))
                        }
                    },
                    NodeData::Null => Ok(TypedSchema::Null),
                    _ => Err(
                        Error::UnsupportedType(String::from_str("Expected type: string, but got another kind of value")),
                    ),
                }
            },
            None => Err(Error::GenericError(String::from_str("No type key found in hash"))),
        }
    }
}

/// Either a boolean or a typed schema, for `items` and
/// `additionalProperties`.
fn load_bool_or_typed(value: &Node) -> (r: Result<BoolOrTypedSchema, Error>)
    ensures
        r is Ok <==> bool_or_typed_fail(*value) is None,
        r matches Ok(b) ==> bool_or_typed_loads_to(*value, b) && (b
            matches BoolOrTypedSchema::TypedSchema(t) ==> typed_schema_wf(*t)),
        r matches Err(e) ==> bool_or_typed_fail(*value) matches Some(f) && fail_matches(e, f),
    decreases *value, 4int,
{
    match &value.data {
        NodeData::Boolean(b) => Ok(BoolOrTypedSchema::Boolean(*b)),
        NodeData::Hash(h) => {
            match TypedSchema::construct(h) {
                Ok(t) => Ok(BoolOrTypedSchema::TypedSchema(Box::new(t))),
                Err(e) => Err(e),
            }
        },
        _ => Err(
            Error::UnsupportedType(String::from_str("Expected type: boolean or hash, but got another kind of value")),
        ),
    }
}

impl ArraySchema {
    /// Builds an array schema: `items`, `prefixItems` and `contains`, each
    /// exactly the loaded value of its key.
    pub fn construct(hash: &Vec<(Node, Node)>) -> (r: Result<ArraySchema, Error>)
        ensures
            r is Ok <==> array_fail(hash@) is None,
            r matches Ok(a) ==> array_loads_to(hash@, a) && array_schema_wf(a),
            r matches Err(e) ==> array_fail(hash@) matches Some(f) && fail_matches(e, f),
        decreases hash@, 2int,
    {
        let items: Option<BoolOrTypedSchema> = match key_index(hash, "items") {
            None => None,
            Some(ix) => {
                match load_bool_or_typed(&hash[ix].1) {
                    Ok(b) => Some(b),
                    Err(e) => {
                        return Err(e);
                    },
                }
            },
        };
        let prefix_items: Option<Vec<YamlSchema>> = match key_index(hash, "prefixItems") {
            None => None,
            Some(pix) => {
                let v = &hash[pix].1;
                match &v.data {
                    NodeData::Array(vals) => {
                        proof {
                            assert(decreases_to!(hash@ => vals@));
                        }
                        let mut pre: Vec<YamlSchema> = Vec::new();
                        let mut i: usize = 0;
                        while i < vals.len()
                            invariant
                                i <= vals@.len(),
                                pre@.len() == i,
                                schema_list_wf(pre@, 0),
                                decreases_to!(hash@ => vals@),
                                items_fail(hash@) is None,
                                pix < hash@.len(),
                                key_idx(hash@, "prefixItems"@) == Some(pix as int),
                                hash@[pix as int].1.data matches NodeData::Array(vv) && vv@
                                    == vals@,
                                schema_list_fail(vals@, 0) == schema_list_fail(
                                    vals@,
                                    i as int,
                                ),
                                forall|k: int|
                                    0 <= k < i ==> hash_elem_loads(
                                        #[trigger] vals@[k],
                                        pre@[k],
                                    ),
                            decreases vals@.len() - i,
                        {
                            match &vals[i].data {
                                NodeData::Hash(h) => {
                                    match YamlSchema::construct(h) {
                                        Ok(s) => {
                                            proof {
                                                crate::schemas::lemma_schema_list_wf_push(
                                                    pre@,
                                                    s,
                                                );
                                            }
                                            pre.push(s);
                                        },
                                        Err(e) => {
                                            proof {
                                                assert(schema_list_fail(vals@, i as int)
                                                    matches Some(f) && fail_matches(e, f));
                                                assert(prefix_items_fail(hash@) matches Some(
                                                    f,
                                                ) && fail_matches(e, f));
                                            }
                                            return Err(e);
                                        },
                                    }
                                },
                                _ => {
                                    proof {
                                        assert(schema_list_fail(vals@, i as int) is Some);
                                    }
                                    return Err(
                                        Error::UnsupportedType(String::from_str("Expected a hash, but got another kind of value")),
                                    );
                                },
                            }
                            i = i + 1;
                        }
                        proof {
                            assert(schema_list_loads_to(vals@, pre@));
                        }
                        Some(pre)
                    },
                    _ => {
                        return Err(
                            Error::UnsupportedType(String::from_str("Expected an array of hashes, but got another kind of value")),
                        );
                    },
                }
            },
        };
        let contains: Option<Box<YamlSchema>> = match key_index(hash, "contains") {
            None => None,
            Some(ix) => {
                let v = &hash[ix].1;
                match &v.data {
                    NodeData::Hash(h) => {
                        match YamlSchema::construct(h) {
                            Ok(s) => Some(Box::new(s)),
                            Err(e) => {
                                return Err(e);
                            },
                        }
                    },
                    _ => {
                        return Err(
                            Error::UnsupportedType(String::from_str("contains: Expected a hash, but got another kind of value")),
                        );
                    },
                }
            },
        };
        Ok(ArraySchema { items, prefix_items, contains })
    }
}

impl ObjectSchema {
    /// Builds an object schema, key for key; the regexes under
    /// `patternProperties` and `propertyNames` are compiled here.
    #[verifier::rlimit(100)]
    pub fn construct(hash: &Vec<(Node, Node)>) -> (r: Result<ObjectSchema, Error>)
        ensures
            r is Ok <==> object_fail(hash@) is None,
            r matches Ok(o) ==> object_loads_to(hash@, o) && object_schema_wf(o),
            r matches Err(e) ==> object_fail(hash@) matches Some(f) && fail_matches(e, f),
        decreases hash@, 2int,
    {
        let properties: Option<Vec<(String, YamlSchema)>> = match key_index(hash, "properties") {
            None => None,
            Some(pix) => {
                let v = &hash[pix].1;
                match &v.data {
                    NodeData::Hash(props) => {
                        proof {
                            assert(decreases_to!(hash@ => props@));
                        }
                        let mut list: Vec<(String, YamlSchema)> = Vec::new();
                        let mut i: usize = 0;
                        while i < props.len()
                            invariant
                                i <= props@.len(),
                                list@.len() == i,
                                prop_list_wf(list@, 0),
                                decreases_to!(hash@ => props@),
                                pix < hash@.len(),
                                key_idx(hash@, "properties"@) == Some(pix as int),
                                hash@[pix as int].1.data matches NodeData::Hash(vv) && vv@
                                    == props@,
                                props_entries_fail(props@, 0) == props_entries_fail(
                                    props@,
                                    i as int,
                                ),
                                forall|k: int|
                                    0 <= k < i ==> ((#[trigger] props@[k]).0.data
                                        matches NodeData::String(nm) && list@[k].0 == nm
                                        && hash_elem_loads(props@[k].1, list@[k].1)),
                            decreases props@.len() - i,
                        {
                            let name: String = match &props[i].0.data {
                                NodeData::String(s) => s.clone(),
                                _ => {
                                    return Err(
                                        Error::UnsupportedType(String::from_str("Expected a string key, but got another kind of value")),
                                    );
                                },
                            };
                            match &props[i].1.data {
                                NodeData::Hash(h) => {
                                    match YamlSchema::construct(h) {
                                        Ok(s) => {
                                            proof {
                                                crate::schemas::lemma_prop_list_wf_push(
                                                    list@,
                                                    name,
                                                    s,
                                                );
                                            }
                                            list.push((name, s));
                                        },
                                        Err(e) => {
                                            proof {
                                                assert(props_entries_fail(props@, i as int)
                                                    matches Some(f) && fail_matches(e, f));
                                            }
                                            return Err(e);
                                        },
                                    }
                                },
                                _ => {
                                    return Err(
                                        Error::UnsupportedType(String::from_str("Expected a hash, but got another kind of value")),
                                    );
                                },
                            }
                            i = i + 1;
                        }
                        proof {
                            assert(props_loads_to(props@, list@));
                        }
                        Some(list)
                    },
                    _ => {
                        return Err(
                            Error::UnsupportedType(String::from_str("properties: Expected a hash, but got another kind of value")),
                        );
                    },
                }
            },
        };
        let additional_properties: Option<BoolOrTypedSchema> = match key_index(
            hash,
            "additionalProperties",
        ) {
            None => None,
            Some(ix) => {
                match load_bool_or_typed(&hash[ix].1) {
                    Ok(b) => Some(b),
                    Err(e) => {
                        return Err(e);
                    },
                }
            },
        };
        let min_properties = match load_count_field(
            hash,
            "minProperties",
            "minProperties expected integer",
        ) {
            Ok(n) => n,
            Err(e) => {
                return Err(e);
            },
        };
        let max_properties = match load_count_field(
            hash,
            "maxProperties",
            "maxProperties expected integer",
        ) {
            Ok(n) => n,
            Err(e) => {
                return Err(e);
            },
        };
        let pattern_properties: Option<Vec<(Pattern, YamlSchema)>> = match key_index(
            hash,
            "patternProperties",
        ) {
            None => None,
            Some(pix) => {
                let v = &hash[pix].1;
                match &v.data {
                    NodeData::Hash(props) => {
                        proof {
                            assert(decreases_to!(hash@ => props@));
                        }
                        let mut list: Vec<(Pattern, YamlSchema)> = Vec::new();
                        let mut i: usize = 0;
                        while i < props.len()
                            invariant
                                i <= props@.len(),
                                list@.len() == i,
                                crate::schemas::patprop_list_wf(list@, 0),
                                decreases_to!(hash@ => props@),
                                obj_props_fail(hash@) is None,
                                obj_addl_fail(hash@) is None,
                                count_field_fail(
                                    hash@,
                                    "minProperties"@,
                                    "minProperties expected integer"@,
                                ) is None,
                                count_field_fail(
                                    hash@,
                                    "maxProperties"@,
                                    "maxProperties expected integer"@,
                                ) is None,
                                pix < hash@.len(),
                                key_idx(hash@, "patternProperties"@) == Some(pix as int),
                                hash@[pix as int].1.data matches NodeData::Hash(vv) && vv@
                                    == props@,
                                patprops_entries_fail(props@, 0) == patprops_entries_fail(
                                    props@,
                                    i as int,
                                ),
                                forall|k: int|
                                    0 <= k < i ==> ((#[trigger] props@[k]).0.data
                                        matches NodeData::String(src) && list@[k].0.wf()
                                        && list@[k].0.source@ == src@ && hash_elem_loads(
                                        props@[k].1,
                                        list@[k].1,
                                    )),
                            decreases props@.len() - i,
                        {
                            let pat: Pattern = match &props[i].0.data {
                                NodeData::String(s) => {
                                    match Pattern::new(s.as_str()) {
                                        Ok(p) => p,
                                        Err(e) => {
                                            proof {
                                                assert(patprops_entries_fail(props@, i as int)
                                                    matches Some(f) && fail_matches(e, f));
                                            }
                                            return Err(e);
                                        },
                                    }
                                },
                                _ => {
                                    return Err(
                                        Error::UnsupportedType(String::from_str("Expected a string key, but got another kind of value")),
                                    );
                                },
                            };
                            match &props[i].1.data {
                                NodeData::Hash(h) => {
                                    match YamlSchema::construct(h) {
                                        Ok(s) => {
                                            proof {
                                                crate::schemas::lemma_patprop_list_wf_push(
                                                    list@,
                                                    pat,
                                                    s,
                                                );
                                            }
                                            list.push((pat, s));
                                        },
                                        Err(e) => {
                                            proof {
                                                assert(patprops_entries_fail(props@, i as int)
                                                    matches Some(f) && fail_matches(e, f));
                                            }
                                            return Err(e);
                                        },
                                    }
                                },
                                _ => {
                                    return Err(
                                        Error::UnsupportedType(String::from_str("Expected a hash, but got another kind of value")),
                                    );
                                },
                            }
                            i = i + 1;
                        }
                        proof {
                            assert(patprops_loads_to(props@, list@));
                        }
                        Some(list)
                    },
                    _ => {
                        return Err(
                            Error::UnsupportedType(String::from_str("patternProperties: Expected a hash, but got another kind of value")),
                        );
                    },
                }
            },
        };
        let property_names: Option<Pattern> = match key_index(hash, "propertyNames") {
            None => None,
            Some(ix) => {
                let v = &hash[ix].1;
                match &v.data {
                    NodeData::Hash(h) => {
                        match key_index(h, "pattern") {
                            Some(qix) => {
                                match load_pattern(&h[qix].1) {
                                    Ok(p) => Some(p),
                                    Err(e) => {
                                        return Err(e);
                                    },
                                }
                            },
                            None => {
                                return Err(
                                    Error::GenericError(String::from_str("propertyNames: Missing required key: pattern")),
                                );
                            },
                        }
                    },
                    _ => {
                        return Err(
                            Error::UnsupportedType(String::from_str("propertyNames: Expected a hash, but got another kind of value")),
                        );
                    },
                }
            },
        };
        let required: Option<Vec<String>> = match key_index(hash, "required") {
            None => None,
            Some(rix) => {
                let v = &hash[rix].1;
                match &v.data {
                    NodeData::Array(vals) => {
                        let mut names: Vec<String> = Vec::new();
                        let mut i: usize = 0;
                        while i < vals.len()
                            invariant
                                i <= vals@.len(),
                                names@.len() == i,
                                obj_props_fail(hash@) is None,
                                obj_addl_fail(hash@) is None,
                                count_field_fail(
                                    hash@,
                                    "minProperties"@,
                                    "minProperties expected integer"@,
                                ) is None,
                                count_field_fail(
                                    hash@,
                                    "maxProperties"@,
                                    "maxProperties expected integer"@,
                                ) is None,
                                obj_patprops_fail(hash@) is None,
                                obj_propnames_fail(hash@) is None,
                                rix < hash@.len(),
                                key_idx(hash@, "required"@) == Some(rix as int),
                                hash@[rix as int].1.data matches NodeData::Array(vv) && vv@
                                    == vals@,
                                forall|k: int|
                                    0 <= k < i ==> ((#[trigger] vals@[k]).data
                                        matches NodeData::String(s) && names@[k] == s),
                            decreases vals@.len() - i,
                        {
                            match &vals[i].data {
                                NodeData::String(s) => {
                                    names.push(s.clone());
                                },
                                _ => {
                                    proof {
                                        assert(!((#[trigger] vals@[i as int]).data is String));
                                        assert(required_fail(hash@[rix as int].1) is Some);
                                    }
                                    return Err(
                                        Error::UnsupportedType(String::from_str("required: Expected a string, but got another kind of value")),
                                    );
                                },
                            }
                            i = i + 1;
                        }
                        proof {
                            assert(required_loads_to(hash@[rix as int].1, names@));
                            assert(required_fail(hash@[rix as int].1) is None);
                        }
                        Some(names)
                    },
                    _ => {
                        return Err(
                            Error::UnsupportedType(String::from_str("required: Expected an array, but got another kind of value")),
                        );
                    },
                }
            },
        };
        Ok(
            ObjectSchema {
                properties,
                required,
                additional_properties,
                pattern_properties,
                property_names,
                min_properties,
                max_properties,
            },
        )
    }
}

impl YamlSchema {
    /// Builds a schema from a mapping node, selecting the kind from its
    /// keys: `type` first, then `enum`, `const`, `anyOf`, `oneOf`, `not`;
    /// with none of them the schema is empty.
    pub fn construct(hash: &Vec<(Node, Node)>) -> (r: Result<YamlSchema, Error>)
        ensures
            r is Ok <==> yaml_fail(hash@) is None,
            r matches Ok(s) ==> yaml_loads_to(hash@, s) && yaml_schema_wf(s),
            r matches Err(e) ==> yaml_fail(hash@) matches Some(f) && fail_matches(e, f),
        decreases hash@, 4int,
    {
        if key_index(hash, "type").is_some() {
            proof {
                assert(has_key(hash@, "type"@));
                assert(yaml_fail(hash@) == typed_fail(hash@));
            }
            match TypedSchema::construct(hash) {
                Ok(t) => {
                    let s = YamlSchema::from(t);
                    proof {
                        assert(yaml_loads_to(hash@, s));
                    }
                    Ok(s)
                },
                Err(e) => Err(e),
            }
        } else if key_index(hash, "enum").is_some() {
            proof {
                assert(yaml_fail(hash@) == enum_schema_fail(hash@));
            }
            match EnumSchema::construct(hash) {
                Ok(es) => Ok(YamlSchema::Enum(es)),
                Err(e) => Err(e),
            }
        } else if key_index(hash, "const").is_some() {
            proof {
                assert(yaml_fail(hash@) == const_schema_fail(hash@));
            }
            match ConstSchema::construct(hash) {
                Ok(c) => Ok(YamlSchema::Const(c)),
                Err(e) => Err(e),
            }
        } else if let Some(ix) = key_index(hash, "anyOf") {
            proof {
                assert(yaml_fail(hash@) == keyed_list_fail(hash@, "anyOf"@));
                assert(keyed_list_fail(hash@, "anyOf"@) == (match hash@[ix as int].1.data {
                    NodeData::Array(vals) => schema_list_fail(vals@, 0),
                    _ => Some(
                        LoadFail::Unsupported(
                            "Expected an array of hashes, but got another kind of value"@,
                        ),
                    ),
                }));
            }
            match load_schema_list(&hash[ix].1) {
                Ok(l) => Ok(YamlSchema::AnyOf(AnyOfSchema { any_of: l })),
                Err(e) => Err(e),
            }
        } else if let Some(ix) = key_index(hash, "oneOf") {
            proof {
                assert(yaml_fail(hash@) == keyed_list_fail(hash@, "oneOf"@));
                assert(keyed_list_fail(hash@, "oneOf"@) == (match hash@[ix as int].1.data {
                    NodeData::Array(vals) => schema_list_fail(vals@, 0),
                    _ => Some(
                        LoadFail::Unsupported(
                            "Expected an array of hashes, but got another kind of value"@,
                        ),
                    ),
                }));
            }
            match load_schema_list(&hash[ix].1) {
                Ok(l) => Ok(YamlSchema::OneOf(OneOfSchema { one_of: l })),
                Err(e) => Err(e),
            }
        } else if let Some(ix) = key_index(hash, "not") {
            proof {
                assert(yaml_fail(hash@) == (match hash@[ix as int].1.data {
                    NodeData::Hash(h) => yaml_fail(h@),
                    _ => Some(
                        LoadFail::Unsupported(
                            "not: Expected a hash, but got another kind of value"@,
                        ),
                    ),
                }));
            }
            let v = &hash[ix].1;
            match &v.data {
                NodeData::Hash(h) => {
                    match YamlSchema::construct(h) {
                        Ok(s) => Ok(YamlSchema::Not(NotSchema { not: Box::new(s) })),
                        Err(e) => Err(e),
                    }
                },
                _ => Err(
                    Error::UnsupportedType(String::from_str("not: Expected a hash, but got another kind of value")),
                ),
            }
        } else {
            proof {
                assert(yaml_fail(hash@) is None);
            }
            Ok(YamlSchema::Empty)
        }
    }
}

/// A sequence of mapping nodes, each built into a schema, in order.
fn load_schema_list(value: &Node) -> (r: Result<Vec<YamlSchema>, Error>)
    ensures
        r is Ok <==> (value.data matches NodeData::Array(vals) && schema_list_fail(
            vals@,
            0,
        ) is None),
        r matches Ok(l) ==> value.data matches NodeData::Array(vals) && schema_list_loads_to(
            vals@,
            l@,
        ) && schema_list_wf(l@, 0),
        r matches Err(e) ==> ({
            let f = match value.data {
                NodeData::Array(vals) => schema_list_fail(vals@, 0),
                _ => Some(
                    LoadFail::Unsupported(
                        "Expected an array of hashes, but got another kind of value"@,
                    ),
                ),
            };
            f matches Some(ff) && fail_matches(e, ff)
        }),
    decreases *value, 5int,
{
    match &value.data {
        NodeData::Array(vals) => {
            proof {
                assert(decreases_to!(*value => vals@));
            }
            let mut list: Vec<YamlSchema> = Vec::new();
            let mut i: usize = 0;
            while i < vals.len()
                invariant
                    i <= vals@.len(),
                    list@.len() == i,
                    schema_list_wf(list@, 0),
                    decreases_to!(*value => vals@),
                    value.data matches NodeData::Array(vv) && vv@ == vals@,
                    schema_list_fail(vals@, 0) == schema_list_fail(vals@, i as int),
                    forall|k: int|
                        0 <= k < i ==> hash_elem_loads(#[trigger] vals@[k], list@[k]),
                decreases vals@.len() - i,
            {
                match &vals[i].data {
                    NodeData::Hash(h) => {
                        match YamlSchema::construct(h) {
                            Ok(s) => {
                                proof {
                                    crate::schemas::lemma_schema_list_wf_push(list@, s);
                                }
                                list.push(s);
                            },
                            Err(e) => {
                                proof {
                                    assert(schema_list_fail(vals@, i as int) matches Some(f)
                                        && fail_matches(e, f));
                                }
                                return Err(e);
                            },
                        }
                    },
                    _ => {
                        return Err(
                            Error::UnsupportedType(String::from_str("Expected a hash, but got another kind of value")),
                        );
                    },
                }
                i = i + 1;
            }
            proof {
                assert(schema_list_loads_to(vals@, list@));
            }
            Ok(list)
        },
        _ => Err(
            Error::UnsupportedType(String::from_str("Expected an array of hashes, but got another kind of value")),
        ),
    }
}

/// Loads a whole schema document: the schema selected per the mapping's
/// keys, with the metadata keys kept on the root.
pub fn load_from_doc(doc: &Node) -> (r: Result<RootSchema, Error>)
    ensures
        r is Ok <==> doc_fail(*doc) is None,
        r matches Ok(root) ==> doc_loads_to(*doc, root) && yaml_schema_wf(*root.schema),
        r matches Err(e) ==> doc_fail(*doc) matches Some(f) && fail_matches(e, f),
{
    match &doc.data {
        NodeData::Boolean(b) => Ok(RootSchema::new(YamlSchema::boolean_literal(*b))),
        NodeData::Null => Ok(RootSchema::new(YamlSchema::Empty)),
        NodeData::String(s) => {
            if s.eq(&String::from_str("true")) {
                Ok(RootSchema::new(YamlSchema::boolean_literal(true)))
            } else if s.eq(&String::from_str("false")) {
                Ok(RootSchema::new(YamlSchema::boolean_literal(false)))
            } else {
                let mut m = String::from_str("Expected true or false, but got: ");
                m.append(s.as_str());
                proof {
                    assert(m@ =~= "Expected true or false, but got: "@ + s@);
                }
                Err(Error::GenericError(m))
            }
        },
        NodeData::Hash(hash) => {
            let mut root = match YamlSchema::construct(hash) {
                Ok(s) => RootSchema::new(s),
                Err(e) => {
                    return Err(e);
                },
            };
            if let Some(ix) = key_index(hash, "$id") {
                match scalar_to_string(&hash[ix].1, "$id must be a string") {
                    Ok(s) => {
                        root.id = Some(s);
                    },
                    Err(e) => {
                        return Err(e);
                    },
                }
            }
            if let Some(ix) = key_index(hash, "$schema") {
                match scalar_to_string(&hash[ix].1, "$schema must be a string") {
                    Ok(s) => {
                        root.meta_schema = Some(s);
                    },
                    Err(e) => {
                        return Err(e);
                    },
                }
            }
            if let Some(ix) = key_index(hash, "title") {
                match scalar_to_string(&hash[ix].1, "title must be a string") {
                    Ok(s) => {
                        root.title = Some(s);
                    },
                    Err(e) => {
                        return Err(e);
                    },
                }
            }
            if let Some(ix) = key_index(hash, "description") {
                match scalar_to_string(&hash[ix].1, "description must be a string") {
                    Ok(s) => {
                        root.description = Some(s);
                    },
                    Err(e) => {
                        return Err(e);
                    },
                }
            }
            if let Some(dix) = key_index(hash, "$defs") {
                let v = &hash[dix].1;
                match &v.data {
                    NodeData::Hash(defs) => {
                        proof {
                            assert(decreases_to!(hash@ => defs@));
                        }
                        let mut list: Vec<(String, YamlSchema)> = Vec::new();
                        let mut i: usize = 0;
                        while i < defs.len()
                            invariant
                                i <= defs@.len(),
                                list@.len() == i,
                                decreases_to!(hash@ => defs@),
                                yaml_fail(hash@) is None,
                                meta_str_fail(hash@, "$id"@, "$id must be a string"@) is None,
                                meta_str_fail(
                                    hash@,
                                    "$schema"@,
                                    "$schema must be a string"@,
                                ) is None,
                                meta_str_fail(hash@, "title"@, "title must be a string"@)
                                    is None,
                                meta_str_fail(
                                    hash@,
                                    "description"@,
                                    "description must be a string"@,
                                ) is None,
                                dix < hash@.len(),
                                doc.data matches NodeData::Hash(hh) && hh@ == hash@,
                                key_idx(hash@, "$defs"@) == Some(dix as int),
                                hash@[dix as int].1.data matches NodeData::Hash(vv) && vv@
                                    == defs@,
                                defs_entries_fail(defs@, 0) == defs_entries_fail(
                                    defs@,
                                    i as int,
                                ),
                                forall|k: int|
                                    0 <= k < i ==> (Ok::<Seq<char>, LoadFail>(
                                        (#[trigger] list@[k]).0@,
                                    ) == scalar_string_result(
                                        defs@[k].0,
                                        "key must be a string"@,
                                    ) && hash_elem_loads(defs@[k].1, list@[k].1)),
                            decreases defs@.len() - i,
                        {
                            let name = match scalar_to_string(&defs[i].0, "key must be a string") {
                                Ok(n) => n,
                                Err(e) => {
                                    proof {
                                        assert(defs_entries_fail(defs@, i as int) matches Some(
                                            f,
                                        ) && fail_matches(e, f));
                                        assert(defs_fail(hash@) == defs_entries_fail(defs@, 0));
                                        assert(doc_fail(*doc) == defs_fail(hash@));
                                    }
                                    return Err(e);
                                },
                            };
                            match &defs[i].1.data {
                                NodeData::Hash(h) => {
                                    match YamlSchema::construct(h) {
                                        Ok(s) => {
                                            list.push((name, s));
                                        },
                                        Err(e) => {
                                            proof {
                                                assert(defs_entries_fail(defs@, i as int)
                                                    matches Some(f) && fail_matches(e, f));
                                                assert(defs_fail(hash@) == defs_entries_fail(
                                                    defs@,
                                                    0,
                                                ));
                                                assert(doc_fail(*doc) == defs_fail(hash@));
                                            }
                                            return Err(e);
                                        },
                                    }
                                },
                                _ => {
                                    proof {
                                        assert(defs_entries_fail(defs@, i as int) is Some);
                                        assert(defs_fail(hash@) == defs_entries_fail(defs@, 0));
                                        assert(doc_fail(*doc) == defs_fail(hash@));
                                    }
                                    return Err(
                                        Error::UnsupportedType(String::from_str("Expected a hash, but got another kind of value")),
                                    );
                                },
                            }
                            i = i + 1;
                        }
                        proof {
                            assert(defs_loads_to(defs@, list@));
                        }
                        root.defs = Some(list);
                    },
                    _ => {
                        return Err(
                            Error::UnsupportedType(String::from_str("Expected a hash, but got another kind of value")),
                        );
                    },
                }
            }
            Ok(root)
        },
        _ => Err(
            Error::UnsupportedType(String::from_str("Expected a boolean, mapping, string or null at the schema root")),
        ),
    }
}

} // verus!
