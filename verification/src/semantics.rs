use vstd::prelude::*;

use crate::Number;
use crate::ConstValue;
use crate::YamlSchema;
use crate::joined_with_commas;
use crate::node::{Node, NodeData, data_debug, data_value_str, escaped};
use crate::pattern::regex_match_of;
use crate::reals::{
    real_parse_ok_of, real_lt_of, real_eq_of, real_integral_of, real_trunc_of, real_rem_zero_of,
    real_display_of,
};
use crate::render::{dec_digits, int_str};
use crate::schemas::{
    ArraySchema, BoolOrTypedSchema, ConstSchema, EnumSchema, IntegerSchema, NumberSchema,
    ObjectSchema, StringSchema, TypedSchema,
};
use vstd::utf8::encode_utf8;

verus! {

// This module is the mathematical model of validation: for a schema and a
// document node it defines exactly which errors are recorded, in which
// order, with which message and at which location, together with the one
// way a validation can abort. The executable validators are proved against
// this model.

/// One recorded validation error, relative to the place in the document
/// where the validation started: `path` holds the path segments appended
/// below that place, `loc` the (line, column) shown for the error, `msg`
/// the message text.
pub struct ErrItem {
    pub path: Seq<Seq<char>>,
    pub loc: Option<(usize, usize)>,
    pub msg: Seq<char>,
}

/// What one validation walk does: the errors it records, in order, and —
/// when it stops early on an internal type confusion — the abort message.
/// `errors` holds exactly the errors recorded before the abort.
pub struct Outcome {
    pub errors: Seq<ErrItem>,
    pub abort: Option<Seq<char>>,
}

/// The displayed column for a node: the parser's column is 0-indexed, so
/// one is added (saturating, so that the value always fits).
pub open spec fn col_shown(c: usize) -> usize {
    if c == usize::MAX {
        c
    } else {
        (c + 1) as usize
    }
}

/// An error at the current path, located at node `n`.
pub open spec fn err_at(n: Node, msg: Seq<char>) -> ErrItem {
    ErrItem { path: Seq::empty(), loc: Some((n.line, col_shown(n.col))), msg }
}

/// The outcome that records nothing.
pub open spec fn ok_out() -> Outcome {
    Outcome { errors: Seq::empty(), abort: None }
}

/// The outcome that records the given errors and does not abort.
pub open spec fn errs_out(errors: Seq<ErrItem>) -> Outcome {
    Outcome { errors, abort: None }
}

/// The outcome that records nothing and aborts with the given message.
pub open spec fn abort_out(msg: Seq<char>) -> Outcome {
    Outcome { errors: Seq::empty(), abort: Some(msg) }
}

/// One error prefixed with a path segment.
pub open spec fn shift_err(e: ErrItem, seg: Seq<char>) -> ErrItem {
    ErrItem { path: seq![seg] + e.path, loc: e.loc, msg: e.msg }
}

/// A whole outcome prefixed with a path segment (a descent into a
/// property or an array element).
pub open spec fn shift_out(o: Outcome, seg: Seq<char>) -> Outcome {
    Outcome { errors: o.errors.map_values(|e: ErrItem| shift_err(e, seg)), abort: o.abort }
}

/// First everything `a` does; if `a` does not abort, then everything `b`
/// does.
pub open spec fn then_out(a: Outcome, b: Outcome) -> Outcome {
    if a.abort is Some {
        a
    } else {
        Outcome { errors: a.errors + b.errors, abort: b.abort }
    }
}

/// Errors recorded first, then the rest of the outcome.
pub open spec fn errs_then(errors: Seq<ErrItem>, o: Outcome) -> Outcome {
    Outcome { errors: errors + o.errors, abort: o.abort }
}

/// Whether a probe of schema `s` against `v` succeeds: it records no error
/// and does not abort. Probes are used by `contains`, `anyOf`, `oneOf` and
/// `not`.
pub open spec fn probe_ok(o: Outcome) -> bool {
    o.errors.len() == 0 && o.abort is None
}

// ---------------------------------------------------------------------
// messages
// ---------------------------------------------------------------------

pub open spec fn msg_expected_string(d: NodeData) -> Seq<char> {
    "Expected a string, but got: "@ + data_debug(d)
}

pub open spec fn msg_expected_null(d: NodeData) -> Seq<char> {
    "Expected null, but got: "@ + data_debug(d)
}

pub open spec fn msg_expected_boolean(d: NodeData) -> Seq<char> {
    "Expected: boolean, found: "@ + data_debug(d)
}

pub open spec fn msg_expected_number(d: NodeData) -> Seq<char> {
    "Expected a number, but got: "@ + data_debug(d)
}

pub open spec fn msg_expected_integer(d: NodeData) -> Seq<char> {
    "Expected an integer, but got: "@ + data_debug(d)
}

pub open spec fn msg_expected_float(d: NodeData) -> Seq<char> {
    "Expected a float, but got: "@ + data_debug(d)
}

pub open spec fn msg_expected_array(d: NodeData) -> Seq<char> {
    "Expected an array, but got: "@ + data_debug(d)
}

pub open spec fn msg_expected_object(d: NodeData) -> Seq<char> {
    "Expected an object, but got: "@ + data_debug(d)
}

pub open spec fn msg_too_small() -> Seq<char> {
    "Number is too small!"@
}

pub open spec fn msg_too_big() -> Seq<char> {
    "Number is too big!"@
}

pub open spec fn msg_not_multiple(rendered: Seq<char>) -> Seq<char> {
    "Number is not a multiple of "@ + rendered + "!"@
}

pub open spec fn msg_too_short(min: usize) -> Seq<char> {
    "String is too short! (min length: "@ + dec_digits(min as nat) + ")"@
}

pub open spec fn msg_too_long(max: usize) -> Seq<char> {
    "String is too long! (max length: "@ + dec_digits(max as nat) + ")"@
}

pub open spec fn msg_pattern_mismatch(p: Seq<char>) -> Seq<char> {
    "String does not match regular expression "@ + p + "!"@
}

pub open spec fn msg_schema_false() -> Seq<char> {
    "Schema is `false`!"@
}

pub open spec fn msg_contains_failed() -> Seq<char> {
    "Contains validation failed!"@
}

pub open spec fn msg_additional_array_items() -> Seq<char> {
    "Additional array items are not allowed!"@
}

pub open spec fn msg_array_items_not_allowed() -> Seq<char> {
    "Array items are not allowed!"@
}

pub open spec fn msg_additional_property(key: Seq<char>) -> Seq<char> {
    "Additional property '"@ + key + "' is not allowed!"@
}

pub open spec fn msg_property_name(key: Seq<char>) -> Seq<char> {
    "Property name '"@ + key + "' does not match pattern specified in `propertyNames`!"@
}

pub open spec fn msg_required_missing(name: Seq<char>) -> Seq<char> {
    "Required property '"@ + name + "' is missing!"@
}

pub open spec fn msg_too_few_properties(min: usize) -> Seq<char> {
    "Object has too few properties! Minimum is "@ + dec_digits(min as nat) + "!"@
}

pub open spec fn msg_too_many_properties(max: usize) -> Seq<char> {
    "Object has too many properties! Maximum is "@ + dec_digits(max as nat) + "!"@
}

pub open spec fn msg_const_failed(expected: Seq<char>, d: NodeData) -> Seq<char> {
    "Const validation failed, expected: "@ + expected + ", got: "@ + data_debug(d)
}

pub open spec fn msg_none_matched_any_of() -> Seq<char> {
    "None of the schemas in `anyOf` matched!"@
}

pub open spec fn msg_none_matched_one_of() -> Seq<char> {
    "None of the schemas in `oneOf` matched!"@
}

pub open spec fn msg_multiple_matched_one_of() -> Seq<char> {
    "Value matched multiple schemas in `oneOf`!"@
}

pub open spec fn msg_matches_not() -> Seq<char> {
    "Value matches schema in `not`"@
}

pub open spec fn msg_not_convertible(d: NodeData) -> Seq<char> {
    "Unable to convert value: "@ + data_debug(d) + " to ConstValue"@
}

pub open spec fn msg_not_in_enum(d: NodeData, values: Seq<ConstValue>) -> Seq<char> {
    "Value "@ + data_value_str(d) + " is not in the enum: "@ + ("["@ + joined_with_commas(
        values.map_values(|c: ConstValue| const_display(c)),
    ) + "]"@)
}

/// The display rendering of a constant value, as the enum message lists
/// them.
pub open spec fn const_display(c: ConstValue) -> Seq<char> {
    match c {
        ConstValue::Boolean(b) => if b {
            "true (bool)"@
        } else {
            "false (bool)"@
        },
        ConstValue::Null => "null"@,
        ConstValue::Number(Number::Integer(i)) => int_str(i as int) + " (number)"@,
        ConstValue::Number(Number::Float(s)) => real_display_of(s@) + " (number)"@,
        ConstValue::String(s) => "\""@ + s@ + "\""@,
    }
}

// ---------------------------------------------------------------------
// numeric checks
// ---------------------------------------------------------------------

/// The decimal text an integer is widened through when it meets a
/// floating-point bound.
pub open spec fn int_lex(i: i64) -> Seq<char> {
    int_str(i as int)
}

/// Whether integer `i` is strictly below the bound.
pub open spec fn int_below(i: i64, b: Number) -> bool {
    match b {
        Number::Integer(m) => i < m,
        Number::Float(fs) => real_lt_of(int_lex(i), fs@),
    }
}

/// Whether integer `i` is strictly above the bound.
pub open spec fn int_above(i: i64, b: Number) -> bool {
    match b {
        Number::Integer(m) => i > m,
        Number::Float(fs) => real_lt_of(fs@, int_lex(i)),
    }
}

/// The absolute value of an integer.
pub open spec fn abs_int(i: int) -> int {
    if i >= 0 {
        i
    } else {
        -i
    }
}

/// Whether integer `i` is a multiple of the bound: division by the bound
/// leaves no remainder; only zero is a multiple of zero.
pub open spec fn int_multiple_of(i: i64, b: Number) -> bool {
    match b {
        Number::Integer(m) => if m == 0 {
            i == 0
        } else {
            abs_int(i as int) % abs_int(m as int) == 0
        },
        Number::Float(fs) => real_rem_zero_of(int_lex(i), fs@),
    }
}

/// The display rendering of a numeric bound in the multiple-of message.
pub open spec fn number_shown(b: Number) -> Seq<char> {
    match b {
        Number::Integer(m) => int_str(m as int),
        Number::Float(fs) => real_display_of(fs@),
    }
}

/// The errors that the numeric checks record for an integer value, in the
/// order minimum, maximum, exclusive minimum, exclusive maximum, multiple
/// of.
pub open spec fn num_errs_for_i64(
    minimum: Option<Number>,
    maximum: Option<Number>,
    exclusive_minimum: Option<Number>,
    exclusive_maximum: Option<Number>,
    multiple_of: Option<Number>,
    i: i64,
    v: Node,
) -> Seq<ErrItem> {
    (match minimum {
        Some(b) => if int_below(i, b) {
            seq![err_at(v, msg_too_small())]
        } else {
            Seq::empty()
        },
        None => Seq::empty(),
    }) + (match maximum {
        Some(b) => if int_above(i, b) {
            seq![err_at(v, msg_too_big())]
        } else {
            Seq::empty()
        },
        None => Seq::empty(),
    }) + (match exclusive_minimum {
        Some(b) => if !int_above(i, b) {
            seq![err_at(v, msg_too_small())]
        } else {
            Seq::empty()
        },
        None => Seq::empty(),
    }) + (match exclusive_maximum {
        Some(b) => if !int_below(i, b) {
            seq![err_at(v, msg_too_big())]
        } else {
            Seq::empty()
        },
        None => Seq::empty(),
    }) + (match multiple_of {
        Some(b) => if !int_multiple_of(i, b) {
            seq![err_at(v, msg_not_multiple(number_shown(b)))]
        } else {
            Seq::empty()
        },
        None => Seq::empty(),
    })
}

/// The lexical text a bound compares against a real value through.
pub open spec fn bound_lex(b: Number) -> Seq<char> {
    match b {
        Number::Integer(m) => int_str(m as int),
        Number::Float(fs) => fs@,
    }
}

/// The errors that the numeric checks record for a real value with lexical
/// form `rs`, under floating-point semantics, in the same order.
pub open spec fn num_errs_for_real(
    minimum: Option<Number>,
    maximum: Option<Number>,
    exclusive_minimum: Option<Number>,
    exclusive_maximum: Option<Number>,
    multiple_of: Option<Number>,
    rs: Seq<char>,
    v: Node,
) -> Seq<ErrItem> {
    (match minimum {
        Some(b) => if real_lt_of(rs, bound_lex(b)) {
            seq![err_at(v, msg_too_small())]
        } else {
            Seq::empty()
        },
        None => Seq::empty(),
    }) + (match maximum {
        Some(b) => if real_lt_of(bound_lex(b), rs) {
            seq![err_at(v, msg_too_big())]
        } else {
            Seq::empty()
        },
        None => Seq::empty(),
    }) + (match exclusive_minimum {
        Some(b) => if !real_lt_of(bound_lex(b), rs) {
            seq![err_at(v, msg_too_small())]
        } else {
            Seq::empty()
        },
        None => Seq::empty(),
    }) + (match exclusive_maximum {
        Some(b) => if !real_lt_of(rs, bound_lex(b)) {
            seq![err_at(v, msg_too_big())]
        } else {
            Seq::empty()
        },
        None => Seq::empty(),
    }) + (match multiple_of {
        Some(b) => if !real_rem_zero_of(rs, bound_lex(b)) {
            seq![err_at(v, msg_not_multiple(number_shown(b)))]
        } else {
            Seq::empty()
        },
        None => Seq::empty(),
    })
}

/// The numeric checks record the same number of errors wherever the value
/// sits in the document: only the error locations differ.
#[verifier::rlimit(100)]
pub proof fn lemma_num_errs_same_len(
    minimum: Option<Number>,
    maximum: Option<Number>,
    exclusive_minimum: Option<Number>,
    exclusive_maximum: Option<Number>,
    multiple_of: Option<Number>,
    i: i64,
    v1: Node,
    v2: Node,
)
    ensures
        num_errs_for_i64(minimum, maximum, exclusive_minimum, exclusive_maximum, multiple_of, i, v1).len()
            == num_errs_for_i64(
            minimum,
            maximum,
            exclusive_minimum,
            exclusive_maximum,
            multiple_of,
            i,
            v2,
        ).len(),
{
}

/// The outcome of an integer schema: integers and integral reals get the
/// numeric checks over the integer domain, everything else a type error.
pub open spec fn out_integer(s: IntegerSchema, v: Node) -> Outcome {
    match v.data {
        NodeData::Integer(i) => errs_out(
            num_errs_for_i64(
                s.minimum,
                s.maximum,
                s.exclusive_minimum,
                s.exclusive_maximum,
                s.multiple_of,
                i,
                v,
            ),
        ),
        NodeData::Real(rs) => if real_parse_ok_of(rs@) {
            if real_integral_of(rs@) {
                errs_out(
                    num_errs_for_i64(
                        s.minimum,
                        s.maximum,
                        s.exclusive_minimum,
                        s.exclusive_maximum,
                        s.multiple_of,
                        real_trunc_of(rs@),
                        v,
                    ),
                )
            } else {
                errs_out(seq![err_at(v, msg_expected_integer(v.data))])
            }
        } else {
            errs_out(seq![err_at(v, msg_expected_float(v.data))])
        },
        _ => errs_out(seq![err_at(v, msg_expected_number(v.data))]),
    }
}

/// The outcome of a number schema: integers get the integer-domain checks,
/// reals the floating-point checks, everything else a type error.
pub open spec fn out_number(s: NumberSchema, v: Node) -> Outcome {
    match v.data {
        NodeData::Integer(i) => errs_out(
            num_errs_for_i64(
                s.minimum,
                s.maximum,
                s.exclusive_minimum,
                s.exclusive_maximum,
                s.multiple_of,
                i,
                v,
            ),
        ),
        NodeData::Real(rs) => if real_parse_ok_of(rs@) {
            errs_out(
                num_errs_for_real(
                    s.minimum,
                    s.maximum,
                    s.exclusive_minimum,
                    s.exclusive_maximum,
                    s.multiple_of,
                    rs@,
                    v,
                ),
            )
        } else {
            errs_out(seq![err_at(v, msg_expected_float(v.data))])
        },
        _ => errs_out(seq![err_at(v, msg_expected_number(v.data))]),
    }
}

// ---------------------------------------------------------------------
// strings
// ---------------------------------------------------------------------

/// The errors of the string checks: minimum length, maximum length,
/// pattern, in that order. Lengths count bytes of the UTF-8 form.
pub open spec fn string_errs(s: StringSchema, t: Seq<char>, v: Node) -> Seq<ErrItem> {
    (match s.min_length {
        Some(m) => if encode_utf8(t).len() < m {
            seq![err_at(v, msg_too_short(m))]
        } else {
            Seq::empty()
        },
        None => Seq::empty(),
    }) + (match s.max_length {
        Some(m) => if encode_utf8(t).len() > m {
            seq![err_at(v, msg_too_long(m))]
        } else {
            Seq::empty()
        },
        None => Seq::empty(),
    }) + (match s.pattern {
        Some(p) => if !regex_match_of(p.source@, t) {
            seq![err_at(v, msg_pattern_mismatch(p.source@))]
        } else {
            Seq::empty()
        },
        None => Seq::empty(),
    })
}

/// The outcome of a string schema.
pub open spec fn out_string(s: StringSchema, v: Node) -> Outcome {
    match v.data {
        NodeData::String(t) => errs_out(string_errs(s, t@, v)),
        _ => errs_out(seq![err_at(v, msg_expected_string(v.data))]),
    }
}

// ---------------------------------------------------------------------
// const and enum
// ---------------------------------------------------------------------

/// The special lexical forms that the core schema resolves to infinities
/// and not-a-number, which plain float parsing rejects.
pub open spec fn special_float(s: Seq<char>) -> bool {
    ||| s == ".inf"@
    ||| s == ".Inf"@
    ||| s == ".INF"@
    ||| s == "+.inf"@
    ||| s == "+.Inf"@
    ||| s == "+.INF"@
    ||| s == "-.inf"@
    ||| s == "-.Inf"@
    ||| s == "-.INF"@
    ||| s == ".nan"@
    ||| s == "NaN"@
    ||| s == ".NAN"@
}

/// Whether a real's lexical form parses under plain float parsing (as the
/// loader and the constant conversion use it): the core-schema parse must
/// succeed and the form must not be one of the special words.
pub open spec fn plain_real_ok(s: Seq<char>) -> bool {
    real_parse_ok_of(s) && !special_float(s)
}

/// The constant value a scalar node converts to, or None for containers,
/// aliases, bad values and reals that do not parse.
pub open spec fn const_of_data(d: NodeData) -> Option<ConstValue> {
    match d {
        NodeData::String(s) => Some(ConstValue::String(s)),
        NodeData::Integer(i) => Some(ConstValue::Number(Number::Integer(i))),
        NodeData::Real(rs) => if plain_real_ok(rs@) {
            Some(ConstValue::Number(Number::Float(rs)))
        } else {
            None
        },
        NodeData::Boolean(b) => Some(ConstValue::Boolean(b)),
        NodeData::Null => Some(ConstValue::Null),
        _ => None,
    }
}

/// Equality of two constant values: the variants must match exactly, and
/// float values compare under floating-point equality of their parsed
/// values.
pub open spec fn const_eq(a: ConstValue, b: ConstValue) -> bool {
    match (a, b) {
        (ConstValue::Boolean(x), ConstValue::Boolean(y)) => x == y,
        (ConstValue::Null, ConstValue::Null) => true,
        (ConstValue::Number(Number::Integer(x)), ConstValue::Number(Number::Integer(y))) => x == y,
        (ConstValue::Number(Number::Float(x)), ConstValue::Number(Number::Float(y))) => real_eq_of(
            x@,
            y@,
        ),
        (ConstValue::String(x), ConstValue::String(y)) => x@ == y@,
        _ => false,
    }
}

/// The outcome of a const schema: one error when the document value is not
/// the constant, with the expected value rendered in the message.
pub open spec fn out_const(s: ConstSchema, v: Node) -> Outcome {
    match s.value {
        ConstValue::Boolean(b) => if v.data matches NodeData::Boolean(db) && db == b {
            ok_out()
        } else {
            errs_out(
                seq![
                    err_at(
                        v,
                        msg_const_failed(if b { "true"@ } else { "false"@ }, v.data),
                    ),
                ],
            )
        },
        ConstValue::Null => if v.data is Null {
            ok_out()
        } else {
            errs_out(seq![err_at(v, msg_const_failed("null"@, v.data))])
        },
        ConstValue::Number(Number::Integer(i)) => if v.data matches NodeData::Integer(di) && di
            == i {
            ok_out()
        } else {
            errs_out(seq![err_at(v, msg_const_failed(int_str(i as int), v.data))])
        },
        ConstValue::Number(Number::Float(fs)) => if v.data matches NodeData::Real(rs)
            && real_parse_ok_of(rs@) && real_eq_of(rs@, fs@) {
            ok_out()
        } else {
            errs_out(seq![err_at(v, msg_const_failed(real_display_of(fs@), v.data))])
        },
        ConstValue::String(cs) => if v.data matches NodeData::String(ds) && ds@ == cs@ {
            ok_out()
        } else {
            errs_out(
                seq![err_at(v, msg_const_failed("\""@ + escaped(cs@) + "\""@, v.data))],
            )
        },
    }
}

/// Whether `c` occurs in the value list.
pub open spec fn const_in_list(values: Seq<ConstValue>, c: ConstValue) -> bool {
    exists|j: int| 0 <= j < values.len() && const_eq(values[j], c)
}

/// The outcome of an enum schema: scalar values are converted to constants
/// and looked up; values that have no constant form abort the validation.
pub open spec fn out_enum(s: EnumSchema, v: Node) -> Outcome {
    match const_of_data(v.data) {
        Some(c) => if const_in_list(s.values@, c) {
            ok_out()
        } else {
            errs_out(seq![err_at(v, msg_not_in_enum(v.data, s.values@))])
        },
        None => abort_out(msg_not_convertible(v.data)),
    }
}

// ---------------------------------------------------------------------
// the recursive walk
// ---------------------------------------------------------------------

/// The path segment for an array index.
pub open spec fn index_seg(i: int) -> Seq<char> {
    dec_digits(i as nat)
}

/// The name a mapping key contributes: its string value, or the empty
/// string for keys that are not strings.
pub open spec fn key_string(k: Node) -> Seq<char> {
    match k.data {
        NodeData::String(s) => s@,
        _ => ""@,
    }
}

/// Whether the property list declares `key` (first match decides).
pub open spec fn has_prop(props: Seq<(String, YamlSchema)>, key: Seq<char>) -> bool {
    exists|j: int| 0 <= j < props.len() && props[j].0@ == key
}

/// Whether the mapping has an entry whose key is the string `name`.
pub open spec fn has_string_key(entries: Seq<(Node, Node)>, name: Seq<char>) -> bool {
    exists|j: int|
        0 <= j < entries.len() && (#[trigger] entries[j].0.data matches NodeData::String(s) && s@
            == name)
}

/// The outcome of validating a node against the whole schema. Errors come
/// in depth-first, left-to-right order over the document.
pub open spec fn out(s: YamlSchema, v: Node) -> Outcome
    decreases s, 1int, 0int,
{
    match s {
        YamlSchema::Empty => ok_out(),
        YamlSchema::BooleanLiteral(b) => if b {
            ok_out()
        } else {
            errs_out(seq![err_at(v, msg_schema_false())])
        },
        YamlSchema::TypeNull => if v.data is Null {
            ok_out()
        } else {
            errs_out(seq![err_at(v, msg_expected_null(v.data))])
        },
        YamlSchema::BooleanSchema => if v.data is Boolean {
            ok_out()
        } else {
            errs_out(seq![err_at(v, msg_expected_boolean(v.data))])
        },
        YamlSchema::Const(c) => out_const(c, v),
        YamlSchema::Enum(e) => out_enum(e, v),
        YamlSchema::Integer(i) => out_integer(i, v),
        YamlSchema::Number(n) => out_number(n, v),
        YamlSchema::String(t) => out_string(t, v),
        YamlSchema::Array(a) => out_array(a, v),
        YamlSchema::Object(o) => out_object(o, v),
        YamlSchema::AnyOf(a) => out_any(a.any_of@, v, 0),
        YamlSchema::OneOf(o) => {
            let w = one_walk(o.one_of@, v, 0, 0);
            if w.abort is Some {
                w
            } else if count_probe_ok(o.one_of@, v, 0) == 0 {
                errs_out(seq![err_at(v, msg_none_matched_one_of())])
            } else {
                w
            }
        },
        YamlSchema::Not(n) => {
            let p = out(*n.not, v);
            if p.errors.len() == 0 {
                if p.abort is Some {
                    Outcome { errors: Seq::empty(), abort: p.abort }
                } else {
                    errs_out(seq![err_at(v, msg_matches_not())])
                }
            } else {
                ok_out()
            }
        },
    }
}

/// The outcome of a typed sub-schema (the `items` and
/// `additionalProperties` positions).
pub open spec fn out_typed(t: TypedSchema, v: Node) -> Outcome
    decreases t, 1int, 0int,
{
    match t {
        TypedSchema::Null => if v.data is Null {
            ok_out()
        } else {
            errs_out(seq![err_at(v, msg_expected_null(v.data))])
        },
        TypedSchema::BooleanSchema => if v.data is Boolean {
            ok_out()
        } else {
            errs_out(seq![err_at(v, msg_expected_boolean(v.data))])
        },
        TypedSchema::Integer(i) => out_integer(i, v),
        TypedSchema::Number(n) => out_number(n, v),
        TypedSchema::String(s) => out_string(s, v),
        TypedSchema::Array(a) => out_array(a, v),
        TypedSchema::Object(o) => out_object(o, v),
    }
}

/// The outcome of validating one array element against its prefix schema.
pub open spec fn prefix_inner(a: ArraySchema, item: Node, i: int) -> Outcome
    decreases a, 0int, 0int,
{
    match a.prefix_items {
        Some(pre) => if 0 <= i < pre@.len() {
            out(pre@[i], item)
        } else {
            ok_out()
        },
        None => ok_out(),
    }
}

/// Whether some element at or after `i` satisfies the schema.
pub open spec fn some_elem_matches_from(cs: YamlSchema, items: Seq<Node>, i: int) -> bool
    decreases cs, 2int, items.len() - i,
{
    if i < 0 || i >= items.len() {
        false
    } else {
        probe_ok(out(cs, items[i])) || some_elem_matches_from(cs, items, i + 1)
    }
}

/// Whether some element of the sequence satisfies the schema.
pub open spec fn some_elem_matches(cs: YamlSchema, items: Seq<Node>) -> bool
    decreases cs, 3int, 0int,
{
    some_elem_matches_from(cs, items, 0)
}

proof fn some_elem_intro_from(cs: YamlSchema, items: Seq<Node>, i: int, j: int)
    requires
        0 <= i <= j < items.len(),
        probe_ok(out(cs, items[j])),
    ensures
        some_elem_matches_from(cs, items, i),
    decreases j - i,
{
    if i < j {
        some_elem_intro_from(cs, items, i + 1, j);
    }
}

/// A witness makes the `contains` probe succeed.
pub proof fn lemma_some_elem_intro(cs: YamlSchema, items: Seq<Node>, j: int)
    requires
        0 <= j < items.len(),
        probe_ok(out(cs, items[j])),
    ensures
        some_elem_matches(cs, items),
{
    some_elem_intro_from(cs, items, 0, j);
}

proof fn some_elem_none_from(cs: YamlSchema, items: Seq<Node>, i: int)
    requires
        forall|k: int| 0 <= k < items.len() ==> !probe_ok(#[trigger] out(cs, items[k])),
    ensures
        !some_elem_matches_from(cs, items, i),
    decreases items.len() - i,
{
    if 0 <= i < items.len() {
        assert(!probe_ok(out(cs, items[i])));
        some_elem_none_from(cs, items, i + 1);
    }
}

/// When every element fails the probe, the `contains` probe fails.
pub proof fn lemma_some_elem_none(cs: YamlSchema, items: Seq<Node>)
    requires
        forall|k: int| 0 <= k < items.len() ==> !probe_ok(#[trigger] out(cs, items[k])),
    ensures
        !some_elem_matches(cs, items),
{
    some_elem_none_from(cs, items, 0);
}

/// The errors of the `contains` probe: none when some element matches the
/// probed schema, one otherwise.
pub open spec fn contains_errs_of(a: ArraySchema, v: Node, items: Seq<Node>) -> Seq<ErrItem>
    decreases a, 4int, 0int,
{
    match a.contains {
        Some(cs) => if some_elem_matches(*cs, items) {
            Seq::empty()
        } else {
            seq![err_at(v, msg_contains_failed())]
        },
        None => Seq::empty(),
    }
}

/// The outcome of an array schema: the `contains` probe first, then the
/// element walk.
pub open spec fn out_array(a: ArraySchema, v: Node) -> Outcome
    decreases a, 5int, 0int,
{
    match v.data {
        NodeData::Array(items) => errs_then(
            contains_errs_of(a, v, items@),
            out_array_elems(a, items@, 0),
        ),
        _ => errs_out(seq![err_at(v, msg_expected_array(v.data))]),
    }
}

/// The element walk of an array schema: leading elements against the
/// prefix schemas, the rest against `items`; `items: true` (or no
/// `items`) stops the walk, `items: false` records an error for each
/// remaining element.
pub open spec fn out_array_elems(a: ArraySchema, items: Seq<Node>, i: int) -> Outcome
    decreases a, 1int, items.len() - i,
{
    if i < 0 || i >= items.len() {
        ok_out()
    } else {
        let pre_len: int = match a.prefix_items {
            Some(pre) => pre@.len() as int,
            None => 0,
        };
        if i < pre_len {
            let step = shift_out(prefix_inner(a, items[i], i), index_seg(i));
            then_out(step, out_array_elems(a, items, i + 1))
        } else {
            match a.items {
                None => ok_out(),
                Some(BoolOrTypedSchema::Boolean(b)) => if b {
                    ok_out()
                } else {
                    let msg = if a.prefix_items is Some {
                        msg_additional_array_items()
                    } else {
                        msg_array_items_not_allowed()
                    };
                    then_out(
                        errs_out(seq![shift_err(err_at(items[i], msg), index_seg(i))]),
                        out_array_elems(a, items, i + 1),
                    )
                },
                Some(BoolOrTypedSchema::TypedSchema(ts)) => then_out(
                    shift_out(out_typed(*ts, items[i]), index_seg(i)),
                    out_array_elems(a, items, i + 1),
                ),
            }
        }
    }
}

/// The part of one entry's outcome from the declared properties: the
/// first entry whose name is the key validates the value in a child path.
pub open spec fn prop_step(o: ObjectSchema, key: Seq<char>, val: Node) -> Outcome
    decreases o, 0int, 0int,
{
    match o.properties {
        Some(props) => shift_out(out_props(props@, 0, key, val), key),
        None => ok_out(),
    }
}

/// The part of one entry's outcome from `additionalProperties`.
pub open spec fn addl_step(o: ObjectSchema, key: Seq<char>, val: Node) -> Outcome
    decreases o, 0int, 0int,
{
    match o.additional_properties {
        None => ok_out(),
        Some(BoolOrTypedSchema::Boolean(b)) => if b {
            ok_out()
        } else {
            errs_out(seq![err_at(val, msg_additional_property(key))])
        },
        Some(BoolOrTypedSchema::TypedSchema(ts)) => shift_out(out_typed(*ts, val), key),
    }
}

/// The part of one entry's outcome from `patternProperties`.
pub open spec fn pats_step(o: ObjectSchema, key: Seq<char>, val: Node) -> Outcome
    decreases o, 0int, 0int,
{
    match o.pattern_properties {
        None => ok_out(),
        Some(pp) => out_patprops(pp@, 0, key, val),
    }
}

/// The part of one entry's outcome from `propertyNames`; the error points
/// at the key node.
pub open spec fn names_step(o: ObjectSchema, k: Node, key: Seq<char>) -> Outcome {
    match o.property_names {
        None => ok_out(),
        Some(p) => if regex_match_of(p.source@, key) {
            ok_out()
        } else {
            errs_out(seq![err_at(k, msg_property_name(key))])
        },
    }
}

/// Whether the key is declared under the object's properties.
pub open spec fn key_declared(o: ObjectSchema, key: Seq<char>) -> bool {
    o.properties matches Some(props) && has_prop(props@, key)
}

/// The whole outcome of one mapping entry.
pub open spec fn entry_step(o: ObjectSchema, k: Node, val: Node) -> Outcome
    decreases o, 1int, 0int,
{
    let key = key_string(k);
    if key_declared(o, key) {
        prop_step(o, key, val)
    } else {
        then_out(addl_step(o, key, val), then_out(pats_step(o, key, val), names_step(o, k, key)))
    }
}

/// The outcome of an object schema: the entry walk in document order, then
/// the required-property and size checks.
pub open spec fn out_object(o: ObjectSchema, v: Node) -> Outcome
    decreases o, 3int, 0int,
{
    match v.data {
        NodeData::Hash(entries) => then_out(
            out_object_entries(o, entries@, 0),
            errs_out(object_tail_errs(o, entries@, v)),
        ),
        _ => errs_out(seq![err_at(v, msg_expected_object(v.data))]),
    }
}

/// The entry walk of an object schema. A key declared under `properties`
/// is validated against its schema in a child path and nothing else; any
/// other key meets `additionalProperties`, then every matching
/// `patternProperties` entry, then `propertyNames`.
pub open spec fn out_object_entries(o: ObjectSchema, entries: Seq<(Node, Node)>, i: int) -> Outcome
    decreases o, 2int, entries.len() - i,
{
    if i < 0 || i >= entries.len() {
        ok_out()
    } else {
        then_out(
            entry_step(o, entries[i].0, entries[i].1),
            out_object_entries(o, entries, i + 1),
        )
    }
}

/// The walk over the declared properties: the first entry whose name is
/// `key` validates the value; later entries are not consulted.
pub open spec fn out_props(
    props: Seq<(String, YamlSchema)>,
    j: int,
    key: Seq<char>,
    val: Node,
) -> Outcome
    decreases props, 0int, props.len() - j,
{
    if j < 0 || j >= props.len() {
        ok_out()
    } else if props[j].0@ == key {
        out(props[j].1, val)
    } else {
        out_props(props, j + 1, key, val)
    }
}

/// The walk over the pattern properties: every entry whose pattern matches
/// the key validates the value, in order.
pub open spec fn out_patprops(
    pp: Seq<(crate::pattern::Pattern, YamlSchema)>,
    j: int,
    key: Seq<char>,
    val: Node,
) -> Outcome
    decreases pp, 0int, pp.len() - j,
{
    if j < 0 || j >= pp.len() {
        ok_out()
    } else {
        let step = if regex_match_of(pp[j].0.source@, key) {
            out(pp[j].1, val)
        } else {
            ok_out()
        };
        then_out(step, out_patprops(pp, j + 1, key, val))
    }
}

/// The errors recorded for one missing required property after the other,
/// in declaration order.
pub open spec fn required_errs(
    names: Seq<String>,
    entries: Seq<(Node, Node)>,
    i: int,
    v: Node,
) -> Seq<ErrItem>
    decreases names.len() - i,
{
    if i < 0 || i >= names.len() {
        Seq::empty()
    } else {
        (if has_string_key(entries, names[i]@) {
            Seq::empty()
        } else {
            seq![err_at(v, msg_required_missing(names[i]@))]
        }) + required_errs(names, entries, i + 1, v)
    }
}

/// The checks that follow the entry walk: required properties, then the
/// minimum and maximum property counts.
pub open spec fn object_tail_errs(o: ObjectSchema, entries: Seq<(Node, Node)>, v: Node) -> Seq<
    ErrItem,
> {
    (match o.required {
        Some(req) => required_errs(req@, entries, 0, v),
        None => Seq::empty(),
    }) + (match o.min_properties {
        Some(m) => if entries.len() < m {
            seq![err_at(v, msg_too_few_properties(m))]
        } else {
            Seq::empty()
        },
        None => Seq::empty(),
    }) + (match o.max_properties {
        Some(m) => if entries.len() > m {
            seq![err_at(v, msg_too_many_properties(m))]
        } else {
            Seq::empty()
        },
        None => Seq::empty(),
    })
}

/// The probing walk of `anyOf`: the first schema that matches decides; a
/// probe that aborts before recording an error aborts the whole walk.
pub open spec fn out_any(schemas: Seq<YamlSchema>, v: Node, i: int) -> Outcome
    decreases schemas, 0int, schemas.len() - i,
{
    if i < 0 || i >= schemas.len() {
        errs_out(seq![err_at(v, msg_none_matched_any_of())])
    } else {
        let p = out(schemas[i], v);
        if p.errors.len() > 0 {
            out_any(schemas, v, i + 1)
        } else if p.abort is Some {
            Outcome { errors: Seq::empty(), abort: p.abort }
        } else {
            ok_out()
        }
    }
}

/// The probing walk of `oneOf`: all schemas are probed; a second success
/// records the multiple-match error at once. `c` counts the successes seen
/// so far, capped at two. Whether any schema matched at all is counted
/// separately by `count_probe_ok`.
pub open spec fn one_walk(schemas: Seq<YamlSchema>, v: Node, i: int, c: int) -> Outcome
    decreases schemas, 0int, schemas.len() - i,
{
    if i < 0 || i >= schemas.len() {
        ok_out()
    } else {
        let p = out(schemas[i], v);
        if p.errors.len() > 0 {
            one_walk(schemas, v, i + 1, c)
        } else if p.abort is Some {
            Outcome { errors: Seq::empty(), abort: p.abort }
        } else if c == 1 {
            errs_then(
                seq![err_at(v, msg_multiple_matched_one_of())],
                one_walk(schemas, v, i + 1, 2),
            )
        } else if c == 0 {
            one_walk(schemas, v, i + 1, 1)
        } else {
            one_walk(schemas, v, i + 1, c)
        }
    }
}

/// How many of the schemas accept the node.
pub open spec fn count_probe_ok(schemas: Seq<YamlSchema>, v: Node, i: int) -> int
    decreases schemas, 0int, schemas.len() - i,
{
    if i < 0 || i >= schemas.len() {
        0
    } else {
        (if probe_ok(out(schemas[i], v)) {
            1int
        } else {
            0int
        }) + count_probe_ok(schemas, v, i + 1)
    }
}

/// A count of successes is never negative.
pub proof fn lemma_count_probe_ok_nonneg(schemas: Seq<YamlSchema>, v: Node, i: int)
    ensures
        count_probe_ok(schemas, v, i) >= 0,
    decreases schemas.len() - i,
{
    if 0 <= i < schemas.len() {
        lemma_count_probe_ok_nonneg(schemas, v, i + 1);
    }
}

/// When no schema of a `oneOf` list accepts the node, the probing walk
/// records no error (the multiple-match error needs two successes).
pub proof fn lemma_one_walk_no_success(schemas: Seq<YamlSchema>, v: Node, i: int, c: int)
    requires
        count_probe_ok(schemas, v, i) == 0,
    ensures
        one_walk(schemas, v, i, c).errors.len() == 0,
    decreases schemas.len() - i,
{
    if 0 <= i < schemas.len() {
        let p = out(schemas[i], v);
        if p.errors.len() > 0 {
            lemma_one_walk_no_success(schemas, v, i + 1, c);
        } else if p.abort is Some {
        } else {
            assert(probe_ok(p));
            lemma_count_probe_ok_nonneg(schemas, v, i + 1);
            assert(count_probe_ok(schemas, v, i) >= 1);
        }
    }
}

/// The probing walk of `anyOf` ends in one of three shapes: clean, an
/// abort with nothing recorded, or exactly the no-match error.
pub proof fn lemma_out_any_shape(schemas: Seq<YamlSchema>, v: Node, i: int)
    ensures
        ({
            let o = out_any(schemas, v, i);
            ||| o == ok_out()
            ||| (o.abort is Some && o.errors.len() == 0)
            ||| o == errs_out(seq![err_at(v, msg_none_matched_any_of())])
        }),
    decreases schemas.len() - i,
{
    if 0 <= i < schemas.len() {
        lemma_out_any_shape(schemas, v, i + 1);
    }
}

/// Whether schema `s` accepts node `v`: validating records no error and
/// does not abort.
pub open spec fn accepts(s: YamlSchema, v: Node) -> bool {
    probe_ok(out(s, v))
}

} // verus!
