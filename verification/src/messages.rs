use vstd::prelude::*;

use crate::ConstValue;
use crate::Number;
use crate::format_vec;
use crate::node::{NodeData, push_data_debug, push_data_value};
use crate::reals::real_display;
use crate::render::{format_i64, format_usize};
use crate::semantics::{
    const_display, msg_additional_array_items, msg_additional_property, msg_array_items_not_allowed,
    msg_const_failed, msg_contains_failed, msg_expected_array, msg_expected_boolean,
    msg_expected_float, msg_expected_integer, msg_expected_null, msg_expected_number,
    msg_expected_object, msg_expected_string, msg_matches_not, msg_multiple_matched_one_of,
    msg_none_matched_any_of, msg_none_matched_one_of, msg_not_convertible, msg_not_in_enum,
    msg_not_multiple, msg_pattern_mismatch, msg_property_name, msg_required_missing,
    msg_schema_false, msg_too_big, msg_too_few_properties, msg_too_long, msg_too_many_properties,
    msg_too_short, msg_too_small, number_shown,
};

verus! {

// The executable builders for the validator's messages; each is proved to
// render exactly the message the model states.

fn lit_plus_debug(lit: &str, d: &NodeData) -> (r: String)
    ensures
        r@ == lit@ + data_debug_of(d),
{
    let mut out = String::from_str(lit);
    push_data_debug(&mut out, d);
    out
}

/// The debug rendering, re-exported under a spec alias local to this file
/// so the helper above can state it.
pub open spec fn data_debug_of(d: &NodeData) -> Seq<char> {
    crate::node::data_debug(*d)
}

pub fn m_expected_string(d: &NodeData) -> (r: String)
    ensures
        r@ == msg_expected_string(*d),
{
    lit_plus_debug("Expected a string, but got: ", d)
}

pub fn m_expected_null(d: &NodeData) -> (r: String)
    ensures
        r@ == msg_expected_null(*d),
{
    lit_plus_debug("Expected null, but got: ", d)
}

pub fn m_expected_boolean(d: &NodeData) -> (r: String)
    ensures
        r@ == msg_expected_boolean(*d),
{
    lit_plus_debug("Expected: boolean, found: ", d)
}

pub fn m_expected_number(d: &NodeData) -> (r: String)
    ensures
        r@ == msg_expected_number(*d),
{
    lit_plus_debug("Expected a number, but got: ", d)
}

pub fn m_expected_integer(d: &NodeData) -> (r: String)
    ensures
        r@ == msg_expected_integer(*d),
{
    lit_plus_debug("Expected an integer, but got: ", d)
}

pub fn m_expected_float(d: &NodeData) -> (r: String)
    ensures
        r@ == msg_expected_float(*d),
{
    lit_plus_debug("Expected a float, but got: ", d)
}

pub fn m_expected_array(d: &NodeData) -> (r: String)
    ensures
        r@ == msg_expected_array(*d),
{
    lit_plus_debug("Expected an array, but got: ", d)
}

pub fn m_expected_object(d: &NodeData) -> (r: String)
    ensures
        r@ == msg_expected_object(*d),
{
    lit_plus_debug("Expected an object, but got: ", d)
}

pub fn m_too_small() -> (r: String)
    ensures
        r@ == msg_too_small(),
{
    String::from_str("Number is too small!")
}

pub fn m_too_big() -> (r: String)
    ensures
        r@ == msg_too_big(),
{
    String::from_str("Number is too big!")
}

/// The rendering of a numeric bound as the multiple-of message shows it.
pub fn render_number_shown(b: &Number) -> (r: String)
    ensures
        r@ == number_shown(*b),
{
    match b {
        Number::Integer(m) => format_i64(*m),
        Number::Float(fs) => real_display(fs.as_str()),
    }
}

pub fn m_not_multiple(b: &Number) -> (r: String)
    ensures
        r@ == msg_not_multiple(number_shown(*b)),
{
    let mut out = String::from_str("Number is not a multiple of ");
    let shown = render_number_shown(b);
    out.append(shown.as_str());
    out.append("!");
    proof {
        assert(out@ =~= msg_not_multiple(number_shown(*b)));
    }
    out
}

pub fn m_too_short(min: usize) -> (r: String)
    ensures
        r@ == msg_too_short(min),
{
    let mut out = String::from_str("String is too short! (min length: ");
    let n = format_usize(min);
    out.append(n.as_str());
    out.append(")");
    proof {
        assert(out@ =~= msg_too_short(min));
    }
    out
}

pub fn m_too_long(max: usize) -> (r: String)
    ensures
        r@ == msg_too_long(max),
{
    let mut out = String::from_str("String is too long! (max length: ");
    let n = format_usize(max);
    out.append(n.as_str());
    out.append(")");
    proof {
        assert(out@ =~= msg_too_long(max));
    }
    out
}

pub fn m_pattern_mismatch(p: &str) -> (r: String)
    ensures
        r@ == msg_pattern_mismatch(p@),
{
    let mut out = String::from_str("String does not match regular expression ");
    out.append(p);
    out.append("!");
    proof {
        assert(out@ =~= msg_pattern_mismatch(p@));
    }
    out
}

pub fn m_schema_false() -> (r: String)
    ensures
        r@ == msg_schema_false(),
{
    String::from_str("Schema is `false`!")
}

pub fn m_contains_failed() -> (r: String)
    ensures
        r@ == msg_contains_failed(),
{
    String::from_str("Contains validation failed!")
}

pub fn m_additional_array_items() -> (r: String)
    ensures
        r@ == msg_additional_array_items(),
{
    String::from_str("Additional array items are not allowed!")
}

pub fn m_array_items_not_allowed() -> (r: String)
    ensures
        r@ == msg_array_items_not_allowed(),
{
    String::from_str("Array items are not allowed!")
}

pub fn m_additional_property(key: &str) -> (r: String)
    ensures
        r@ == msg_additional_property(key@),
{
    let mut out = String::from_str("Additional property '");
    out.append(key);
    out.append("' is not allowed!");
    proof {
        assert(out@ =~= msg_additional_property(key@));
    }
    out
}

pub fn m_property_name(key: &str) -> (r: String)
    ensures
        r@ == msg_property_name(key@),
{
    let mut out = String::from_str("Property name '");
    out.append(key);
    out.append("' does not match pattern specified in `propertyNames`!");
    proof {
        assert(out@ =~= msg_property_name(key@));
    }
    out
}

pub fn m_required_missing(name: &str) -> (r: String)
    ensures
        r@ == msg_required_missing(name@),
{
    let mut out = String::from_str("Required property '");
    out.append(name);
    out.append("' is missing!");
    proof {
        assert(out@ =~= msg_required_missing(name@));
    }
    out
}

pub fn m_too_few_properties(min: usize) -> (r: String)
    ensures
        r@ == msg_too_few_properties(min),
{
    let mut out = String::from_str("Object has too few properties! Minimum is ");
    let n = format_usize(min);
    out.append(n.as_str());
    out.append("!");
    proof {
        assert(out@ =~= msg_too_few_properties(min));
    }
    out
}

pub fn m_too_many_properties(max: usize) -> (r: String)
    ensures
        r@ == msg_too_many_properties(max),
{
    let mut out = String::from_str("Object has too many properties! Maximum is ");
    let n = format_usize(max);
    out.append(n.as_str());
    out.append("!");
    proof {
        assert(out@ =~= msg_too_many_properties(max));
    }
    out
}

pub fn m_const_failed(expected: &str, d: &NodeData) -> (r: String)
    ensures
        r@ == msg_const_failed(expected@, *d),
{
    let mut out = String::from_str("Const validation failed, expected: ");
    out.append(expected);
    out.append(", got: ");
    push_data_debug(&mut out, d);
    proof {
        assert(out@ =~= msg_const_failed(expected@, *d));
    }
    out
}

pub fn m_none_matched_any_of() -> (r: String)
    ensures
        r@ == msg_none_matched_any_of(),
{
    String::from_str("None of the schemas in `anyOf` matched!")
}

pub fn m_none_matched_one_of() -> (r: String)
    ensures
        r@ == msg_none_matched_one_of(),
{
    String::from_str("None of the schemas in `oneOf` matched!")
}

pub fn m_multiple_matched_one_of() -> (r: String)
    ensures
        r@ == msg_multiple_matched_one_of(),
{
    String::from_str("Value matched multiple schemas in `oneOf`!")
}

pub fn m_matches_not() -> (r: String)
    ensures
        r@ == msg_matches_not(),
{
    String::from_str("Value matches schema in `not`")
}

pub fn m_not_convertible(d: &NodeData) -> (r: String)
    ensures
        r@ == msg_not_convertible(*d),
{
    let mut out = String::from_str("Unable to convert value: ");
    push_data_debug(&mut out, d);
    out.append(" to ConstValue");
    proof {
        assert(out@ =~= msg_not_convertible(*d));
    }
    out
}

/// The display rendering of one constant value for the enum message.
pub fn render_const(c: &ConstValue) -> (r: String)
    ensures
        r@ == const_display(*c),
{
    match c {
        ConstValue::Boolean(b) => {
            if *b {
                String::from_str("true (bool)")
            } else {
                String::from_str("false (bool)")
            }
        },
        ConstValue::Null => String::from_str("null"),
        ConstValue::Number(Number::Integer(i)) => {
            let mut out = format_i64(*i);
            out.append(" (number)");
            proof {
                assert(out@ =~= const_display(*c));
            }
            out
        },
        ConstValue::Number(Number::Float(fs)) => {
            let mut out = real_display(fs.as_str());
            out.append(" (number)");
            proof {
                assert(out@ =~= const_display(*c));
            }
            out
        },
        ConstValue::String(s) => {
            let mut out = String::from_str("\"");
            out.append(s.as_str());
            out.append("\"");
            proof {
                assert(out@ =~= const_display(*c));
            }
            out
        },
    }
}

pub fn m_not_in_enum(d: &NodeData, values: &Vec<ConstValue>) -> (r: String)
    ensures
        r@ == msg_not_in_enum(*d, values@),
{
    let mut rendered: Vec<String> = Vec::new();
    let mut i: usize = 0;
    while i < values.len()
        invariant
            i <= values@.len(),
            rendered@.len() == i,
            forall|k: int| 0 <= k < i ==> (#[trigger] rendered@[k])@ == const_display(values@[k]),
        decreases values@.len() - i,
    {
        let one = render_const(&values[i]);
        rendered.push(one);
        i = i + 1;
    }
    proof {
        assert(rendered@.map_values(|s: String| s@) =~= values@.map_values(
            |c: ConstValue| const_display(c),
        ));
    }
    let list = format_vec(&rendered);
    let mut out = String::from_str("Value ");
    push_data_value(&mut out, d);
    out.append(" is not in the enum: ");
    out.append(list.as_str());
    proof {
        assert(out@ =~= msg_not_in_enum(*d, values@));
    }
    out
}

} // verus!
