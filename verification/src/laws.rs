use vstd::prelude::*;

use crate::YamlSchema;
use crate::node::Node;
use crate::semantics::{
    accepts, count_probe_ok, err_at, msg_schema_false, ok_out, out, out_any, probe_ok,
};

verus! {

// The laws the library states about itself. Determinism and idempotence
// need no lemma of their own: `Engine::evaluate` ensures that its whole
// result is a function of the schema, the text and the fail-fast flag, so
// two runs on identical inputs have identical error vectors, and the model
// `out` defines the error order as the depth-first, left-to-right walk.

/// The empty schema accepts every document.
pub proof fn lemma_empty_accepts(v: Node)
    ensures
        accepts(YamlSchema::Empty, v),
{
}

/// The `false` schema rejects every document, with exactly one error.
pub proof fn lemma_false_rejects(v: Node)
    ensures
        !accepts(YamlSchema::BooleanLiteral(false), v),
        out(YamlSchema::BooleanLiteral(false), v).errors == seq![err_at(v, msg_schema_false())],
{
}

/// A document a schema accepts produces no errors at all.
pub proof fn lemma_accepted_doc_no_errors(s: YamlSchema, v: Node)
    requires
        accepts(s, v),
    ensures
        out(s, v).errors.len() == 0,
{
}

/// An integer-only schema accepts a real with fractional part zero exactly
/// when it accepts the truncated integer: the bound and multiple checks
/// run on the same integer in both cases.
pub proof fn lemma_integer_accepts_integral_real(
    s: crate::IntegerSchema,
    rv: Node,
    iv: Node,
)
    requires
        rv.data matches crate::node::NodeData::Real(rs) && crate::reals::real_parse_ok_of(rs@)
            && crate::reals::real_integral_of(rs@) && (iv.data
            matches crate::node::NodeData::Integer(i) && i == crate::reals::real_trunc_of(rs@)),
    ensures
        accepts(YamlSchema::Integer(s), rv) == accepts(YamlSchema::Integer(s), iv),
{
    let i = iv.data->Integer_0;
    crate::semantics::lemma_num_errs_same_len(
        s.minimum,
        s.maximum,
        s.exclusive_minimum,
        s.exclusive_maximum,
        s.multiple_of,
        i,
        rv,
        iv,
    );
}

/// `not` succeeds exactly when the inner schema rejects the document
/// (stated away from the inputs on which the inner schema aborts).
pub proof fn lemma_not_law(n: crate::NotSchema, v: Node)
    requires
        out(*n.not, v).abort is None,
    ensures
        accepts(YamlSchema::Not(n), v) == !accepts(*n.not, v),
{
}

proof fn any_of_from(schemas: Seq<YamlSchema>, v: Node, i: int)
    requires
        forall|k: int| 0 <= k < schemas.len() ==> (#[trigger] out(schemas[k], v)).abort is None,
        0 <= i <= schemas.len(),
    ensures
        (out_any(schemas, v, i) == ok_out()) <==> (exists|k: int|
            i <= k < schemas.len() && probe_ok(#[trigger] out(schemas[k], v))),
    decreases schemas.len() - i,
{
    if i < schemas.len() {
        any_of_from(schemas, v, i + 1);
        let p = out(schemas[i], v);
        if p.errors.len() == 0 {
            assert(probe_ok(out(schemas[i], v)));
        }
    }
}

/// `anyOf` succeeds exactly when at least one branch accepts the document
/// (stated away from the inputs on which a branch aborts).
pub proof fn lemma_any_of_law(a: crate::AnyOfSchema, v: Node)
    requires
        forall|k: int|
            0 <= k < a.any_of@.len() ==> (#[trigger] out(a.any_of@[k], v)).abort is None,
    ensures
        accepts(YamlSchema::AnyOf(a), v) <==> (exists|k: int|
            0 <= k < a.any_of@.len() && accepts(a.any_of@[k], v)),
{
    any_of_from(a.any_of@, v, 0);
    crate::semantics::lemma_out_any_shape(a.any_of@, v, 0);
    if accepts(YamlSchema::AnyOf(a), v) {
        assert(out_any(a.any_of@, v, 0) == ok_out());
    }
    if exists|k: int| 0 <= k < a.any_of@.len() && accepts(a.any_of@[k], v) {
        let k = choose|k: int| 0 <= k < a.any_of@.len() && accepts(a.any_of@[k], v);
        assert(probe_ok(out(a.any_of@[k], v)));
    }
}

proof fn one_walk_errors_by_count(schemas: Seq<YamlSchema>, v: Node, i: int, c: int)
    requires
        forall|k: int| 0 <= k < schemas.len() ==> (#[trigger] out(schemas[k], v)).abort is None,
        0 <= i <= schemas.len(),
        c == 0 || c == 1 || c == 2,
    ensures
        crate::semantics::one_walk(schemas, v, i, c).abort is None,
        c == 0 ==> ((crate::semantics::one_walk(schemas, v, i, c).errors.len() == 0)
            <==> count_probe_ok(schemas, v, i) <= 1),
        c == 1 ==> ((crate::semantics::one_walk(schemas, v, i, c).errors.len() == 0)
            <==> count_probe_ok(schemas, v, i) == 0),
        c == 2 ==> crate::semantics::one_walk(schemas, v, i, c).errors.len() == 0,
    decreases schemas.len() - i,
{
    crate::semantics::lemma_count_probe_ok_nonneg(schemas, v, i);
    if i < schemas.len() {
        let p = out(schemas[i], v);
        crate::semantics::lemma_count_probe_ok_nonneg(schemas, v, i + 1);
        if p.errors.len() > 0 {
            one_walk_errors_by_count(schemas, v, i + 1, c);
        } else {
            assert(probe_ok(p));
            if c == 1 {
                one_walk_errors_by_count(schemas, v, i + 1, 2);
            } else if c == 0 {
                one_walk_errors_by_count(schemas, v, i + 1, 1);
            } else {
                one_walk_errors_by_count(schemas, v, i + 1, 2);
            }
        }
    }
}

/// `oneOf` succeeds exactly when exactly one branch accepts the document
/// (stated away from the inputs on which a branch aborts).
pub proof fn lemma_one_of_law(o: crate::OneOfSchema, v: Node)
    requires
        forall|k: int|
            0 <= k < o.one_of@.len() ==> (#[trigger] out(o.one_of@[k], v)).abort is None,
    ensures
        accepts(YamlSchema::OneOf(o), v) <==> count_probe_ok(o.one_of@, v, 0) == 1,
{
    one_walk_errors_by_count(o.one_of@, v, 0, 0);
    crate::semantics::lemma_count_probe_ok_nonneg(o.one_of@, v, 0);
}

} // verus!
