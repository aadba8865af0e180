use vstd::prelude::*;

use crate::BoolOrTypedSchema;
use crate::ConstSchema;
use crate::TypedSchema;
use crate::YamlSchema;
use crate::ConstValue;
use crate::Number;
use crate::error::Error;
use crate::messages::{
    m_expected_float, m_expected_integer, m_expected_number, m_expected_string, m_not_multiple,
    m_pattern_mismatch, m_too_big, m_too_long, m_too_short, m_too_small,
};
use crate::node::{Node, NodeData};
use crate::pattern::Pattern;
use crate::reals::{real_eq, real_is_integral, real_lt, real_parse_ok, real_rem_zero, real_trunc};
use crate::render::format_i64;
use crate::schemas::{string_schema_wf, IntegerSchema, NumberSchema, StringSchema};
use crate::semantics::{
    bound_lex, err_at, errs_out, int_above, int_below, int_lex, int_multiple_of, num_errs_for_i64,
    num_errs_for_real, out_integer, out_number, out_string, string_errs, ErrItem, Outcome,
};
use crate::validation::{
    errs_view, lemma_render_at, lemma_render_concat, path_of, render_err, validate_post, Context,
};

verus! {

/// Records the one error of a single-error outcome and returns as the
/// fail-fast mode asks.
fn report_single(ctx: &mut Context, value: &Node, msg: String) -> (r: Result<(), Error>)
    ensures
        validate_post(errs_out(seq![err_at(*value, msg@)]), *old(ctx), *final(ctx), r),
{
    let res = ctx.report(value, msg);
    proof {
        lemma_render_at(path_of(*old(ctx)), *value, msg@);
        let f = |e: ErrItem| render_err(path_of(*old(ctx)), e);
        assert(seq![err_at(*value, msg@)].map_values(f) =~= seq![f(err_at(*value, msg@))]);
        assert(errs_view(ctx.errors@) =~= errs_view(old(ctx).errors@) + seq![
            f(err_at(*value, msg@)),
        ]);
    }
    res
}

/// Whether the integer is strictly below the bound.
fn int_below_exec(i: i64, b: &Number) -> (r: bool)
    ensures
        r == int_below(i, *b),
{
    match b {
        Number::Integer(m) => i < *m,
        Number::Float(fs) => {
            let lex = format_i64(i);
            real_lt(lex.as_str(), fs.as_str())
        },
    }
}

/// Whether the integer is strictly above the bound.
fn int_above_exec(i: i64, b: &Number) -> (r: bool)
    ensures
        r == int_above(i, *b),
{
    match b {
        Number::Integer(m) => i > *m,
        Number::Float(fs) => {
            let lex = format_i64(i);
            real_lt(fs.as_str(), lex.as_str())
        },
    }
}

/// Whether the integer is a multiple of the bound.
fn int_multiple_exec(i: i64, b: &Number) -> (r: bool)
    ensures
        r == int_multiple_of(i, *b),
{
    match b {
        Number::Integer(m) => {
            if *m == 0 {
                i == 0
            } else {
                let ia: u64 = if i >= 0 {
                    i as u64
                } else {
                    ((-(i as i128)) as u64)
                };
                let ma: u64 = if *m >= 0 {
                    (*m as u64)
                } else {
                    ((-(*m as i128)) as u64)
                };
                ia % ma == 0
            }
        },
        Number::Float(fs) => {
            let lex = format_i64(i);
            real_rem_zero(lex.as_str(), fs.as_str())
        },
    }
}

/// The lexical form a bound compares against a real value through.
fn bound_lex_exec(b: &Number) -> (r: String)
    ensures
        r@ == bound_lex(*b),
{
    match b {
        Number::Integer(m) => format_i64(*m),
        Number::Float(fs) => fs.clone(),
    }
}

/// Applies the numeric checks to an integer value: minimum, maximum,
/// exclusive minimum, exclusive maximum, multiple of, in that order.
fn check_i64(
    minimum: &Option<Number>,
    maximum: &Option<Number>,
    exclusive_minimum: &Option<Number>,
    exclusive_maximum: &Option<Number>,
    multiple_of: &Option<Number>,
    i: i64,
    ctx: &mut Context,
    value: &Node,
) -> (r: Result<(), Error>)
    ensures
        validate_post(
            errs_out(
                num_errs_for_i64(
                    *minimum,
                    *maximum,
                    *exclusive_minimum,
                    *exclusive_maximum,
                    *multiple_of,
                    i,
                    *value,
                ),
            ),
            *old(ctx),
            *final(ctx),
            r,
        ),
{
    let ghost prefix = path_of(*old(ctx));
    let ghost f = |e: ErrItem| render_err(prefix, e);
    let ghost all = num_errs_for_i64(
        *minimum,
        *maximum,
        *exclusive_minimum,
        *exclusive_maximum,
        *multiple_of,
        i,
        *value,
    );

    if let Some(b) = minimum {
        if int_below_exec(i, b) {
            match ctx.report(value, m_too_small()) {
                Err(e) => {
                    proof {
                        lemma_render_at(prefix, *value, crate::semantics::msg_too_small());
                        assert(all[0] == err_at(*value, crate::semantics::msg_too_small()));
                    }
                    return Err(e);
                },
                Ok(()) => {
                    proof {
                        lemma_render_at(prefix, *value, crate::semantics::msg_too_small());
                    }
                },
            }
        }
    }
    if let Some(b) = maximum {
        if int_above_exec(i, b) {
            match ctx.report(value, m_too_big()) {
                Err(e) => {
                    proof {
                        lemma_render_at(prefix, *value, crate::semantics::msg_too_big());
                        assert(all[0] == err_at(*value, crate::semantics::msg_too_big()));
                    }
                    return Err(e);
                },
                Ok(()) => {
                    proof {
                        lemma_render_at(prefix, *value, crate::semantics::msg_too_big());
                    }
                },
            }
        }
    }
    if let Some(b) = exclusive_minimum {
        if !int_above_exec(i, b) {
            match ctx.report(value, m_too_small()) {
                Err(e) => {
                    proof {
                        lemma_render_at(prefix, *value, crate::semantics::msg_too_small());
                        assert(all[0] == err_at(*value, crate::semantics::msg_too_small()));
                    }
                    return Err(e);
                },
                Ok(()) => {
                    proof {
                        lemma_render_at(prefix, *value, crate::semantics::msg_too_small());
                    }
                },
            }
        }
    }
    if let Some(b) = exclusive_maximum {
        if !int_below_exec(i, b) {
            match ctx.report(value, m_too_big()) {
                Err(e) => {
                    proof {
                        lemma_render_at(prefix, *value, crate::semantics::msg_too_big());
                        assert(all[0] == err_at(*value, crate::semantics::msg_too_big()));
                    }
                    return Err(e);
                },
                Ok(()) => {
                    proof {
                        lemma_render_at(prefix, *value, crate::semantics::msg_too_big());
                    }
                },
            }
        }
    }
    if let Some(b) = multiple_of {
        if !int_multiple_exec(i, b) {
            match ctx.report(value, m_not_multiple(b)) {
                Err(e) => {
                    proof {
                        let m = crate::semantics::msg_not_multiple(
                            crate::semantics::number_shown(*b),
                        );
                        lemma_render_at(prefix, *value, m);
                        assert(all[0] == err_at(*value, m));
                    }
                    return Err(e);
                },
                Ok(()) => {
                    proof {
                        lemma_render_at(
                            prefix,
                            *value,
                            crate::semantics::msg_not_multiple(
                                crate::semantics::number_shown(*b),
                            ),
                        );
                    }
                },
            }
        }
    }
    proof {
        assert(errs_view(ctx.errors@) =~= errs_view(old(ctx).errors@) + all.map_values(f));
    }
    Ok(())
}

/// Applies the numeric checks to a real value with lexical form `rs`.
fn check_real(
    minimum: &Option<Number>,
    maximum: &Option<Number>,
    exclusive_minimum: &Option<Number>,
    exclusive_maximum: &Option<Number>,
    multiple_of: &Option<Number>,
    rs: &String,
    ctx: &mut Context,
    value: &Node,
) -> (r: Result<(), Error>)
    ensures
        validate_post(
            errs_out(
                num_errs_for_real(
                    *minimum,
                    *maximum,
                    *exclusive_minimum,
                    *exclusive_maximum,
                    *multiple_of,
                    rs@,
                    *value,
                ),
            ),
            *old(ctx),
            *final(ctx),
            r,
        ),
{
    let ghost prefix = path_of(*old(ctx));
    let ghost f = |e: ErrItem| render_err(prefix, e);
    let ghost all = num_errs_for_real(
        *minimum,
        *maximum,
        *exclusive_minimum,
        *exclusive_maximum,
        *multiple_of,
        rs@,
        *value,
    );

    if let Some(b) = minimum {
        let lex = bound_lex_exec(b);
        if real_lt(rs.as_str(), lex.as_str()) {
            match ctx.report(value, m_too_small()) {
                Err(e) => {
                    proof {
                        lemma_render_at(prefix, *value, crate::semantics::msg_too_small());
                        assert(all[0] == err_at(*value, crate::semantics::msg_too_small()));
                    }
                    return Err(e);
                },
                Ok(()) => {
                    proof {
                        lemma_render_at(prefix, *value, crate::semantics::msg_too_small());
                    }
                },
            }
        }
    }
    if let Some(b) = maximum {
        let lex = bound_lex_exec(b);
        if real_lt(lex.as_str(), rs.as_str()) {
            match ctx.report(value, m_too_big()) {
                Err(e) => {
                    proof {
                        lemma_render_at(prefix, *value, crate::semantics::msg_too_big());
                        assert(all[0] == err_at(*value, crate::semantics::msg_too_big()));
                    }
                    return Err(e);
                },
                Ok(()) => {
                    proof {
                        lemma_render_at(prefix, *value, crate::semantics::msg_too_big());
                    }
                },
            }
        }
    }
    if let Some(b) = exclusive_minimum {
        let lex = bound_lex_exec(b);
        if !real_lt(lex.as_str(), rs.as_str()) {
            match ctx.report(value, m_too_small()) {
                Err(e) => {
                    proof {
                        lemma_render_at(prefix, *value, crate::semantics::msg_too_small());
                        assert(all[0] == err_at(*value, crate::semantics::msg_too_small()));
                    }
                    return Err(e);
                },
                Ok(()) => {
                    proof {
                        lemma_render_at(prefix, *value, crate::semantics::msg_too_small());
                    }
                },
            }
        }
    }
    if let Some(b) = exclusive_maximum {
        let lex = bound_lex_exec(b);
        if !real_lt(rs.as_str(), lex.as_str()) {
            match ctx.report(value, m_too_big()) {
                Err(e) => {
                    proof {
                        lemma_render_at(prefix, *value, crate::semantics::msg_too_big());
                        assert(all[0] == err_at(*value, crate::semantics::msg_too_big()));
                    }
                    return Err(e);
                },
                Ok(()) => {
                    proof {
                        lemma_render_at(prefix, *value, crate::semantics::msg_too_big());
                    }
                },
            }
        }
    }
    if let Some(b) = multiple_of {
        let lex = bound_lex_exec(b);
        if !real_rem_zero(rs.as_str(), lex.as_str()) {
            match ctx.report(value, m_not_multiple(b)) {
                Err(e) => {
                    proof {
                        let m = crate::semantics::msg_not_multiple(
                            crate::semantics::number_shown(*b),
                        );
                        lemma_render_at(prefix, *value, m);
                        assert(all[0] == err_at(*value, m));
                    }
                    return Err(e);
                },
                Ok(()) => {
                    proof {
                        lemma_render_at(
                            prefix,
                            *value,
                            crate::semantics::msg_not_multiple(
                                crate::semantics::number_shown(*b),
                            ),
                        );
                    }
                },
            }
        }
    }
    proof {
        assert(errs_view(ctx.errors@) =~= errs_view(old(ctx).errors@) + all.map_values(f));
    }
    Ok(())
}

impl IntegerSchema {
    /// Validates a node against this integer schema: integers and integral
    /// reals get the numeric checks, everything else a type error.
    pub fn validate(&self, ctx: &mut Context, value: &Node) -> (r: Result<(), Error>)
        ensures
            validate_post(out_integer(*self, *value), *old(ctx), *final(ctx), r),
    {
        match &value.data {
            NodeData::Integer(i) => check_i64(
                &self.minimum,
                &self.maximum,
                &self.exclusive_minimum,
                &self.exclusive_maximum,
                &self.multiple_of,
                *i,
                ctx,
                value,
            ),
            NodeData::Real(rs) => {
                if real_parse_ok(rs.as_str()) {
                    if real_is_integral(rs.as_str()) {
                        let t = real_trunc(rs.as_str());
                        check_i64(
                            &self.minimum,
                            &self.maximum,
                            &self.exclusive_minimum,
                            &self.exclusive_maximum,
                            &self.multiple_of,
                            t,
                            ctx,
                            value,
                        )
                    } else {
                        let msg = m_expected_integer(&value.data);
                        report_single(ctx, value, msg)
                    }
                } else {
                    let msg = m_expected_float(&value.data);
                    report_single(ctx, value, msg)
                }
            },
            _ => {
                let msg = m_expected_number(&value.data);
                report_single(ctx, value, msg)
            },
        }
    }
}

impl NumberSchema {
    /// Validates a node against this number schema: integers get the
    /// integer-domain checks, reals the floating-point checks.
    pub fn validate(&self, ctx: &mut Context, value: &Node) -> (r: Result<(), Error>)
        ensures
            validate_post(out_number(*self, *value), *old(ctx), *final(ctx), r),
    {
        match &value.data {
            NodeData::Integer(i) => check_i64(
                &self.minimum,
                &self.maximum,
                &self.exclusive_minimum,
                &self.exclusive_maximum,
                &self.multiple_of,
                *i,
                ctx,
                value,
            ),
            NodeData::Real(rs) => {
                if real_parse_ok(rs.as_str()) {
                    check_real(
                        &self.minimum,
                        &self.maximum,
                        &self.exclusive_minimum,
                        &self.exclusive_maximum,
                        &self.multiple_of,
                        rs,
                        ctx,
                        value,
                    )
                } else {
                    let msg = m_expected_float(&value.data);
                    report_single(ctx, value, msg)
                }
            },
            _ => {
                let msg = m_expected_number(&value.data);
                report_single(ctx, value, msg)
            },
        }
    }
}

impl StringSchema {
    /// Validates a node against this string schema: the length checks in
    /// bytes of the UTF-8 form, then the pattern.
    pub fn validate(&self, ctx: &mut Context, value: &Node) -> (r: Result<(), Error>)
        requires
            string_schema_wf(*self),
        ensures
            validate_post(out_string(*self, *value), *old(ctx), *final(ctx), r),
    {
        let ghost prefix = path_of(*old(ctx));
        let ghost f = |e: ErrItem| render_err(prefix, e);
        match &value.data {
            NodeData::String(t) => {
                let ghost all = string_errs(*self, t@, *value);
                let byte_len = t.as_str().as_bytes().len();
                if let Some(m) = &self.min_length {
                    if byte_len < *m {
                        match ctx.report(value, m_too_short(*m)) {
                            Err(e) => {
                                proof {
                                    lemma_render_at(
                                        prefix,
                                        *value,
                                        crate::semantics::msg_too_short(*m),
                                    );
                                    assert(all[0] == err_at(
                                        *value,
                                        crate::semantics::msg_too_short(*m),
                                    ));
                                }
                                return Err(e);
                            },
                            Ok(()) => {
                                proof {
                                    lemma_render_at(
                                        prefix,
                                        *value,
                                        crate::semantics::msg_too_short(*m),
                                    );
                                }
                            },
                        }
                    }
                }
                if let Some(m) = &self.max_length {
                    if byte_len > *m {
                        match ctx.report(value, m_too_long(*m)) {
                            Err(e) => {
                                proof {
                                    lemma_render_at(
                                        prefix,
                                        *value,
                                        crate::semantics::msg_too_long(*m),
                                    );
                                    assert(all[0] == err_at(
                                        *value,
                                        crate::semantics::msg_too_long(*m),
                                    ));
                                }
                                return Err(e);
                            },
                            Ok(()) => {
                                proof {
                                    lemma_render_at(
                                        prefix,
                                        *value,
                                        crate::semantics::msg_too_long(*m),
                                    );
                                }
                            },
                        }
                    }
                }
                if let Some(p) = &self.pattern {
                    if !p.is_match(t.as_str()) {
                        match ctx.report(value, m_pattern_mismatch(p.as_str())) {
                            Err(e) => {
                                proof {
                                    lemma_render_at(
                                        prefix,
                                        *value,
                                        crate::semantics::msg_pattern_mismatch(p.source@),
                                    );
                                    assert(all[0] == err_at(
                                        *value,
                                        crate::semantics::msg_pattern_mismatch(p.source@),
                                    ));
                                }
                                return Err(e);
                            },
                            Ok(()) => {
                                proof {
                                    lemma_render_at(
                                        prefix,
                                        *value,
                                        crate::semantics::msg_pattern_mismatch(p.source@),
                                    );
                                }
                            },
                        }
                    }
                }
                proof {
                    assert(errs_view(ctx.errors@) =~= errs_view(old(ctx).errors@)
                        + all.map_values(f));
                }
                Ok(())
            },
            _ => {
                let msg = m_expected_string(&value.data);
                report_single(ctx, value, msg)
            },
        }
    }
}

/// Whether the lexical form is one of the special float words that plain
/// parsing rejects.
fn is_special_float(s: &String) -> (r: bool)
    ensures
        r == crate::semantics::special_float(s@),
{
    s.eq(&String::from_str(".inf")) || s.eq(&String::from_str(".Inf")) || s.eq(
        &String::from_str(".INF"),
    ) || s.eq(&String::from_str("+.inf")) || s.eq(&String::from_str("+.Inf")) || s.eq(
        &String::from_str("+.INF"),
    ) || s.eq(&String::from_str("-.inf")) || s.eq(&String::from_str("-.Inf")) || s.eq(
        &String::from_str("-.INF"),
    ) || s.eq(&String::from_str(".nan")) || s.eq(&String::from_str("NaN")) || s.eq(
        &String::from_str(".NAN"),
    )
}

/// Whether the lexical form parses under plain float parsing.
pub fn plain_real_ok_exec(s: &String) -> (r: bool)
    ensures
        r == crate::semantics::plain_real_ok(s@),
{
    real_parse_ok(s.as_str()) && !is_special_float(s)
}

/// Equality of two constant values, as `const` and `enum` compare them.
fn const_eq_exec(a: &ConstValue, b: &ConstValue) -> (r: bool)
    ensures
        r == crate::semantics::const_eq(*a, *b),
{
    match (a, b) {
        (ConstValue::Boolean(x), ConstValue::Boolean(y)) => *x == *y,
        (ConstValue::Null, ConstValue::Null) => true,
        (ConstValue::Number(Number::Integer(x)), ConstValue::Number(Number::Integer(y))) => *x
            == *y,
        (ConstValue::Number(Number::Float(x)), ConstValue::Number(Number::Float(y))) => real_eq(
            x.as_str(),
            y.as_str(),
        ),
        (ConstValue::String(x), ConstValue::String(y)) => x.eq(y),
        _ => false,
    }
}

impl ConstSchema {
    /// Validates a node against this constant: the value must be the same
    /// scalar, with the variants matching exactly.
    pub fn validate(&self, ctx: &mut Context, value: &Node) -> (r: Result<(), Error>)
        ensures
            validate_post(crate::semantics::out_const(*self, *value), *old(ctx), *final(ctx), r),
    {
        match &self.value {
            ConstValue::Boolean(b) => {
                let same = match &value.data {
                    NodeData::Boolean(db) => *db == *b,
                    _ => false,
                };
                if same {
                    Ok(())
                } else {
                    let expected = if *b {
                        "true"
                    } else {
                        "false"
                    };
                    let msg = crate::messages::m_const_failed(expected, &value.data);
                    report_single(ctx, value, msg)
                }
            },
            ConstValue::Null => {
                let same = match &value.data {
                    NodeData::Null => true,
                    _ => false,
                };
                if same {
                    Ok(())
                } else {
                    let msg = crate::messages::m_const_failed("null", &value.data);
                    report_single(ctx, value, msg)
                }
            },
            ConstValue::Number(Number::Integer(i)) => {
                let same = match &value.data {
                    NodeData::Integer(di) => *di == *i,
                    _ => false,
                };
                if same {
                    Ok(())
                } else {
                    let expected = format_i64(*i);
                    let msg = crate::messages::m_const_failed(expected.as_str(), &value.data);
                    report_single(ctx, value, msg)
                }
            },
            ConstValue::Number(Number::Float(fs)) => {
                let same = match &value.data {
                    NodeData::Real(rs) => real_parse_ok(rs.as_str()) && real_eq(
                        rs.as_str(),
                        fs.as_str(),
                    ),
                    _ => false,
                };
                if same {
                    Ok(())
                } else {
                    let expected = crate::reals::real_display(fs.as_str());
                    let msg = crate::messages::m_const_failed(expected.as_str(), &value.data);
                    report_single(ctx, value, msg)
                }
            },
            ConstValue::String(cs) => {
                let same = match &value.data {
                    NodeData::String(ds) => ds.eq(cs),
                    _ => false,
                };
                if same {
                    Ok(())
                } else {
                    let mut expected = String::from_str("\"");
                    crate::node::push_escaped(&mut expected, cs.as_str());
                    expected.append("\"");
                    let msg = crate::messages::m_const_failed(expected.as_str(), &value.data);
                    proof {
                        assert(expected@ =~= "\""@ + crate::node::escaped(cs@) + "\""@);
                    }
                    report_single(ctx, value, msg)
                }
            },
        }
    }
}

impl crate::schemas::EnumSchema {
    /// Validates a node against this enumeration: the scalar value must
    /// occur in the list; values without a constant form abort.
    pub fn validate(&self, ctx: &mut Context, value: &Node) -> (r: Result<(), Error>)
        ensures
            validate_post(crate::semantics::out_enum(*self, *value), *old(ctx), *final(ctx), r),
    {
        let cv: Option<ConstValue> = match &value.data {
            NodeData::String(s) => Some(ConstValue::String(s.clone())),
            NodeData::Integer(i) => Some(ConstValue::Number(Number::Integer(*i))),
            NodeData::Real(rs) => {
                if plain_real_ok_exec(rs) {
                    Some(ConstValue::Number(Number::Float(rs.clone())))
                } else {
                    None
                }
            },
            NodeData::Boolean(b) => Some(ConstValue::Boolean(*b)),
            NodeData::Null => Some(ConstValue::Null),
            _ => None,
        };
        proof {
            assert(cv == crate::semantics::const_of_data(value.data));
        }
        match cv {
            Some(c) => {
                let mut j: usize = 0;
                while j < self.values.len()
                    invariant
                        j <= self.values@.len(),
                        *ctx == *old(ctx),
                        crate::semantics::const_of_data(value.data) == Some(c),
                        forall|k: int|
                            0 <= k < j ==> !crate::semantics::const_eq(
                                #[trigger] self.values@[k],
                                c,
                            ),
                    decreases self.values@.len() - j,
                {
                    if const_eq_exec(&self.values[j], &c) {
                        proof {
                            assert(crate::semantics::const_eq(self.values@[j as int], c));
                            assert(crate::semantics::const_in_list(self.values@, c));
                            let f = |e: ErrItem| render_err(path_of(*old(ctx)), e);
                            assert(errs_view(ctx.errors@) =~= errs_view(old(ctx).errors@)
                                + Seq::<ErrItem>::empty().map_values(f));
                        }
                        return Ok(());
                    }
                    j = j + 1;
                }
                assert(!crate::semantics::const_in_list(self.values@, c));
                let msg = crate::messages::m_not_in_enum(&value.data, &self.values);
                report_single(ctx, value, msg)
            },
            None => {
                let msg = crate::messages::m_not_convertible(&value.data);
                Err(Error::GenericError(msg))
            },
        }
    }
}

/// Sequentially probes the schemas against the value, each in a fresh
/// fail-fast context; the first schema that matches decides. Returns
/// whether any matched; a probe that aborts propagates its error.
pub fn validate_any_of(schemas: &Vec<YamlSchema>, value: &Node) -> (r: Result<bool, Error>)
    requires
        crate::schemas::schema_list_wf(schemas@, 0),
    ensures
        ({
            let o = crate::semantics::out_any(schemas@, *value, 0);
            match o.abort {
                Some(m) => r matches Err(e) && (e matches Error::GenericError(s) && s@ == m),
                None => if o.errors.len() == 0 {
                    r == Ok::<bool, Error>(true)
                } else {
                    r == Ok::<bool, Error>(false)
                },
            }
        }),
    decreases schemas@, 0int,
{
    let mut i: usize = 0;
    while i < schemas.len()
        invariant
            i <= schemas@.len(),
            crate::schemas::schema_list_wf(schemas@, 0),
            crate::semantics::out_any(schemas@, *value, 0) == crate::semantics::out_any(
                schemas@,
                *value,
                i as int,
            ),
        decreases schemas@.len() - i,
    {
        proof {
            crate::schemas::lemma_schema_list_wf_elem(schemas@, i as int);
        }
        let mut sub = Context::new(true);
        let res = schemas[i].validate(&mut sub, value);
        match res {
            Ok(()) => {
                proof {
                    assert(crate::semantics::probe_ok(
                        crate::semantics::out(schemas@[i as int], *value),
                    ));
                }
                return Ok(true);
            },
            Err(e) => {
                match e {
                    Error::FailFast => {},
                    e2 => {
                        return Err(e2);
                    },
                }
            },
        }
        i = i + 1;
    }
    Ok(false)
}

/// Probes every schema against the value, counting the matches; records
/// the multiple-match error on the second match. Returns whether at least
/// one schema matched.
pub fn validate_one_of(ctx: &mut Context, schemas: &Vec<YamlSchema>, value: &Node) -> (r: Result<
    bool,
    Error,
>)
    requires
        crate::schemas::schema_list_wf(schemas@, 0),
    ensures
        ({
            let w = crate::semantics::one_walk(schemas@, *value, 0, 0);
            &&& validate_post(w, *old(ctx), *final(ctx), crate::validation::forget_ok(r))
            &&& (r matches Ok(b) ==> b == (crate::semantics::count_probe_ok(schemas@, *value, 0)
                >= 1))
        }),
    decreases schemas@, 0int,
{
    let ghost prefix = path_of(*old(ctx));
    let ghost f = |e: ErrItem| render_err(prefix, e);
    let mut valid = false;
    let mut multi = false;
    let mut i: usize = 0;
    let ghost mut cnt: int = 0;
    proof {
        crate::semantics::lemma_count_probe_ok_nonneg(schemas@, *value, 0);
    }
    while i < schemas.len()
        invariant
            i <= schemas@.len(),
            crate::schemas::schema_list_wf(schemas@, 0),
            ctx.fail_fast == old(ctx).fail_fast,
            path_of(*ctx) == path_of(*old(ctx)),
            prefix == path_of(*old(ctx)),
            f == (|e: ErrItem| render_err(prefix, e)),
            cnt >= 0,
            valid == (cnt >= 1),
            multi == (cnt >= 2),
            crate::semantics::count_probe_ok(schemas@, *value, 0) == cnt
                + crate::semantics::count_probe_ok(schemas@, *value, i as int),
            crate::semantics::one_walk(schemas@, *value, 0, 0) == crate::semantics::errs_then(
                if multi {
                    seq![
                        crate::semantics::err_at(
                            *value,
                            crate::semantics::msg_multiple_matched_one_of(),
                        ),
                    ]
                } else {
                    Seq::<ErrItem>::empty()
                },
                crate::semantics::one_walk(
                    schemas@,
                    *value,
                    i as int,
                    if multi {
                        2int
                    } else if valid {
                        1int
                    } else {
                        0int
                    },
                ),
            ),
            errs_view(ctx.errors@) == errs_view(old(ctx).errors@) + (if multi {
                seq![
                    crate::semantics::err_at(
                        *value,
                        crate::semantics::msg_multiple_matched_one_of(),
                    ),
                ]
            } else {
                Seq::<ErrItem>::empty()
            }).map_values(f),
            old(ctx).fail_fast ==> !multi,
        decreases schemas@.len() - i,
    {
        proof {
            crate::schemas::lemma_schema_list_wf_elem(schemas@, i as int);
        }
        let mut sub = Context::new(true);
        let res = schemas[i].validate(&mut sub, value);
        match res {
            Ok(()) => {
                proof {
                    assert(crate::semantics::probe_ok(
                        crate::semantics::out(schemas@[i as int], *value),
                    ));
                }
                if valid {
                    if !multi {
                        match ctx.report(value, crate::messages::m_multiple_matched_one_of()) {
                            Err(e) => {
                                proof {
                                    lemma_render_at(
                                        prefix,
                                        *value,
                                        crate::semantics::msg_multiple_matched_one_of(),
                                    );
                                    let w = crate::semantics::one_walk(schemas@, *value, 0, 0);
                                    assert(w.errors[0] == crate::semantics::err_at(
                                        *value,
                                        crate::semantics::msg_multiple_matched_one_of(),
                                    ));
                                }
                                return Err(e);
                            },
                            Ok(()) => {
                                multi = true;
                                proof {
                                    lemma_render_at(
                                        prefix,
                                        *value,
                                        crate::semantics::msg_multiple_matched_one_of(),
                                    );
                                    assert(errs_view(ctx.errors@) =~= errs_view(old(ctx).errors@)
                                        + (seq![
                                        crate::semantics::err_at(
                                            *value,
                                            crate::semantics::msg_multiple_matched_one_of(),
                                        ),
                                    ]).map_values(f));
                                }
                            },
                        }
                    }
                } else {
                    valid = true;
                }
                proof {
                    cnt = cnt + 1;
                }
            },
            Err(e) => {
                match e {
                    Error::FailFast => {},
                    e2 => {
                        proof {
                            let w = crate::semantics::one_walk(schemas@, *value, 0, 0);
                            assert(crate::semantics::out(
                                schemas@[i as int],
                                *value,
                            ).abort is Some);
                        }
                        return Err(e2);
                    },
                }
            },
        }
        i = i + 1;
    }
    proof {
        let w = crate::semantics::one_walk(schemas@, *value, 0, 0);
        assert(crate::semantics::one_walk(
            schemas@,
            *value,
            schemas@.len() as int,
            if multi {
                2int
            } else if valid {
                1int
            } else {
                0int
            },
        ) == crate::semantics::ok_out());
        if !multi {
            crate::validation::lemma_render_empty(prefix);
            assert(w.errors =~= Seq::<ErrItem>::empty());
            assert(errs_view(ctx.errors@) =~= errs_view(old(ctx).errors@) + w.errors.map_values(
                f,
            ));
        } else {
            assert(errs_view(ctx.errors@) =~= errs_view(old(ctx).errors@) + w.errors.map_values(
                f,
            ));
        }
    }
    Ok(valid)
}

/// Whether the mapping has an entry whose key is the string `name`.
fn has_string_key_exec(entries: &Vec<(Node, Node)>, name: &String) -> (r: bool)
    ensures
        r == crate::semantics::has_string_key(entries@, name@),
{
    let mut j: usize = 0;
    while j < entries.len()
        invariant
            j <= entries@.len(),
            forall|k: int|
                0 <= k < j ==> !(#[trigger] entries@[k].0.data matches NodeData::String(s) && s@
                    == name@),
        decreases entries@.len() - j,
    {
        match &entries[j].0.data {
            NodeData::String(s) => {
                if s.eq(name) {
                    return true;
                }
            },
            _ => {},
        }
        j = j + 1;
    }
    false
}

/// Tries to validate the value against the schema its key is declared
/// under, in a child path; returns whether the key was declared at all.
pub fn try_validate_value_against_properties(
    ctx: &mut Context,
    key: &String,
    value: &Node,
    properties: &Vec<(String, YamlSchema)>,
) -> (r: Result<bool, Error>)
    requires
        crate::schemas::prop_list_wf(properties@, 0),
    ensures
        ({
            let found = crate::semantics::has_prop(properties@, key@);
            &&& (found ==> validate_post(
                crate::semantics::shift_out(
                    crate::semantics::out_props(properties@, 0, key@, *value),
                    key@,
                ),
                *old(ctx),
                *final(ctx),
                crate::validation::forget_ok(r),
            ))
            &&& (found ==> (r is Ok ==> r == Ok::<bool, Error>(true)))
            &&& (!found ==> *final(ctx) == *old(ctx) && r == Ok::<bool, Error>(false))
        }),
    decreases properties@, 0int,
{
    let ghost prefix = path_of(*old(ctx));
    let mut j: usize = 0;
    while j < properties.len()
        invariant
            j <= properties@.len(),
            crate::schemas::prop_list_wf(properties@, 0),
            *ctx == *old(ctx),
            prefix == path_of(*old(ctx)),
            crate::semantics::out_props(properties@, 0, key@, *value)
                == crate::semantics::out_props(properties@, j as int, key@, *value),
            forall|k: int| 0 <= k < j ==> (#[trigger] properties@[k].0)@ != key@,
        decreases properties@.len() - j,
    {
        if properties[j].0.eq(key) {
            let ghost inner = crate::semantics::out(properties@[j as int].1, *value);
            proof {
                crate::schemas::lemma_prop_list_wf_elem(properties@, j as int);
                assert(crate::semantics::has_prop(properties@, key@));
                assert(crate::semantics::out_props(properties@, j as int, key@, *value)
                    == inner);
            }
            ctx.push_path_segment(key.clone());
            let res = properties[j].1.validate(ctx, value);
            ctx.pop_path_segment();
            proof {
                assert(path_of(*ctx) =~= prefix);
                crate::validation::lemma_render_shift(inner.errors, prefix, key@);
                if inner.errors.len() > 0 {
                    crate::validation::lemma_render_shift_one(inner.errors[0], prefix, key@);
                }
            }
            match res {
                Ok(()) => {
                    return Ok(true);
                },
                Err(e) => {
                    return Err(e);
                },
            }
        }
        j = j + 1;
    }
    proof {
        assert(!crate::semantics::has_prop(properties@, key@));
    }
    Ok(false)
}

/// Validates the value of a key that is not declared under `properties`
/// against the `additionalProperties` rule. Returns false when additional
/// properties are forbidden (the error is recorded).
pub fn try_validate_value_against_additional_properties(
    ctx: &mut Context,
    key: &String,
    value: &Node,
    additional_properties: &crate::BoolOrTypedSchema,
) -> (r: Result<bool, Error>)
    requires
        (additional_properties matches BoolOrTypedSchema::TypedSchema(ts)
            ==> crate::schemas::typed_schema_wf(**ts)),
    ensures
        ({
            let o = match *additional_properties {
                BoolOrTypedSchema::Boolean(b) => if b {
                    crate::semantics::ok_out()
                } else {
                    crate::semantics::errs_out(
                        seq![
                            crate::semantics::err_at(
                                *value,
                                crate::semantics::msg_additional_property(key@),
                            ),
                        ],
                    )
                },
                BoolOrTypedSchema::TypedSchema(ts) => crate::semantics::shift_out(
                    crate::semantics::out_typed(*ts, *value),
                    key@,
                ),
            };
            &&& validate_post(o, *old(ctx), *final(ctx), crate::validation::forget_ok(r))
            &&& (r is Ok ==> r == Ok::<bool, Error>(
                match *additional_properties {
                    BoolOrTypedSchema::Boolean(b2) => b2,
                    _ => true,
                },
            ))
        }),
    decreases *additional_properties, 0int,
{
    let ghost prefix = path_of(*old(ctx));
    match additional_properties {
        BoolOrTypedSchema::Boolean(b) => {
            if *b {
                proof {
                    crate::validation::lemma_render_empty(prefix);
                    assert(errs_view(ctx.errors@) =~= errs_view(old(ctx).errors@) + Seq::<
                        ErrItem,
                    >::empty().map_values(|e: ErrItem| render_err(prefix, e)));
                }
                Ok(true)
            } else {
                let msg = crate::messages::m_additional_property(key.as_str());
                let res = ctx.report(value, msg);
                proof {
                    lemma_render_at(
                        prefix,
                        *value,
                        crate::semantics::msg_additional_property(key@),
                    );
                    let one = crate::semantics::err_at(
                        *value,
                        crate::semantics::msg_additional_property(key@),
                    );
                    let fr = |e: ErrItem| render_err(prefix, e);
                    assert(seq![one].map_values(fr) =~= seq![fr(one)]);
                    assert(errs_view(ctx.errors@) =~= errs_view(old(ctx).errors@)
                        + seq![one].map_values(fr));
                }
                match res {
                    Err(e) => Err(e),
                    Ok(()) => Ok(false),
                }
            }
        },
        BoolOrTypedSchema::TypedSchema(ts) => {
            let ghost inner = crate::semantics::out_typed(**ts, *value);
            ctx.push_path_segment(key.clone());
            let res = ts.validate(ctx, value);
            ctx.pop_path_segment();
            proof {
                assert(path_of(*ctx) =~= prefix);
                crate::validation::lemma_render_shift(inner.errors, prefix, key@);
                if inner.errors.len() > 0 {
                    crate::validation::lemma_render_shift_one(inner.errors[0], prefix, key@);
                }
            }
            match res {
                Ok(()) => Ok(true),
                Err(e) => Err(e),
            }
        },
    }
}

/// Validates the value against every pattern property whose pattern
/// matches the key, in declaration order.
fn validate_pattern_properties(
    ctx: &mut Context,
    key: &String,
    value: &Node,
    pattern_properties: &Vec<(Pattern, YamlSchema)>,
) -> (r: Result<(), Error>)
    requires
        crate::schemas::patprop_list_wf(pattern_properties@, 0),
    ensures
        validate_post(
            crate::semantics::out_patprops(pattern_properties@, 0, key@, *value),
            *old(ctx),
            *final(ctx),
            r,
        ),
    decreases pattern_properties@, 0int,
{
    let ghost prefix = path_of(*old(ctx));
    let ghost f = |e: ErrItem| render_err(prefix, e);
    let ghost mut acc: Seq<ErrItem> = Seq::empty();
    proof {
        crate::validation::lemma_render_empty(prefix);
        assert(errs_view(ctx.errors@) =~= errs_view(old(ctx).errors@) + acc.map_values(f));
    }
    let mut j: usize = 0;
    while j < pattern_properties.len()
        invariant
            j <= pattern_properties@.len(),
            crate::schemas::patprop_list_wf(pattern_properties@, 0),
            ctx.fail_fast == old(ctx).fail_fast,
            path_of(*ctx) == path_of(*old(ctx)),
            prefix == path_of(*old(ctx)),
            f == (|e: ErrItem| render_err(prefix, e)),
            crate::semantics::out_patprops(pattern_properties@, 0, key@, *value)
                == crate::semantics::errs_then(
                acc,
                crate::semantics::out_patprops(pattern_properties@, j as int, key@, *value),
            ),
            errs_view(ctx.errors@) == errs_view(old(ctx).errors@) + acc.map_values(f),
            old(ctx).fail_fast ==> acc.len() == 0,
        decreases pattern_properties@.len() - j,
    {
        proof {
            crate::schemas::lemma_patprop_list_wf_elem(pattern_properties@, j as int);
        }
        let ghost walk_j = crate::semantics::out_patprops(
            pattern_properties@,
            j as int,
            key@,
            *value,
        );
        let ghost walk_next = crate::semantics::out_patprops(
            pattern_properties@,
            j + 1,
            key@,
            *value,
        );
        if pattern_properties[j].0.is_match(key.as_str()) {
            let ghost inner = crate::semantics::out(pattern_properties@[j as int].1, *value);
            proof {
                assert(walk_j == crate::semantics::then_out(inner, walk_next));
            }
            let res = pattern_properties[j].1.validate(ctx, value);
            proof {
                lemma_render_concat(acc, inner.errors, prefix);
            }
            match res {
                Ok(()) => {
                    proof {
                        let acc0 = acc;
                        acc = acc + inner.errors;
                        assert(inner.abort is None);
                        assert((acc0 + inner.errors) + walk_next.errors =~= acc0 + (inner.errors
                            + walk_next.errors));
                        assert(crate::semantics::errs_then(acc, walk_next)
                            == crate::semantics::errs_then(acc0, walk_j));
                    }
                },
                Err(e) => {
                    proof {
                        let whole = crate::semantics::out_patprops(
                            pattern_properties@,
                            0,
                            key@,
                            *value,
                        );
                        assert(whole.errors =~= acc + walk_j.errors);
                        assert(whole.abort == walk_j.abort);
                        if inner.abort is Some {
                            assert(walk_j == inner);
                            assert(whole.errors =~= acc + inner.errors);
                        }
                        if inner.errors.len() > 0 {
                            assert(walk_j.errors[0] == inner.errors[0]);
                        }
                        if old(ctx).fail_fast {
                            crate::validation::lemma_ff_base(old(ctx).errors@, acc, prefix);
                        } else {
                            assert(inner.abort is Some);
                            assert(errs_view(ctx.errors@) =~= errs_view(old(ctx).errors@)
                                + whole.errors.map_values(f));
                        }
                    }
                    return Err(e);
                },
            }
        } else {
            proof {
                assert(walk_j == crate::semantics::then_out(crate::semantics::ok_out(), walk_next));
                assert(walk_j == walk_next);
            }
        }
        j = j + 1;
    }
    proof {
        assert(crate::semantics::out_patprops(
            pattern_properties@,
            pattern_properties@.len() as int,
            key@,
            *value,
        ) == crate::semantics::ok_out());
        let whole = crate::semantics::out_patprops(pattern_properties@, 0, key@, *value);
        assert(whole.errors =~= acc);
        assert(whole.abort is None);
        if !old(ctx).fail_fast {
            assert(errs_view(ctx.errors@) =~= errs_view(old(ctx).errors@)
                + whole.errors.map_values(|e2: ErrItem| render_err(path_of(*old(ctx)), e2)));
        }
    }
    Ok(())
}


/// Validates one mapping entry against the object schema's rules: a
/// declared key descends into its property schema; any other key meets
/// `additionalProperties`, the matching `patternProperties` and
/// `propertyNames`.
#[verifier::rlimit(100)]
fn validate_object_entry(
    schema: &crate::ObjectSchema,
    ctx: &mut Context,
    k: &Node,
    val: &Node,
) -> (r: Result<(), Error>)
    requires
        crate::schemas::object_schema_wf(*schema),
    ensures
        validate_post(
            crate::semantics::entry_step(*schema, *k, *val),
            *old(ctx),
            *final(ctx),
            r,
        ),
    decreases *schema, 1int,
{
    let ghost prefix = path_of(*old(ctx));
    let key: String = match &k.data {
        NodeData::String(s) => s.clone(),
        _ => String::new(),
    };
    proof {
        reveal_strlit("");
        assert(key@ == crate::semantics::key_string(*k));
    }
    let ghost step: crate::semantics::Outcome = crate::semantics::entry_step(*schema, *k, *val);
    if let Some(props) = &schema.properties {
        let res = try_validate_value_against_properties(ctx, &key, val, props);
        match res {
            Err(e) => {
                proof {
                    assert(crate::semantics::key_declared(*schema, key@));
                    assert(step == crate::semantics::prop_step(*schema, key@, *val));
                }
                return Err(e);
            },
            Ok(found) => {
                if found {
                    proof {
                        assert(crate::semantics::key_declared(*schema, key@));
                        assert(step == crate::semantics::prop_step(*schema, key@, *val));
                    }
                    return Ok(());
                } else {
                    proof {
                        assert(!crate::semantics::key_declared(*schema, key@));
                    }
                }
            },
        }
    } else {
        proof {
            assert(!crate::semantics::key_declared(*schema, key@));
        }
    }
    let ghost addl_o = crate::semantics::addl_step(*schema, key@, *val);
    let ghost pats_o = crate::semantics::pats_step(*schema, key@, *val);
    let ghost names_o = crate::semantics::names_step(*schema, *k, key@);
    let ghost mut done: Seq<ErrItem> = Seq::empty();
    proof {
        assert(step == crate::semantics::then_out(
            addl_o,
            crate::semantics::then_out(pats_o, names_o),
        ));
    }
    if let Some(ap) = &schema.additional_properties {
        let res = try_validate_value_against_additional_properties(ctx, &key, val, ap);
        match res {
            Err(e) => {
                proof {
                    if addl_o.abort is Some {
                        assert(step == addl_o);
                    }
                    if addl_o.errors.len() > 0 {
                        assert(step.errors[0] == addl_o.errors[0]);
                        assert(step.errors.len() > 0);
                    }
                    if !old(ctx).fail_fast {
                        assert(step.errors =~= addl_o.errors);
                        assert(errs_view(ctx.errors@) =~= errs_view(old(ctx).errors@)
                            + step.errors.map_values(
                            |e2: ErrItem| render_err(path_of(*old(ctx)), e2),
                        ));
                    }
                }
                return Err(e);
            },
            Ok(_) => {
                proof {
                    assert(addl_o.abort is None);
                    done = addl_o.errors;
                }
            },
        }
    } else {
        proof {
            assert(addl_o == crate::semantics::ok_out());
        }
    }
    if let Some(pp) = &schema.pattern_properties {
        let res = validate_pattern_properties(ctx, &key, val, pp);
        proof {
            lemma_render_concat(done, pats_o.errors, prefix);
        }
        match res {
            Err(e) => {
                proof {
                    if pats_o.abort is Some {
                        assert(step.abort == pats_o.abort);
                        assert(step.errors =~= done + pats_o.errors);
                    }
                    if old(ctx).fail_fast {
                        assert(done.len() == 0);
                        crate::validation::lemma_ff_base(old(ctx).errors@, done, prefix);
                        if pats_o.errors.len() > 0 {
                            assert(step.errors[0] == pats_o.errors[0]);
                            assert(step.errors.len() > 0);
                        }
                    } else {
                        assert(errs_view(ctx.errors@) =~= errs_view(old(ctx).errors@)
                            + step.errors.map_values(
                            |e2: ErrItem| render_err(path_of(*old(ctx)), e2),
                        ));
                    }
                }
                return Err(e);
            },
            Ok(()) => {
                proof {
                    assert(pats_o.abort is None);
                    done = done + pats_o.errors;
                }
            },
        }
    } else {
        proof {
            assert(pats_o == crate::semantics::ok_out());
        }
    }
    if let Some(pn) = &schema.property_names {
        if !pn.is_match(key.as_str()) {
            let ghost one = crate::semantics::err_at(
                *k,
                crate::semantics::msg_property_name(key@),
            );
            proof {
                assert(names_o == crate::semantics::errs_out(seq![one]));
            }
            let msg = crate::messages::m_property_name(key.as_str());
            let res = ctx.report(k, msg);
            proof {
                lemma_render_at(prefix, *k, crate::semantics::msg_property_name(key@));
                lemma_render_concat(done, seq![one], prefix);
            }
            match res {
                Err(e) => {
                    proof {
                        assert(old(ctx).fail_fast);
                        assert(done.len() == 0);
                        crate::validation::lemma_ff_base(old(ctx).errors@, done, prefix);
                        assert(step.errors =~= seq![one]);
                        assert(step.errors[0] == one);
                    }
                    return Err(e);
                },
                Ok(()) => {
                    proof {
                        done = done + seq![one];
                    }
                },
            }
        } else {
            proof {
                assert(names_o == crate::semantics::ok_out());
            }
        }
    } else {
        proof {
            assert(names_o == crate::semantics::ok_out());
        }
    }
    proof {
        assert(step.errors =~= addl_o.errors + (pats_o.errors + names_o.errors));
        assert(done =~= step.errors);
        assert(step.abort is None);
        if !old(ctx).fail_fast {
            assert(errs_view(ctx.errors@) =~= errs_view(old(ctx).errors@)
                + step.errors.map_values(|e2: ErrItem| render_err(path_of(*old(ctx)), e2)));
        } else {
            assert(done.len() == 0);
            assert(errs_view(ctx.errors@) =~= errs_view(old(ctx).errors@));
        }
    }
    Ok(())
}

impl crate::ObjectSchema {
    /// Validates a node against this object schema: each entry in document
    /// order, then the required-property and size checks.
    #[verifier::rlimit(100)]
    pub fn validate(&self, ctx: &mut Context, value: &Node) -> (r: Result<(), Error>)
        requires
            crate::schemas::object_schema_wf(*self),
        ensures
            validate_post(
                crate::semantics::out_object(*self, *value),
                *old(ctx),
                *final(ctx),
                r,
            ),
        decreases *self, 2int,
    {
        let entries: &Vec<(Node, Node)> = match &value.data {
            NodeData::Hash(es) => es,
            _ => {
                let msg = crate::messages::m_expected_object(&value.data);
                return report_single(ctx, value, msg);
            },
        };
        let ghost prefix = path_of(*old(ctx));
        let ghost f = |e: ErrItem| render_err(prefix, e);
        let ghost mut acc: Seq<ErrItem> = Seq::empty();
        proof {
            crate::validation::lemma_render_empty(prefix);
            assert(errs_view(ctx.errors@) =~= errs_view(old(ctx).errors@) + acc.map_values(f));
            assert(crate::semantics::out_object(*self, *value) == crate::semantics::then_out(
                crate::semantics::out_object_entries(*self, entries@, 0),
                crate::semantics::errs_out(
                    crate::semantics::object_tail_errs(*self, entries@, *value),
                ),
            ));
        }
        let mut i: usize = 0;
        while i < entries.len()
            invariant
                i <= entries@.len(),
                crate::schemas::object_schema_wf(*self),
                ctx.fail_fast == old(ctx).fail_fast,
                path_of(*ctx) == path_of(*old(ctx)),
                prefix == path_of(*old(ctx)),
                f == (|e: ErrItem| render_err(prefix, e)),
                crate::semantics::out_object(*self, *value) == crate::semantics::then_out(
                    crate::semantics::out_object_entries(*self, entries@, 0),
                    crate::semantics::errs_out(
                        crate::semantics::object_tail_errs(*self, entries@, *value),
                    ),
                ),
                crate::semantics::out_object_entries(*self, entries@, 0)
                    == crate::semantics::errs_then(
                    acc,
                    crate::semantics::out_object_entries(*self, entries@, i as int),
                ),
                errs_view(ctx.errors@) == errs_view(old(ctx).errors@) + acc.map_values(f),
                old(ctx).fail_fast ==> acc.len() == 0,
            decreases entries@.len() - i,
        {
            let ghost walk_i = crate::semantics::out_object_entries(*self, entries@, i as int);
            let ghost walk_next = crate::semantics::out_object_entries(*self, entries@, i + 1);
            let ghost step: crate::semantics::Outcome = crate::semantics::entry_step(
                *self,
                entries@[i as int].0,
                entries@[i as int].1,
            );
            let ghost whole = crate::semantics::out_object(*self, *value);
            let ghost entries0 = crate::semantics::out_object_entries(*self, entries@, 0);
            proof {
                assert(walk_i == crate::semantics::then_out(step, walk_next));
                assert(entries0.errors =~= acc + walk_i.errors);
                assert(entries0.abort == walk_i.abort);
            }
            let res = validate_object_entry(self, ctx, &entries[i].0, &entries[i].1);
            proof {
                lemma_render_concat(acc, step.errors, prefix);
            }
            match res {
                Ok(()) => {
                    proof {
                        let acc0 = acc;
                        acc = acc + step.errors;
                        assert(step.abort is None);
                        assert((acc0 + step.errors) + walk_next.errors =~= acc0 + (step.errors
                            + walk_next.errors));
                        assert(crate::semantics::errs_then(acc, walk_next)
                            == crate::semantics::errs_then(acc0, walk_i));
                        assert(errs_view(ctx.errors@) =~= errs_view(old(ctx).errors@)
                            + acc.map_values(f));
                    }
                },
                Err(e) => {
                    proof {
                        if step.abort is Some {
                            assert(walk_i == step);
                            assert(whole == entries0);
                            assert(whole.errors =~= acc + step.errors);
                            if !old(ctx).fail_fast {
                                assert(errs_view(ctx.errors@) =~= errs_view(old(ctx).errors@)
                                    + whole.errors.map_values(
                                    |e2: ErrItem| render_err(path_of(*old(ctx)), e2),
                                ));
                            }
                        }
                        if old(ctx).fail_fast {
                            crate::validation::lemma_ff_base(old(ctx).errors@, acc, prefix);
                            if step.errors.len() > 0 {
                                assert(walk_i.errors[0] == step.errors[0]);
                                assert(entries0.errors[0] == step.errors[0]);
                                assert(whole.errors[0] == step.errors[0]);
                            }
                        }
                    }
                    return Err(e);
                },
            }
            i = i + 1;
        }
        proof {
            assert(crate::semantics::out_object_entries(*self, entries@, entries@.len() as int)
                == crate::semantics::ok_out());
        }
        let ghost tail = crate::semantics::object_tail_errs(*self, entries@, *value);
        let ghost mut tacc: Seq<ErrItem> = Seq::empty();
        if let Some(req) = &self.required {
            let mut t: usize = 0;
            while t < req.len()
                invariant
                    t <= req@.len(),
                    self.required matches Some(rq) && rq@ == req@,
                    ctx.fail_fast == old(ctx).fail_fast,
                    path_of(*ctx) == path_of(*old(ctx)),
                    prefix == path_of(*old(ctx)),
                    f == (|e: ErrItem| render_err(prefix, e)),
                    crate::semantics::required_errs(req@, entries@, 0, *value)
                        == tacc + crate::semantics::required_errs(req@, entries@, t as int, *value),
                    errs_view(ctx.errors@) == errs_view(old(ctx).errors@) + (acc
                        + tacc).map_values(f),
                    old(ctx).fail_fast ==> acc.len() == 0 && tacc.len() == 0,
                    crate::semantics::out_object(*self, *value) == crate::semantics::errs_out(
                        acc + crate::semantics::object_tail_errs(*self, entries@, *value),
                    ),
                    tail == crate::semantics::object_tail_errs(*self, entries@, *value),
                    crate::semantics::out_object_entries(*self, entries@, 0)
                        == crate::semantics::errs_out(acc),
                decreases req@.len() - t,
            {
                let ghost rwalk = crate::semantics::required_errs(req@, entries@, t as int, *value);
                let ghost rnext = crate::semantics::required_errs(req@, entries@, t + 1, *value);
                if !has_string_key_exec(entries, &req[t]) {
                    let ghost one = crate::semantics::err_at(
                        *value,
                        crate::semantics::msg_required_missing(req@[t as int]@),
                    );
                    let msg = crate::messages::m_required_missing(req[t].as_str());
                    let res = ctx.report(value, msg);
                    proof {
                        lemma_render_at(
                            prefix,
                            *value,
                            crate::semantics::msg_required_missing(req@[t as int]@),
                        );
                        lemma_render_concat(acc, tacc, prefix);
                        lemma_render_concat(acc + tacc, seq![one], prefix);
                        assert((acc + tacc) + seq![one] =~= acc + (tacc + seq![one]));
                    }
                    match res {
                        Err(e) => {
                            proof {
                                let whole = crate::semantics::out_object(*self, *value);
                                assert(old(ctx).fail_fast);
                                assert((acc + tacc).len() == 0);
                                crate::validation::lemma_ff_base(
                                    old(ctx).errors@,
                                    acc + tacc,
                                    prefix,
                                );
                                assert(tacc =~= Seq::<ErrItem>::empty());
                                assert(whole.errors[0] == one);
                            }
                            return Err(e);
                        },
                        Ok(()) => {
                            proof {
                                tacc = tacc + seq![one];
                            }
                        },
                    }
                } else {
                    proof {
                        assert(tacc + rwalk =~= tacc + rnext);
                    }
                }
                t = t + 1;
            }
            proof {
                assert(crate::semantics::required_errs(req@, entries@, req@.len() as int, *value)
                    =~= Seq::<ErrItem>::empty());
                assert(crate::semantics::required_errs(req@, entries@, 0, *value) =~= tacc);
            }
        }
        if let Some(m) = &self.min_properties {
            if entries.len() < *m {
                let ghost one = crate::semantics::err_at(
                    *value,
                    crate::semantics::msg_too_few_properties(*m),
                );
                let msg = crate::messages::m_too_few_properties(*m);
                let res = ctx.report(value, msg);
                proof {
                    lemma_render_at(prefix, *value, crate::semantics::msg_too_few_properties(*m));
                    lemma_render_concat(acc, tacc, prefix);
                    lemma_render_concat(acc + tacc, seq![one], prefix);
                    assert((acc + tacc) + seq![one] =~= acc + (tacc + seq![one]));
                }
                match res {
                    Err(e) => {
                        proof {
                            let whole = crate::semantics::out_object(*self, *value);
                            assert(old(ctx).fail_fast);
                            assert((acc + tacc).len() == 0);
                            crate::validation::lemma_ff_base(
                                old(ctx).errors@,
                                acc + tacc,
                                prefix,
                            );
                            assert(whole.errors[0] == one);
                        }
                        return Err(e);
                    },
                    Ok(()) => {
                        proof {
                            tacc = tacc + seq![one];
                        }
                    },
                }
            }
        }
        if let Some(m) = &self.max_properties {
            if entries.len() > *m {
                let ghost one = crate::semantics::err_at(
                    *value,
                    crate::semantics::msg_too_many_properties(*m),
                );
                let msg = crate::messages::m_too_many_properties(*m);
                let res = ctx.report(value, msg);
                proof {
                    lemma_render_at(prefix, *value, crate::semantics::msg_too_many_properties(*m));
                    lemma_render_concat(acc, tacc, prefix);
                    lemma_render_concat(acc + tacc, seq![one], prefix);
                    assert((acc + tacc) + seq![one] =~= acc + (tacc + seq![one]));
                }
                match res {
                    Err(e) => {
                        proof {
                            let whole = crate::semantics::out_object(*self, *value);
                            assert(old(ctx).fail_fast);
                            assert((acc + tacc).len() == 0);
                            crate::validation::lemma_ff_base(
                                old(ctx).errors@,
                                acc + tacc,
                                prefix,
                            );
                            assert(whole.errors[0] == one);
                        }
                        return Err(e);
                    },
                    Ok(()) => {
                        proof {
                            tacc = tacc + seq![one];
                        }
                    },
                }
            }
        }
        proof {
            let whole = crate::semantics::out_object(*self, *value);
            assert(tacc =~= crate::semantics::object_tail_errs(*self, entries@, *value));
            assert(whole.errors =~= acc + tacc);
            lemma_render_concat(acc, tacc, prefix);
            if !old(ctx).fail_fast {
                assert(errs_view(ctx.errors@) =~= errs_view(old(ctx).errors@)
                    + whole.errors.map_values(|e2: ErrItem| render_err(path_of(*old(ctx)), e2)));
            }
        }
        Ok(())
    }
}


/// Whether some element of the array satisfies the schema, probing each in
/// a fresh fail-fast context.
#[verifier::rlimit(50)]
fn contains_match(cs: &YamlSchema, items: &Vec<Node>) -> (r: bool)
    requires
        crate::schemas::yaml_schema_wf(*cs),
    ensures
        r == crate::semantics::some_elem_matches(*cs, items@),
    decreases *cs, 2int,
{
    let mut j: usize = 0;
    while j < items.len()
        invariant
            j <= items@.len(),
            crate::schemas::yaml_schema_wf(*cs),
            forall|k: int|
                0 <= k < j ==> !crate::semantics::probe_ok(
                    #[trigger] crate::semantics::out(*cs, items@[k]),
                ),
        decreases items@.len() - j,
    {
        let mut sub = Context::new(true);
        let res = cs.validate(&mut sub, &items[j]);
        match res {
            Ok(()) => {
                proof {
                    crate::semantics::lemma_some_elem_intro(*cs, items@, j as int);
                }
                return true;
            },
            Err(_) => {},
        }
        j = j + 1;
    }
    proof {
        crate::semantics::lemma_some_elem_none(*cs, items@);
    }
    false
}

impl crate::ArraySchema {
    /// Validates a node against this array schema: the `contains` probe
    /// first, then each element against its prefix or `items` schema.
    #[verifier::rlimit(100)]
    pub fn validate(&self, ctx: &mut Context, value: &Node) -> (r: Result<(), Error>)
        requires
            crate::schemas::array_schema_wf(*self),
        ensures
            validate_post(
                crate::semantics::out_array(*self, *value),
                *old(ctx),
                *final(ctx),
                r,
            ),
        decreases *self, 1int,
    {
        let items: &Vec<Node> = match &value.data {
            NodeData::Array(its) => its,
            _ => {
                let msg = crate::messages::m_expected_array(&value.data);
                return report_single(ctx, value, msg);
            },
        };
        let ghost prefix = path_of(*old(ctx));
        let ghost f = |e: ErrItem| render_err(prefix, e);
        let ghost contains_errs: Seq<ErrItem> = crate::semantics::contains_errs_of(
            *self,
            *value,
            items@,
        );
        proof {
            assert(crate::semantics::out_array(*self, *value) == crate::semantics::errs_then(
                contains_errs,
                crate::semantics::out_array_elems(*self, items@, 0),
            ));
        }
        if let Some(cs) = &self.contains {
            let found = contains_match(cs, items);
            if !found {
                proof {
                    assert(!crate::semantics::some_elem_matches(**cs, items@));
                    assert(contains_errs == seq![
                        crate::semantics::err_at(
                            *value,
                            crate::semantics::msg_contains_failed(),
                        ),
                    ]);
                }
                match ctx.report(value, crate::messages::m_contains_failed()) {
                    Err(e) => {
                        proof {
                            lemma_render_at(
                                prefix,
                                *value,
                                crate::semantics::msg_contains_failed(),
                            );
                        }
                        return Err(e);
                    },
                    Ok(()) => {
                        proof {
                            lemma_render_at(
                                prefix,
                                *value,
                                crate::semantics::msg_contains_failed(),
                            );
                            assert(errs_view(ctx.errors@) =~= errs_view(old(ctx).errors@)
                                + contains_errs.map_values(f));
                        }
                    },
                }
            } else {
                proof {
                    assert(crate::semantics::some_elem_matches(**cs, items@));
                    assert(contains_errs =~= Seq::<ErrItem>::empty());
                    crate::validation::lemma_render_empty(prefix);
                    assert(errs_view(ctx.errors@) =~= errs_view(old(ctx).errors@)
                        + contains_errs.map_values(f));
                }
            }
        } else {
            proof {
                crate::validation::lemma_render_empty(prefix);
                assert(errs_view(ctx.errors@) =~= errs_view(old(ctx).errors@)
                    + contains_errs.map_values(f));
            }
        }
        let pre_len: usize = match &self.prefix_items {
            Some(pre) => pre.len(),
            None => 0,
        };
        let ghost mut acc: Seq<ErrItem> = Seq::empty();
        let mut stopped = false;
        let mut i: usize = 0;
        while !stopped && i < items.len()
            invariant
                i <= items@.len(),
                crate::schemas::array_schema_wf(*self),
                pre_len as int == (match self.prefix_items {
                    Some(pre) => pre@.len() as int,
                    None => 0int,
                }),
                ctx.fail_fast == old(ctx).fail_fast,
                path_of(*ctx) == path_of(*old(ctx)),
                prefix == path_of(*old(ctx)),
                f == (|e: ErrItem| render_err(prefix, e)),
                crate::semantics::out_array(*self, *value) == crate::semantics::errs_then(
                    contains_errs,
                    crate::semantics::out_array_elems(*self, items@, 0),
                ),
                crate::semantics::out_array_elems(*self, items@, 0)
                    == crate::semantics::errs_then(
                    acc,
                    crate::semantics::out_array_elems(*self, items@, i as int),
                ),
                stopped ==> crate::semantics::out_array_elems(*self, items@, i as int)
                    == crate::semantics::ok_out(),
                errs_view(ctx.errors@) == errs_view(old(ctx).errors@) + (contains_errs
                    + acc).map_values(f),
                old(ctx).fail_fast ==> contains_errs.len() == 0 && acc.len() == 0,
            decreases items@.len() - i, (if stopped {
                0int
            } else {
                1int
            }),
        {
            let ghost walk_i = crate::semantics::out_array_elems(*self, items@, i as int);
            let ghost walk_next = crate::semantics::out_array_elems(*self, items@, i + 1);
            if i < pre_len {
                let ghost inner = crate::semantics::prefix_inner(
                    *self,
                    items@[i as int],
                    i as int,
                );
                let ghost step = crate::semantics::shift_out(
                    inner,
                    crate::semantics::index_seg(i as int),
                );
                proof {
                    assert(walk_i == crate::semantics::then_out(step, walk_next));
                }
                let seg = crate::render::format_usize(i);
                ctx.push_path_segment(seg);
                let res = match &self.prefix_items {
                    Some(pre) => {
                        proof {
                            crate::schemas::lemma_schema_list_wf_elem(pre@, i as int);
                        }
                        pre[i].validate(ctx, &items[i])
                    },
                    None => {
                        proof {
                            assert(false);
                        }
                        Ok(())
                    },
                };
                ctx.pop_path_segment();
                proof {
                    assert(path_of(*ctx) =~= prefix);
                    crate::validation::lemma_render_shift(
                        inner.errors,
                        prefix,
                        crate::semantics::index_seg(i as int),
                    );
                    lemma_render_concat(contains_errs + acc, step.errors, prefix);
                    lemma_render_concat(contains_errs, acc, prefix);
                    lemma_render_concat(contains_errs, acc + step.errors, prefix);
                    assert((contains_errs + acc) + step.errors =~= contains_errs + (acc
                        + step.errors));
                }
                match res {
                    Ok(()) => {
                        proof {
                            let acc0 = acc;
                            acc = acc + step.errors;
                            assert(step.abort is None);
                            assert((acc0 + step.errors) + walk_next.errors =~= acc0 + (
                            step.errors + walk_next.errors));
                            assert(crate::semantics::errs_then(acc, walk_next)
                                == crate::semantics::errs_then(acc0, walk_i));
                            assert(errs_view(ctx.errors@) =~= errs_view(old(ctx).errors@) + (
                            contains_errs + acc).map_values(f));
                        }
                    },
                    Err(e) => {
                        proof {
                            let whole = crate::semantics::out_array(*self, *value);
                            let elems0 = crate::semantics::out_array_elems(*self, items@, 0);
                            assert(elems0.errors =~= acc + walk_i.errors);
                            assert(elems0.abort == walk_i.abort);
                            if old(ctx).fail_fast {
                                assert((contains_errs + acc).len() == 0);
                                crate::validation::lemma_ff_base(
                                    old(ctx).errors@,
                                    contains_errs + acc,
                                    prefix,
                                );
                            }
                            if inner.abort is Some {
                                assert(walk_i == step);
                                assert(whole.abort == step.abort);
                                assert(whole.errors =~= contains_errs + (acc + step.errors));
                                if !old(ctx).fail_fast {
                                    assert(errs_view(ctx.errors@) =~= errs_view(old(ctx).errors@)
                                        + whole.errors.map_values(
                                        |e2: ErrItem| render_err(path_of(*old(ctx)), e2),
                                    ));
                                }
                            }
                            if inner.errors.len() > 0 {
                                crate::validation::lemma_render_shift_one(
                                    inner.errors[0],
                                    prefix,
                                    crate::semantics::index_seg(i as int),
                                );
                                assert(step.errors[0] == crate::semantics::shift_err(
                                    inner.errors[0],
                                    crate::semantics::index_seg(i as int),
                                ));
                                assert(walk_i.errors[0] == step.errors[0]);
                                if contains_errs.len() == 0 && acc.len() == 0 {
                                    assert(elems0.errors[0] == step.errors[0]);
                                    assert(whole.errors[0] == step.errors[0]);
                                }
                            }
                        }
                        return Err(e);
                    },
                }
                i = i + 1;
            } else {
                match &self.items {
                    None => {
                        stopped = true;
                    },
                    Some(BoolOrTypedSchema::Boolean(b)) => {
                        if *b {
                            stopped = true;
                        } else {
                            let ghost msgspec = if self.prefix_items is Some {
                                crate::semantics::msg_additional_array_items()
                            } else {
                                crate::semantics::msg_array_items_not_allowed()
                            };
                            let ghost one = crate::semantics::shift_err(
                                crate::semantics::err_at(items@[i as int], msgspec),
                                crate::semantics::index_seg(i as int),
                            );
                            proof {
                                assert(walk_i == crate::semantics::then_out(
                                    crate::semantics::errs_out(seq![one]),
                                    walk_next,
                                ));
                            }
                            let seg = crate::render::format_usize(i);
                            ctx.push_path_segment(seg);
                            let msg = if self.prefix_items.is_some() {
                                crate::messages::m_additional_array_items()
                            } else {
                                crate::messages::m_array_items_not_allowed()
                            };
                            let res = ctx.report(&items[i], msg);
                            ctx.pop_path_segment();
                            proof {
                                assert(path_of(*ctx) =~= prefix);
                                crate::validation::lemma_render_at(
                                    prefix.push(crate::semantics::index_seg(i as int)),
                                    items@[i as int],
                                    msgspec,
                                );
                                crate::validation::lemma_render_shift_one(
                                    crate::semantics::err_at(items@[i as int], msgspec),
                                    prefix,
                                    crate::semantics::index_seg(i as int),
                                );
                                lemma_render_concat(contains_errs + acc, seq![one], prefix);
                                lemma_render_concat(contains_errs, acc, prefix);
                                lemma_render_concat(contains_errs, acc + seq![one], prefix);
                                assert((contains_errs + acc) + seq![one] =~= contains_errs + (acc
                                    + seq![one]));
                            }
                            match res {
                                Err(e) => {
                                    proof {
                                        let whole = crate::semantics::out_array(*self, *value);
                                        let elems0 = crate::semantics::out_array_elems(
                                            *self,
                                            items@,
                                            0,
                                        );
                                        assert(elems0.errors =~= acc + walk_i.errors);
                                        if old(ctx).fail_fast {
                                            assert((contains_errs + acc).len() == 0);
                                            crate::validation::lemma_ff_base(
                                                old(ctx).errors@,
                                                contains_errs + acc,
                                                prefix,
                                            );
                                        }
                                        assert(walk_i.errors[0] == one);
                                        assert(elems0.errors[0] == one);
                                        assert(whole.errors[0] == one);
                                    }
                                    return Err(e);
                                },
                                Ok(()) => {
                                    proof {
                                        let acc0 = acc;
                                        acc = acc + seq![one];
                                        assert((acc0 + seq![one]) + walk_next.errors =~= acc0 + (
                                        seq![one] + walk_next.errors));
                                        assert(crate::semantics::errs_then(acc, walk_next)
                                            == crate::semantics::errs_then(acc0, walk_i));
                                        assert(errs_view(ctx.errors@) =~= errs_view(
                                            old(ctx).errors@,
                                        ) + (contains_errs + acc).map_values(f));
                                    }
                                },
                            }
                            i = i + 1;
                        }
                    },
                    Some(BoolOrTypedSchema::TypedSchema(ts)) => {
                        let ghost inner = crate::semantics::out_typed(**ts, items@[i as int]);
                        let ghost step = crate::semantics::shift_out(
                            inner,
                            crate::semantics::index_seg(i as int),
                        );
                        proof {
                            assert(walk_i == crate::semantics::then_out(step, walk_next));
                        }
                        let seg = crate::render::format_usize(i);
                        ctx.push_path_segment(seg);
                        let res = ts.validate(ctx, &items[i]);
                        ctx.pop_path_segment();
                        proof {
                            assert(path_of(*ctx) =~= prefix);
                            crate::validation::lemma_render_shift(
                                inner.errors,
                                prefix,
                                crate::semantics::index_seg(i as int),
                            );
                            lemma_render_concat(contains_errs + acc, step.errors, prefix);
                            lemma_render_concat(contains_errs, acc, prefix);
                            lemma_render_concat(contains_errs, acc + step.errors, prefix);
                            assert((contains_errs + acc) + step.errors =~= contains_errs + (acc
                                + step.errors));
                        }
                        match res {
                            Ok(()) => {
                                proof {
                                    let acc0 = acc;
                                    acc = acc + step.errors;
                                    assert(step.abort is None);
                                    assert((acc0 + step.errors) + walk_next.errors =~= acc0 + (
                                    step.errors + walk_next.errors));
                                    assert(crate::semantics::errs_then(acc, walk_next)
                                        == crate::semantics::errs_then(acc0, walk_i));
                                    assert(errs_view(ctx.errors@) =~= errs_view(old(ctx).errors@)
                                        + (contains_errs + acc).map_values(f));
                                }
                            },
                            Err(e) => {
                                proof {
                                    let whole = crate::semantics::out_array(*self, *value);
                                    let elems0 = crate::semantics::out_array_elems(
                                        *self,
                                        items@,
                                        0,
                                    );
                                    assert(elems0.errors =~= acc + walk_i.errors);
                                    assert(elems0.abort == walk_i.abort);
                                    if old(ctx).fail_fast {
                                        assert((contains_errs + acc).len() == 0);
                                        crate::validation::lemma_ff_base(
                                            old(ctx).errors@,
                                            contains_errs + acc,
                                            prefix,
                                        );
                                    }
                                    if inner.abort is Some {
                                        assert(walk_i == step);
                                        assert(whole.abort == step.abort);
                                        assert(whole.errors =~= contains_errs + (acc
                                            + step.errors));
                                        if !old(ctx).fail_fast {
                                            assert(errs_view(ctx.errors@) =~= errs_view(
                                                old(ctx).errors@,
                                            ) + whole.errors.map_values(
                                                |e2: ErrItem| render_err(path_of(*old(ctx)), e2),
                                            ));
                                        }
                                    }
                                    if inner.errors.len() > 0 {
                                        crate::validation::lemma_render_shift_one(
                                            inner.errors[0],
                                            prefix,
                                            crate::semantics::index_seg(i as int),
                                        );
                                        assert(step.errors[0] == crate::semantics::shift_err(
                                            inner.errors[0],
                                            crate::semantics::index_seg(i as int),
                                        ));
                                        assert(walk_i.errors[0] == step.errors[0]);
                                        if contains_errs.len() == 0 && acc.len() == 0 {
                                            assert(elems0.errors[0] == step.errors[0]);
                                            assert(whole.errors[0] == step.errors[0]);
                                        }
                                    }
                                }
                                return Err(e);
                            },
                        }
                        i = i + 1;
                    },
                }
            }
        }
        proof {
            if !stopped {
                assert(crate::semantics::out_array_elems(*self, items@, items@.len() as int)
                    == crate::semantics::ok_out());
            }
            let whole = crate::semantics::out_array(*self, *value);
            assert(whole.errors =~= contains_errs + acc);
            assert(whole.abort is None);
            lemma_render_concat(contains_errs, acc, prefix);
            if !old(ctx).fail_fast {
                assert(errs_view(ctx.errors@) =~= errs_view(old(ctx).errors@)
                    + whole.errors.map_values(|e2: ErrItem| render_err(path_of(*old(ctx)), e2)));
            }
        }
        Ok(())
    }
}

impl TypedSchema {
    /// Validates a node against this typed sub-schema.
    pub fn validate(&self, ctx: &mut Context, value: &Node) -> (r: Result<(), Error>)
        requires
            crate::schemas::typed_schema_wf(*self),
        ensures
            validate_post(
                crate::semantics::out_typed(*self, *value),
                *old(ctx),
                *final(ctx),
                r,
            ),
        decreases *self, 1int,
    {
        match self {
            TypedSchema::Null => {
                let is_null = match &value.data {
                    NodeData::Null => true,
                    _ => false,
                };
                if is_null {
                    proof {
                        crate::validation::lemma_ff_base(ctx.errors@, Seq::empty(), path_of(*ctx));
                    }
                    Ok(())
                } else {
                    let msg = crate::messages::m_expected_null(&value.data);
                    report_single(ctx, value, msg)
                }
            },
            TypedSchema::BooleanSchema => {
                let is_bool = match &value.data {
                    NodeData::Boolean(_) => true,
                    _ => false,
                };
                if is_bool {
                    proof {
                        crate::validation::lemma_ff_base(ctx.errors@, Seq::empty(), path_of(*ctx));
                    }
                    Ok(())
                } else {
                    let msg = crate::messages::m_expected_boolean(&value.data);
                    report_single(ctx, value, msg)
                }
            },
            TypedSchema::Integer(i) => i.validate(ctx, value),
            TypedSchema::Number(n) => n.validate(ctx, value),
            TypedSchema::String(s) => s.validate(ctx, value),
            TypedSchema::Array(a) => a.validate(ctx, value),
            TypedSchema::Object(o) => o.validate(ctx, value),
        }
    }
}

impl YamlSchema {
    /// Validates a node against this schema, recording every violation in
    /// the context in depth-first, left-to-right document order.
    pub fn validate(&self, ctx: &mut Context, value: &Node) -> (r: Result<(), Error>)
        requires
            crate::schemas::yaml_schema_wf(*self),
        ensures
            validate_post(crate::semantics::out(*self, *value), *old(ctx), *final(ctx), r),
        decreases *self, 1int,
    {
        match self {
            YamlSchema::Empty => {
                proof {
                    crate::validation::lemma_ff_base(ctx.errors@, Seq::empty(), path_of(*ctx));
                }
                Ok(())
            },
            YamlSchema::BooleanLiteral(b) => {
                if *b {
                    proof {
                        crate::validation::lemma_ff_base(ctx.errors@, Seq::empty(), path_of(*ctx));
                    }
                    Ok(())
                } else {
                    report_single(ctx, value, crate::messages::m_schema_false())
                }
            },
            YamlSchema::TypeNull => {
                let is_null = match &value.data {
                    NodeData::Null => true,
                    _ => false,
                };
                if is_null {
                    proof {
                        crate::validation::lemma_ff_base(ctx.errors@, Seq::empty(), path_of(*ctx));
                    }
                    Ok(())
                } else {
                    let msg = crate::messages::m_expected_null(&value.data);
                    report_single(ctx, value, msg)
                }
            },
            YamlSchema::BooleanSchema => {
                let is_bool = match &value.data {
                    NodeData::Boolean(_) => true,
                    _ => false,
                };
                if is_bool {
                    proof {
                        crate::validation::lemma_ff_base(ctx.errors@, Seq::empty(), path_of(*ctx));
                    }
                    Ok(())
                } else {
                    let msg = crate::messages::m_expected_boolean(&value.data);
                    report_single(ctx, value, msg)
                }
            },
            YamlSchema::Const(c) => c.validate(ctx, value),
            YamlSchema::Enum(e) => e.validate(ctx, value),
            YamlSchema::Integer(i) => i.validate(ctx, value),
            YamlSchema::Number(n) => n.validate(ctx, value),
            YamlSchema::String(s) => s.validate(ctx, value),
            YamlSchema::Array(a) => a.validate(ctx, value),
            YamlSchema::Object(o) => o.validate(ctx, value),
            YamlSchema::AnyOf(a) => {
                proof {
                    crate::semantics::lemma_out_any_shape(a.any_of@, *value, 0);
                }
                match validate_any_of(&a.any_of, value) {
                    Ok(true) => {
                        proof {
                            crate::validation::lemma_ff_base(ctx.errors@, Seq::empty(), path_of(*ctx));
                        }
                        Ok(())
                    },
                    Ok(false) => {
                        let msg = crate::messages::m_none_matched_any_of();
                        report_single(ctx, value, msg)
                    },
                    Err(e) => {
                        proof {
                            crate::validation::lemma_ff_base(ctx.errors@, Seq::empty(), path_of(*ctx));
                        }
                        Err(e)
                    },
                }
            },
            YamlSchema::OneOf(o) => {
                let res = validate_one_of(ctx, &o.one_of, value);
                match res {
                    Ok(true) => {
                        proof {
                            let w = crate::semantics::one_walk(o.one_of@, *value, 0, 0);
                            assert(crate::semantics::count_probe_ok(o.one_of@, *value, 0) >= 1);
                            assert(w.abort is None);
                            assert(crate::semantics::out(*self, *value) == w);
                        }
                        Ok(())
                    },
                    Ok(false) => {
                        proof {
                            let w = crate::semantics::one_walk(o.one_of@, *value, 0, 0);
                            crate::semantics::lemma_count_probe_ok_nonneg(o.one_of@, *value, 0);
                            assert(crate::semantics::count_probe_ok(o.one_of@, *value, 0) == 0);
                            crate::semantics::lemma_one_walk_no_success(o.one_of@, *value, 0, 0);
                            assert(w.errors.len() == 0);
                            assert(w.abort is None);
                            crate::validation::lemma_render_empty(path_of(*old(ctx)));
                            assert(errs_view(ctx.errors@) =~= errs_view(old(ctx).errors@));
                        }
                        let msg = crate::messages::m_none_matched_one_of();
                        report_single(ctx, value, msg)
                    },
                    Err(e) => {
                        proof {
                            let w = crate::semantics::one_walk(o.one_of@, *value, 0, 0);
                            if w.abort is None && w.errors.len() > 0 {
                                if crate::semantics::count_probe_ok(o.one_of@, *value, 0) == 0 {
                                    crate::semantics::lemma_one_walk_no_success(
                                        o.one_of@,
                                        *value,
                                        0,
                                        0,
                                    );
                                }
                            }
                            assert(crate::semantics::out(*self, *value) == w);
                        }
                        Err(e)
                    },
                }
            },
            YamlSchema::Not(n) => {
                let mut sub = Context::new(true);
                let res = n.not.validate(&mut sub, value);
                match res {
                    Ok(()) => {
                        let msg = crate::messages::m_matches_not();
                        report_single(ctx, value, msg)
                    },
                    Err(e) => {
                        match e {
                            Error::FailFast => {
                                proof {
                                    crate::validation::lemma_render_empty(path_of(*ctx));
                                    assert(errs_view(ctx.errors@) =~= errs_view(ctx.errors@)
                                        + Seq::<ErrItem>::empty().map_values(
                                        |e2: ErrItem| render_err(path_of(*ctx), e2),
                                    ));
                                }
                                Ok(())
                            },
                            e2 => {
                                proof {
                                    crate::validation::lemma_render_empty(path_of(*ctx));
                                    assert(errs_view(ctx.errors@) =~= errs_view(ctx.errors@)
                                        + Seq::<ErrItem>::empty().map_values(
                                        |e3: ErrItem| render_err(path_of(*ctx), e3),
                                    ));
                                }
                                Err(e2)
                            },
                        }
                    },
                }
            },
        }
    }
}

} // verus!
