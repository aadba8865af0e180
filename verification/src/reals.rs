use vstd::prelude::*;

verus! {

// A "real" is the lexical text of a YAML floating-point scalar. Every
// operation on reals goes through saphyr's core-schema parsing
// (`Yaml::as_f64`) and the machine's floating-point unit, and is therefore
// named rather than defined: each result below is a function of the lexical
// arguments alone, the same in every process and on every machine.

/// Whether the text parses as a floating-point value under saphyr's
/// core-schema rules (which also accept `.inf`, `.nan` and friends).
pub uninterp spec fn real_parse_ok_of(s: Seq<char>) -> bool;

/// Whether the parsed value of `a` is strictly less than that of `b`.
pub uninterp spec fn real_lt_of(a: Seq<char>, b: Seq<char>) -> bool;

/// Whether the parsed values of `a` and `b` are equal under floating-point
/// equality.
pub uninterp spec fn real_eq_of(a: Seq<char>, b: Seq<char>) -> bool;

/// Whether the parsed value has fractional part exactly zero.
pub uninterp spec fn real_integral_of(s: Seq<char>) -> bool;

/// The parsed value truncated to an integer (saturating at the bounds).
pub uninterp spec fn real_trunc_of(s: Seq<char>) -> i64;

/// Whether the parsed value of `a` leaves remainder exactly zero when
/// divided by the parsed value of `b`.
pub uninterp spec fn real_rem_zero_of(a: Seq<char>, b: Seq<char>) -> bool;

/// The display rendering of the parsed value (the text itself when it does
/// not parse).
pub uninterp spec fn real_display_of(s: Seq<char>) -> Seq<char>;

/// Relies on saphyr's `Yaml::as_f64`: core-schema parsing of a
/// floating-point scalar, a function of the text alone.
#[verifier::external_body]
pub fn real_parse_ok(s: &str) -> (r: bool)
    ensures
        r == real_parse_ok_of(s@),
{
    saphyr::Yaml::Real(String::from(s)).as_f64().is_some()
}

/// Relies on saphyr's `Yaml::as_f64` and the floating-point `<` comparison.
#[verifier::external_body]
pub fn real_lt(a: &str, b: &str) -> (r: bool)
    ensures
        r == real_lt_of(a@, b@),
{
    let x = saphyr::Yaml::Real(String::from(a)).as_f64();
    let y = saphyr::Yaml::Real(String::from(b)).as_f64();
    x.zip(y).map(|(p, q)| p < q).unwrap_or(false)
}

/// Relies on saphyr's `Yaml::as_f64` and floating-point equality.
#[verifier::external_body]
pub fn real_eq(a: &str, b: &str) -> (r: bool)
    ensures
        r == real_eq_of(a@, b@),
{
    let x = saphyr::Yaml::Real(String::from(a)).as_f64();
    let y = saphyr::Yaml::Real(String::from(b)).as_f64();
    x.zip(y).map(|(p, q)| p == q).unwrap_or(false)
}

/// Relies on saphyr's `Yaml::as_f64` and the floating-point `fract`.
#[verifier::external_body]
pub fn real_is_integral(s: &str) -> (r: bool)
    ensures
        r == real_integral_of(s@),
{
    saphyr::Yaml::Real(String::from(s)).as_f64().map(|v| v.fract() == (v - v)).unwrap_or(false)
}

/// Relies on saphyr's `Yaml::as_f64` and the saturating float-to-integer
/// cast.
#[verifier::external_body]
pub fn real_trunc(s: &str) -> (r: i64)
    ensures
        r == real_trunc_of(s@),
{
    saphyr::Yaml::Real(String::from(s)).as_f64().map(|v| v as i64).unwrap_or(0)
}

/// Relies on saphyr's `Yaml::as_f64` and the floating-point remainder.
#[verifier::external_body]
pub fn real_rem_zero(a: &str, b: &str) -> (r: bool)
    ensures
        r == real_rem_zero_of(a@, b@),
{
    let x = saphyr::Yaml::Real(String::from(a)).as_f64();
    let y = saphyr::Yaml::Real(String::from(b)).as_f64();
    x.zip(y).map(|(p, q)| (p % q) == (p - p)).unwrap_or(false)
}

/// Relies on saphyr's `Yaml::as_f64` and the display formatting of a
/// floating-point value.
#[verifier::external_body]
pub fn real_display(s: &str) -> (r: String)
    ensures
        r@ == real_display_of(s@),
{
    match saphyr::Yaml::Real(String::from(s)).as_f64() {
        Some(v) => format!("{}", v),
        None => String::from(s),
    }
}

} // verus!
