//! Shape checks for the sampled binary equilibrium curve `y*(x)`.
//!
//! A curve is sampled on a grid of at least five points; one generated from
//! a thermodynamic system needs a binary system, and one built from raw
//! samples needs `x` and `y` of equal length and a temperature profile that
//! is either absent or as long as `x`.

use vstd::prelude::*;

use crate::text::{decimal_digits, decimal_string, is_decimal_of, lemma_decimal_digits_is_decimal};
use crate::types::StagesError;

verus! {

/// The fewest samples a curve may have.
pub const MIN_POINTS: usize = 5;

/// The message for a system that is not binary.
pub open spec fn not_binary_text(n_components: nat) -> Seq<char> {
    "equilibrium curve needs a binary system, got "@ + decimal_digits(n_components)
        + " components"@
}

/// The message for a grid with too few samples.
pub open spec fn too_few_points_text(n_points: nat) -> Seq<char> {
    "n_points must be at least 5, got "@ + decimal_digits(n_points)
}

/// The message for `x` and `y` samples of different or too short lengths.
pub open spec fn sample_lengths_text(x_len: nat, y_len: nat) -> Seq<char> {
    "x and y must have equal length ≥ 5, got "@ + decimal_digits(x_len) + " and "@
        + decimal_digits(y_len)
}

/// The message for a temperature profile whose length does not match `x`.
pub open spec fn temperature_length_text(x_len: nat, t_len: nat) -> Seq<char> {
    "t must be empty or match x's length "@ + decimal_digits(x_len) + ", got "@
        + decimal_digits(t_len)
}

/// Check that a sampling grid has at least [`MIN_POINTS`] points.
pub fn check_point_count(n_points: usize) -> (checked: Result<(), StagesError>)
    ensures
        checked is Ok <==> n_points >= MIN_POINTS,
        checked matches Err(e) ==> (e matches StagesError::Dimension(m) && m@
            == too_few_points_text(n_points as nat)),
{
    if n_points < MIN_POINTS {
        let mut m = "n_points must be at least 5, got ".to_owned();
        m.append(decimal_string(n_points).as_str());
        return Err(StagesError::Dimension(m));
    }
    Ok(())
}

/// Check a request to sample the curve of an `n_components` system on
/// `n_points` grid points: the system must be binary, and the grid must have
/// at least [`MIN_POINTS`] points (checked in that order).
pub fn check_sweep(n_components: usize, n_points: usize) -> (checked: Result<(), StagesError>)
    ensures
        checked is Ok <==> (n_components == 2 && n_points >= MIN_POINTS),
        n_components != 2 ==> (checked matches Err(StagesError::Dimension(m)) && m@
            == not_binary_text(n_components as nat)),
        n_components == 2 && n_points < MIN_POINTS ==> (checked matches Err(
            StagesError::Dimension(m),
        ) && m@ == too_few_points_text(n_points as nat)),
{
    if n_components != 2 {
        let mut m = "equilibrium curve needs a binary system, got ".to_owned();
        m.append(decimal_string(n_components).as_str());
        m.append(" components");
        return Err(StagesError::Dimension(m));
    }
    check_point_count(n_points)
}

/// Check the lengths of raw curve samples: `x` and `y` of equal length, at
/// least [`MIN_POINTS`] long, and a temperature profile that is empty or as
/// long as `x` (checked in that order).
pub fn check_sample_lengths(x_len: usize, y_len: usize, t_len: usize) -> (checked: Result<
    (),
    StagesError,
>)
    ensures
        checked is Ok <==> (x_len == y_len && x_len >= MIN_POINTS && (t_len == 0 || t_len
            == x_len)),
        (x_len != y_len || x_len < MIN_POINTS) ==> (checked matches Err(
            StagesError::Dimension(m),
        ) && m@ == sample_lengths_text(x_len as nat, y_len as nat)),
        (x_len == y_len && x_len >= MIN_POINTS && t_len != 0 && t_len != x_len) ==> (
        checked matches Err(StagesError::Dimension(m)) && m@ == temperature_length_text(
            x_len as nat,
            t_len as nat,
        )),
{
    if x_len != y_len || x_len < MIN_POINTS {
        let mut m = "x and y must have equal length ≥ 5, got ".to_owned();
        m.append(decimal_string(x_len).as_str());
        m.append(" and ");
        m.append(decimal_string(y_len).as_str());
        return Err(StagesError::Dimension(m));
    }
    if t_len != 0 && t_len != x_len {
        let mut m = "t must be empty or match x's length ".to_owned();
        m.append(decimal_string(x_len).as_str());
        m.append(", got ");
        m.append(decimal_string(t_len).as_str());
        return Err(StagesError::Dimension(m));
    }
    Ok(())
}

/// The message for enthalpy samples whose lengths do not match `x`.
pub open spec fn enthalpy_lengths_text(x_len: nat, h_liq_len: nat, h_vap_len: nat) -> Seq<char> {
    "h_liq and h_vap must match x's length "@ + decimal_digits(x_len) + ", got "@
        + decimal_digits(h_liq_len) + " and "@ + decimal_digits(h_vap_len)
}

/// The message for a temperature query on a curve without temperature data.
pub open spec fn no_temperature_text() -> Seq<char> {
    "this curve has no temperature data (synthetic curve)"@
}

/// Check that the saturated-liquid and saturated-vapor enthalpy samples are
/// as long as the curve's `x` samples.
pub fn check_enthalpy_lengths(x_len: usize, h_liq_len: usize, h_vap_len: usize) -> (checked:
    Result<(), StagesError>)
    ensures
        checked is Ok <==> (h_liq_len == x_len && h_vap_len == x_len),
        checked matches Err(e) ==> (e matches StagesError::Dimension(m) && m@
            == enthalpy_lengths_text(x_len as nat, h_liq_len as nat, h_vap_len as nat)),
{
    if h_liq_len != x_len || h_vap_len != x_len {
        let mut m = "h_liq and h_vap must match x's length ".to_owned();
        m.append(decimal_string(x_len).as_str());
        m.append(", got ");
        m.append(decimal_string(h_liq_len).as_str());
        m.append(" and ");
        m.append(decimal_string(h_vap_len).as_str());
        return Err(StagesError::Dimension(m));
    }
    Ok(())
}

/// Check that a curve with `t_len` temperature samples can answer a
/// temperature query: synthetic curves (no samples) cannot.
pub fn check_has_temperatures(t_len: usize) -> (checked: Result<(), StagesError>)
    ensures
        checked is Ok <==> t_len > 0,
        checked matches Err(e) ==> (e matches StagesError::Dimension(m) && m@
            == no_temperature_text()),
{
    if t_len == 0 {
        return Err(
            StagesError::Dimension("this curve has no temperature data (synthetic curve)".to_owned()),
        );
    }
    Ok(())
}

/// Every shape message reports the counts it was given, in decimal and in
/// place: the component count, the grid size, the `x` and `y` lengths, the
/// temperature length, and the enthalpy lengths.
pub proof fn law_shape_messages_report_counts(a: nat, b: nat, c: nat)
    ensures
        exists|d: Seq<char>|
            #![trigger is_decimal_of(d, a)]
            is_decimal_of(d, a) && not_binary_text(a)
                == "equilibrium curve needs a binary system, got "@ + d + " components"@,
        exists|d: Seq<char>|
            #![trigger is_decimal_of(d, a)]
            is_decimal_of(d, a) && too_few_points_text(a)
                == "n_points must be at least 5, got "@ + d,
        exists|d: Seq<char>, e: Seq<char>|
            #![trigger is_decimal_of(d, a), is_decimal_of(e, b)]
            is_decimal_of(d, a) && is_decimal_of(e, b) && sample_lengths_text(a, b)
                == "x and y must have equal length ≥ 5, got "@ + d + " and "@ + e,
        exists|d: Seq<char>, e: Seq<char>|
            #![trigger is_decimal_of(d, a), is_decimal_of(e, b)]
            is_decimal_of(d, a) && is_decimal_of(e, b) && temperature_length_text(a, b)
                == "t must be empty or match x's length "@ + d + ", got "@ + e,
        exists|d: Seq<char>, e: Seq<char>, f: Seq<char>|
            #![trigger is_decimal_of(d, a), is_decimal_of(e, b), is_decimal_of(f, c)]
            is_decimal_of(d, a) && is_decimal_of(e, b) && is_decimal_of(f, c)
                && enthalpy_lengths_text(a, b, c) == "h_liq and h_vap must match x's length "@
                + d + ", got "@ + e + " and "@ + f,
{
    lemma_decimal_digits_is_decimal(a);
    lemma_decimal_digits_is_decimal(b);
    lemma_decimal_digits_is_decimal(c);
}
} // verus!
