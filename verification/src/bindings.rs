//! The decisions the Python bindings make: how a condenser or phase name
//! given as text is read, and which Python exception class each engine error
//! becomes. The bindings themselves only build Python objects around these.

use vstd::prelude::*;

use crate::column::CondenserKind;
use crate::text::{
    ascii_lower, ascii_lowercase, debug_quoted, debug_str, decimal_digits, decimal_string,
    digits_value, is_digit_char, join, joined, law_decimal_digits_read_back, string_views,
};
use crate::thermo::Phase;
use crate::types::StagesError;

verus! {

/// The Python exception class an engine error is raised as.
#[derive(Debug, Clone, Copy, PartialEq, Eq, Structural)]
pub enum PyErrorKind {
    /// `ValueError`: bad inputs and impossible specifications.
    Value,
    /// `RuntimeError`: thermodynamic and convergence failures.
    Runtime,
}

/// The exception class of an error: input and specification errors are
/// `ValueError`s; failures while computing are `RuntimeError`s.
pub open spec fn error_kind_of(e: StagesError) -> PyErrorKind {
    match e {
        StagesError::Dimension(_) => PyErrorKind::Value,
        StagesError::Infeasible(_) => PyErrorKind::Value,
        StagesError::Thermo(_) => PyErrorKind::Runtime,
        StagesError::Convergence(_) => PyErrorKind::Runtime,
    }
}

/// Map an engine error onto the Python exception class it is raised as.
pub fn py_error_kind(e: &StagesError) -> (kind: PyErrorKind)
    ensures
        kind == error_kind_of(*e),
{
    match e {
        StagesError::Dimension(_) | StagesError::Infeasible(_) => PyErrorKind::Value,
        StagesError::Thermo(_) | StagesError::Convergence(_) => PyErrorKind::Runtime,
    }
}

/// The condenser a name denotes, ignoring ASCII case: `"total"` or
/// `"partial"`.
pub open spec fn condenser_named(name: Seq<char>) -> Option<CondenserKind> {
    let lower = ascii_lower(name);
    if lower == "total"@ {
        Some(CondenserKind::Total)
    } else if lower == "partial"@ {
        Some(CondenserKind::Partial)
    } else {
        None
    }
}

/// The phase a name denotes, ignoring ASCII case: `"liquid"` or `"l"`;
/// `"vapor"`, `"vapour"` or `"v"`.
pub open spec fn phase_named(name: Seq<char>) -> Option<Phase> {
    let lower = ascii_lower(name);
    if lower == "liquid"@ || lower == "l"@ {
        Some(Phase::Liquid)
    } else if lower == "vapor"@ || lower == "vapour"@ || lower == "v"@ {
        Some(Phase::Vapor)
    } else {
        None
    }
}

/// The message for an unknown condenser name (quoted after lower-casing).
pub open spec fn bad_condenser_text(name: Seq<char>) -> Seq<char> {
    "condenser must be 'total' or 'partial', got "@ + debug_str(ascii_lower(name))
}

/// The message for an unknown phase name (quoted after lower-casing).
pub open spec fn bad_phase_text(name: Seq<char>) -> Seq<char> {
    "phase must be 'liquid' or 'vapor', got "@ + debug_str(ascii_lower(name))
}

/// Read a condenser name (`"total"` | `"partial"`, any ASCII case); the
/// error is the `ValueError` text.
pub fn parse_condenser(kind: &str) -> (parsed: Result<CondenserKind, String>)
    ensures
        parsed matches Ok(k) ==> condenser_named(kind@) == Some(k),
        parsed matches Err(m) ==> condenser_named(kind@) is None && m@ == bad_condenser_text(
            kind@,
        ),
        parsed is Ok <==> condenser_named(kind@) is Some,
{
    let lower = ascii_lowercase(kind);
    if lower == "total".to_owned() {
        Ok(CondenserKind::Total)
    } else if lower == "partial".to_owned() {
        Ok(CondenserKind::Partial)
    } else {
        let mut m = "condenser must be 'total' or 'partial', got ".to_owned();
        m.append(debug_quoted(lower.as_str()).as_str());
        Err(m)
    }
}

/// Read a phase name (`"liquid"` | `"l"` | `"vapor"` | `"vapour"` | `"v"`,
/// any ASCII case); the error is the `ValueError` text.
pub fn parse_phase(phase: &str) -> (parsed: Result<Phase, String>)
    ensures
        parsed matches Ok(p) ==> phase_named(phase@) == Some(p),
        parsed matches Err(m) ==> phase_named(phase@) is None && m@ == bad_phase_text(phase@),
        parsed is Ok <==> phase_named(phase@) is Some,
{
    let lower = ascii_lowercase(phase);
    if lower == "liquid".to_owned() || lower == "l".to_owned() {
        Ok(Phase::Liquid)
    } else if lower == "vapor".to_owned() || lower == "vapour".to_owned() || lower
        == "v".to_owned() {
        Ok(Phase::Vapor)
    } else {
        let mut m = "phase must be 'liquid' or 'vapor', got ".to_owned();
        m.append(debug_quoted(lower.as_str()).as_str());
        Err(m)
    }
}

/// The Python `repr` of a thermodynamic system: its component names, in
/// composition order, joined by `", "`.
pub open spec fn system_repr_text(names: Seq<Seq<char>>) -> Seq<char> {
    "ThermoSystem("@ + joined(names, ", "@) + ")"@
}

/// The Python `repr` of a thermodynamic system with these component names.
pub fn system_repr(names: &Vec<String>) -> (text: String)
    ensures
        text@ == system_repr_text(string_views(names@)),
{
    let mut text = "ThermoSystem(".to_owned();
    text.append(join(names, ", ").as_str());
    text.append(")");
    text
}

/// The Python `repr` of an equilibrium curve of `n_points` samples: with
/// its pressure (already rendered as text, in kPa) when it has one, marked
/// synthetic when it has none.
pub open spec fn equilibrium_curve_repr_text(n_points: nat, pressure: Option<Seq<char>>) -> Seq<
    char,
> {
    match pressure {
        Some(p) => "EquilibriumCurve("@ + decimal_digits(n_points) + " points, P = "@ + p
            + " kPa)"@,
        None => "EquilibriumCurve("@ + decimal_digits(n_points) + " points, synthetic)"@,
    }
}

/// The Python `repr` of an equilibrium curve.
pub fn equilibrium_curve_repr(n_points: usize, pressure: Option<&str>) -> (text: String)
    ensures
        text@ == equilibrium_curve_repr_text(
            n_points as nat,
            match pressure {
                Some(p) => Some(p@),
                None => None,
            },
        ),
{
    let mut text = "EquilibriumCurve(".to_owned();
    text.append(decimal_string(n_points).as_str());
    match pressure {
        Some(p) => {
            text.append(" points, P = ");
            text.append(p);
            text.append(" kPa)");
        },
        None => {
            text.append(" points, synthetic)");
        },
    }
    text
}

/// The Python `repr` of an enthalpy–composition curve of `n_points` samples.
pub open spec fn enthalpy_curve_repr_text(n_points: nat) -> Seq<char> {
    "EnthalpyCurve("@ + decimal_digits(n_points) + " points)"@
}

/// The Python `repr` of an enthalpy–composition curve.
pub fn enthalpy_curve_repr(n_points: usize) -> (text: String)
    ensures
        text@ == enthalpy_curve_repr_text(n_points as nat),
{
    let mut text = "EnthalpyCurve(".to_owned();
    text.append(decimal_string(n_points).as_str());
    text.append(" points)");
    text
}

/// The exception class depends on the error's kind alone, never on its
/// message: thermodynamic and convergence failures are `RuntimeError`s,
/// dimension and infeasibility errors are `ValueError`s, whatever they say.
pub proof fn law_exception_class_by_kind(m: String)
    ensures
        error_kind_of(StagesError::Thermo(m)) == PyErrorKind::Runtime,
        error_kind_of(StagesError::Convergence(m)) == PyErrorKind::Runtime,
        error_kind_of(StagesError::Dimension(m)) == PyErrorKind::Value,
        error_kind_of(StagesError::Infeasible(m)) == PyErrorKind::Value,
{
}

/// Exactly the names "total" and "partial" (after ASCII lower-casing) are
/// read, as Total and Partial; every other name is rejected.
pub proof fn law_condenser_names_exact(s: Seq<char>)
    ensures
        condenser_named(s) == Some(CondenserKind::Total) <==> ascii_lower(s) == "total"@,
        condenser_named(s) == Some(CondenserKind::Partial) <==> ascii_lower(s) == "partial"@,
        condenser_named(s) is None <==> (ascii_lower(s) != "total"@ && ascii_lower(s)
            != "partial"@),
{
    reveal_strlit("total");
    reveal_strlit("partial");
    assert("partial"@ != "total"@) by {
        assert("partial"@.len() != "total"@.len());
    }
}

/// Exactly the names "liquid" and "l" are read as Liquid and exactly
/// "vapor", "vapour" and "v" as Vapor (after ASCII lower-casing); every other
/// name is rejected.
pub proof fn law_phase_names_exact(s: Seq<char>)
    ensures
        phase_named(s) == Some(Phase::Liquid) <==> (ascii_lower(s) == "liquid"@ || ascii_lower(s)
            == "l"@),
        phase_named(s) == Some(Phase::Vapor) <==> (ascii_lower(s) == "vapor"@ || ascii_lower(s)
            == "vapour"@ || ascii_lower(s) == "v"@),
        phase_named(s) is None <==> (ascii_lower(s) != "liquid"@ && ascii_lower(s) != "l"@
            && ascii_lower(s) != "vapor"@ && ascii_lower(s) != "vapour"@ && ascii_lower(s)
            != "v"@),
{
    reveal_strlit("liquid");
    reveal_strlit("l");
    reveal_strlit("vapor");
    reveal_strlit("vapour");
    reveal_strlit("v");
    assert("vapor"@ != "liquid"@ && "vapor"@ != "l"@) by {
        assert("vapor"@[0] != "liquid"@[0]);
    }
    assert("vapour"@ != "liquid"@ && "vapour"@ != "l"@) by {
        assert("vapour"@[0] != "liquid"@[0]);
    }
    assert("v"@ != "liquid"@ && "v"@ != "l"@) by {
        assert("v"@[0] != "liquid"@[0]);
    }
}

/// The system repr names every component in order: no names give
/// "ThermoSystem()", one name `n` gives "ThermoSystem(n)", and adding a name
/// to a non-empty list inserts ", " and the name before the closing bracket.
pub proof fn law_system_repr_lists_every_name(names: Seq<Seq<char>>, n: Seq<char>)
    ensures
        system_repr_text(Seq::empty()) == "ThermoSystem("@ + ")"@,
        system_repr_text(seq![n]) == "ThermoSystem("@ + n + ")"@,
        names.len() > 0 ==> system_repr_text(names.push(n)) == system_repr_text(names).drop_last()
            + ", "@ + n + ")"@,
{
    reveal_strlit(")");
    assert(joined(Seq::<Seq<char>>::empty(), ", "@) =~= Seq::<char>::empty());
    assert("ThermoSystem("@ + Seq::<char>::empty() + ")"@ =~= "ThermoSystem("@ + ")"@);
    assert(joined(seq![n], ", "@) == n);
    if names.len() > 0 {
        let longer = names.push(n);
        assert(longer.drop_last() =~= names);
        assert(joined(longer, ", "@) == joined(names, ", "@) + ", "@ + n);
        let t = system_repr_text(names);
        assert(t.drop_last() =~= "ThermoSystem("@ + joined(names, ", "@));
        assert(system_repr_text(longer) =~= t.drop_last() + ", "@ + n + ")"@);
    }
}

/// The enthalpy-curve repr reports the curve's own point count: between
/// "EnthalpyCurve(" and " points)" stand decimal digits that read back as the
/// count (no leading zero unless it is zero).
pub proof fn law_enthalpy_curve_repr_reports_count(n: nat)
    ensures
        exists|d: Seq<char>|
            #![trigger digits_value(d)]
            enthalpy_curve_repr_text(n) == "EnthalpyCurve("@ + d + " points)"@ && d.len() > 0
                && (forall|i: int| 0 <= i < d.len() ==> is_digit_char(#[trigger] d[i]))
                && digits_value(d) == n && (n > 0 ==> d[0] != '0'),
{
    law_decimal_digits_read_back(n);
    let d = decimal_digits(n);
    assert(digits_value(d) == n);
}

/// The equilibrium-curve repr reports the curve's own point count, with or
/// without a pressure: after "EquilibriumCurve(" stand decimal digits that
/// read back as the count, then " points, P = ", the pressure text and
/// " kPa)" when there is a pressure, or " points, synthetic)" when there is
/// none.
pub proof fn law_equilibrium_curve_repr_reports_count(n: nat, pressure: Option<Seq<char>>)
    ensures
        exists|d: Seq<char>|
            #![trigger digits_value(d)]
            d.len() > 0 && (forall|i: int| 0 <= i < d.len() ==> is_digit_char(#[trigger] d[i]))
                && digits_value(d) == n && (n > 0 ==> d[0] != '0') && match pressure {
                Some(p) => equilibrium_curve_repr_text(n, pressure) == "EquilibriumCurve("@ + d
                    + " points, P = "@ + p + " kPa)"@,
                None => equilibrium_curve_repr_text(n, pressure) == "EquilibriumCurve("@ + d
                    + " points, synthetic)"@,
            },
{
    law_decimal_digits_read_back(n);
    let d = decimal_digits(n);
    assert(digits_value(d) == n);
}

/// The canonical name of a condenser kind, as the bindings print and read it.
pub open spec fn condenser_name(k: CondenserKind) -> Seq<char> {
    match k {
        CondenserKind::Total => "total"@,
        CondenserKind::Partial => "partial"@,
    }
}

/// The canonical name of a phase.
pub open spec fn phase_name(p: Phase) -> Seq<char> {
    match p {
        Phase::Liquid => "liquid"@,
        Phase::Vapor => "vapor"@,
    }
}

/// A string of lower-case ASCII letters is its own lower-casing.
proof fn lemma_lowercase_fixed(s: Seq<char>)
    requires
        forall|i: int| 0 <= i < s.len() ==> 97 <= (#[trigger] s[i] as int) <= 122,
    ensures
        ascii_lower(s) == s,
{
    assert(ascii_lower(s) =~= s);
}

/// Reading is blind to ASCII case: two names that lower-case alike denote
/// the same condenser and the same phase (or are both rejected).
pub proof fn law_names_ignore_ascii_case(a: Seq<char>, b: Seq<char>)
    requires
        ascii_lower(a) == ascii_lower(b),
    ensures
        condenser_named(a) == condenser_named(b),
        phase_named(a) == phase_named(b),
{
}

/// Every condenser kind and every phase reads back from its canonical name.
pub proof fn law_canonical_names_read_back(k: CondenserKind, p: Phase)
    ensures
        condenser_named(condenser_name(k)) == Some(k),
        phase_named(phase_name(p)) == Some(p),
{
    reveal_strlit("total");
    reveal_strlit("partial");
    reveal_strlit("liquid");
    reveal_strlit("vapor");
    reveal_strlit("l");
    reveal_strlit("vapour");
    reveal_strlit("v");
    lemma_lowercase_fixed("total"@);
    lemma_lowercase_fixed("partial"@);
    lemma_lowercase_fixed("liquid"@);
    lemma_lowercase_fixed("vapor"@);
    assert("partial"@ != "total"@) by {
        assert("partial"@.len() != "total"@.len());
    }
    assert("vapor"@ != "liquid"@) by {
        assert("vapor"@[0] != "liquid"@[0]);
    }
    assert("vapor"@ != "l"@) by {
        assert("vapor"@.len() != "l"@.len());
    }
}

} // verus!
