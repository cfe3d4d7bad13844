//! The thermodynamics boundary: the only module of the library that calls
//! into `vle_thermo`.
//!
//! Components are looked up by name in vle-thermo's bundled database, and
//! every composition handed to a thermodynamic evaluation is checked against
//! the mixture's component count first.

use vstd::prelude::*;
use vle_thermo::types::Component;

use crate::text::{
    ascii_lower, debug_quoted, debug_str, decimal_digits, decimal_string, is_decimal_of, is_plain,
    join, joined, lemma_decimal_digits_is_decimal, string_views,
};
use crate::types::StagesError;

verus! {

/// Which phase's molar enthalpy to evaluate — the adapter's own phase tag, so
/// no `vle_thermo` type crosses the module boundary.
#[derive(Debug, Clone, Copy, PartialEq, Eq, Structural)]
pub enum Phase {
    /// Saturated (or subcooled) liquid.
    Liquid,
    /// Saturated (or superheated) vapor.
    Vapor,
}

/// A pure component's constants, as vle-thermo's database hands them out.
#[verifier::external_type_specification]
#[verifier::external_body]
pub struct ExComponent(Component);

/// What `vle_thermo::db::component` returns for a queried name: the bundled
/// record, or `None` when no compound of that name is bundled.
pub uninterp spec fn database_entry(name: Seq<char>) -> Option<Component>;

/// A name that the database's normalisation (trimming, then lower-casing)
/// changes only by ASCII lower-casing: non-empty, made of plain characters,
/// and neither starting nor ending with a space.
pub open spec fn is_plain_name(s: Seq<char>) -> bool {
    &&& s.len() > 0
    &&& is_plain(s)
    &&& s[0] != ' '
    &&& s.last() != ' '
}

/// Looks a component up through `vle_thermo::db::component`, which searches
/// the catalog compiled into vle-thermo after trimming the name and
/// lower-casing it. The result is named by [`database_entry`]. Stated beyond
/// the name: lower-casing the ASCII letters of the query first finds the same
/// entry, and a plain name (see [`is_plain_name`]) is found exactly when its
/// lower-casing is one of the [`bundled_names`]. How names with other
/// characters or surrounding whitespace are normalised is left unsaid.
#[verifier::external_body]
fn db_component(name: &str) -> (found: Option<Component>)
    ensures
        found == database_entry(name@),
        found == database_entry(ascii_lower(name@)),
        is_plain_name(name@) ==> (found is Some <==> bundled_names().contains(
            ascii_lower(name@),
        )),
{
    vle_thermo::db::component(name)
}

/// The names of the components bundled in vle-thermo's catalog, in the sorted
/// order `vle_thermo::db::available` returns them.
pub open spec fn bundled_names() -> Seq<Seq<char>> {
    seq![
        "2-propanol"@,
        "acetone"@,
        "ammonia"@,
        "benzene"@,
        "carbon dioxide"@,
        "chloroform"@,
        "cyclohexane"@,
        "ethane"@,
        "ethanol"@,
        "hydrogen sulfide"@,
        "isobutane"@,
        "isopentane"@,
        "methane"@,
        "methanol"@,
        "methylcyclohexane"@,
        "n-butane"@,
        "n-decane"@,
        "n-heptane"@,
        "n-hexane"@,
        "n-nonane"@,
        "n-octane"@,
        "n-pentane"@,
        "propane"@,
        "toluene"@,
        "water"@,
    ]
}

/// The names of all bundled components through `vle_thermo::db::available`,
/// which sorts the names of the catalog compiled into vle-thermo: the
/// twenty-five compounds of [`bundled_names`].
#[verifier::external_body]
fn db_available() -> (names: Vec<String>)
    ensures
        string_views(names@) == bundled_names(),
{
    vle_thermo::db::available()
}

/// The views of a list of string slices.
pub open spec fn name_views(names: Seq<&str>) -> Seq<Seq<char>> {
    names.map_values(|s: &str| s@)
}

/// Every name is found in the database.
pub open spec fn all_in_database(names: Seq<Seq<char>>) -> bool {
    forall|i: int| 0 <= i < names.len() ==> (#[trigger] database_entry(names[i])) is Some
}

/// A plain name (see [`is_plain_name`]) is found in the database exactly when
/// its lower-casing is one of the bundled names.
pub open spec fn known_if_plain(name: Seq<char>, found: bool) -> bool {
    is_plain_name(name) ==> (found <==> bundled_names().contains(ascii_lower(name)))
}

/// `k` is the position of the first name that the database does not hold.
pub open spec fn is_first_missing(names: Seq<Seq<char>>, k: int) -> bool {
    &&& 0 <= k < names.len()
    &&& database_entry(names[k]) is None
    &&& forall|j: int| 0 <= j < k ==> (#[trigger] database_entry(names[j])) is Some
}

/// The message for a name missing from the database, quoting the name and
/// listing the names that are available.
pub open spec fn missing_component_text(name: Seq<char>, available: Seq<Seq<char>>) -> Seq<char> {
    "component "@ + debug_str(name) + " not in the vle-thermo database (available: "@
        + joined(available, ", "@) + ")"@
}

/// The message for a name missing from the database, given the available
/// names (as `vle_thermo::db::available` lists them).
pub fn missing_component_message(name: &str, available: &Vec<String>) -> (text: String)
    ensures
        text@ == missing_component_text(name@, string_views(available@)),
{
    let mut text = "component ".to_owned();
    text.append(debug_quoted(name).as_str());
    text.append(" not in the vle-thermo database (available: ");
    text.append(join(available, ", ").as_str());
    text.append(")");
    text
}

/// Load components from vle-thermo's built-in database, in the order given,
/// erroring with the first missing name and the list of available names.
/// Names are found regardless of the case of their ASCII letters.
pub fn load_components(names: &[&str]) -> (loaded: Result<Vec<Component>, StagesError>)
    ensures
        loaded is Ok <==> all_in_database(name_views(names@)),
        loaded matches Ok(v) ==> {
            &&& v@.len() == names@.len()
            &&& forall|i: int|
                0 <= i < names@.len() ==> database_entry(names@[i]@) == Some(#[trigger] v@[i])
            &&& forall|i: int|
                0 <= i < names@.len() ==> database_entry(ascii_lower(names@[i]@)) == Some(
                    #[trigger] v@[i],
                )
            &&& forall|i: int| 0 <= i < names@.len() ==> known_if_plain(#[trigger] names@[i]@, true)
        },
        loaded matches Err(e) ==> exists|k: int|
            #![trigger names@[k]]
            is_first_missing(name_views(names@), k) && database_entry(ascii_lower(names@[k]@))
                is None && known_if_plain(names@[k]@, false) && (forall|j: int|
                0 <= j < k ==> known_if_plain(#[trigger] names@[j]@, true)) && (e matches StagesError::Thermo(m) && m@ == missing_component_text(
                names@[k]@,
                bundled_names(),
            )),
{
    let ghost views = name_views(names@);
    let mut out: Vec<Component> = Vec::new();
    let n = names.len();
    let mut i: usize = 0;
    while i < n
        invariant
            n == names@.len(),
            views == name_views(names@),
            0 <= i <= n,
            out@.len() == i,
            forall|j: int| 0 <= j < i ==> database_entry(names@[j]@) == Some(#[trigger] out@[j]),
            forall|j: int|
                0 <= j < i ==> database_entry(ascii_lower(names@[j]@)) == Some(#[trigger] out@[j]),
            forall|j: int| 0 <= j < i ==> known_if_plain(#[trigger] names@[j]@, true),
        decreases n - i,
    {
        let name = names[i];
        match db_component(name) {
            Some(c) => {
                out.push(c);
            },
            None => {
                let available = db_available();
                let text = missing_component_message(name, &available);
                proof {
                    assert(views[i as int] == names@[i as int]@);
                    assert forall|j: int| 0 <= j < i implies (#[trigger] database_entry(
                        views[j],
                    )) is Some by {
                        assert(views[j] == names@[j]@);
                        assert(database_entry(names@[j]@) == Some(out@[j]));
                    }
                    assert(is_first_missing(views, i as int));
                    assert(!all_in_database(views));
                }
                return Err(StagesError::Thermo(text));
            },
        }
        i = i + 1;
    }
    proof {
        assert forall|j: int| 0 <= j < views.len() implies (#[trigger] database_entry(
            views[j],
        )) is Some by {
            assert(views[j] == names@[j]@);
            assert(database_entry(names@[j]@) == Some(out@[j]));
        }
    }
    Ok(out)
}

/// The message for a composition whose length differs from the mixture's
/// component count.
pub open spec fn composition_mismatch_text(x_len: nat, n_components: nat) -> Seq<char> {
    "composition has "@ + decimal_digits(x_len) + " entries but the system has "@
        + decimal_digits(n_components) + " components"@
}

/// Check that a composition of `x_len` mole fractions fits a mixture of
/// `n_components` components.
pub fn check_composition(n_components: usize, x_len: usize) -> (checked: Result<(), StagesError>)
    ensures
        checked is Ok <==> x_len == n_components,
        checked matches Err(e) ==> (e matches StagesError::Dimension(m) && m@
            == composition_mismatch_text(x_len as nat, n_components as nat)),
{
    if x_len != n_components {
        let mut m = "composition has ".to_owned();
        m.append(decimal_string(x_len).as_str());
        m.append(" entries but the system has ");
        m.append(decimal_string(n_components).as_str());
        m.append(" components");
        return Err(StagesError::Dimension(m));
    }
    Ok(())
}

/// The composition-mismatch message reports both counts in place: first the
/// composition's length, then the mixture's component count.
pub proof fn law_composition_message_reports_counts(x_len: nat, n_components: nat)
    ensures
        exists|d: Seq<char>, e: Seq<char>|
            #![trigger is_decimal_of(d, x_len), is_decimal_of(e, n_components)]
            is_decimal_of(d, x_len) && is_decimal_of(e, n_components)
                && composition_mismatch_text(x_len, n_components) == "composition has "@
                + d + " entries but the system has "@ + e + " components"@,
{
    lemma_decimal_digits_is_decimal(x_len);
    lemma_decimal_digits_is_decimal(n_components);
}
} // verus!
