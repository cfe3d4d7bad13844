use stages_thermo::binary::equilibrium::{
    check_enthalpy_lengths, check_has_temperatures, check_point_count, check_sample_lengths,
    check_sweep,
};
use stages_thermo::types::StagesError;

fn dimension_text(r: Result<(), StagesError>) -> String {
    match r {
        Err(StagesError::Dimension(m)) => m,
        other => panic!("expected a dimension error, got {other:?}"),
    }
}

#[test]
fn sweep_needs_a_binary_system() {
    assert_eq!(
        dimension_text(check_sweep(3, 101)),
        "equilibrium curve needs a binary system, got 3 components"
    );
    // The binary check comes before the grid check.
    assert_eq!(
        dimension_text(check_sweep(1, 2)),
        "equilibrium curve needs a binary system, got 1 components"
    );
}

#[test]
fn sweep_needs_five_points() {
    assert_eq!(
        dimension_text(check_sweep(2, 4)),
        "n_points must be at least 5, got 4"
    );
    assert!(check_sweep(2, 5).is_ok());
    assert!(check_sweep(2, 101).is_ok());
}

#[test]
fn point_count_boundary() {
    assert_eq!(dimension_text(check_point_count(0)), "n_points must be at least 5, got 0");
    assert!(check_point_count(5).is_ok());
    assert!(check_point_count(2001).is_ok());
}

#[test]
fn sample_lengths_are_validated() {
    // Too short.
    assert_eq!(
        dimension_text(check_sample_lengths(2, 2, 0)),
        "x and y must have equal length ≥ 5, got 2 and 2"
    );
    // Unequal lengths.
    assert_eq!(
        dimension_text(check_sample_lengths(5, 6, 0)),
        "x and y must have equal length ≥ 5, got 5 and 6"
    );
    // Temperature profile of the wrong length.
    assert_eq!(
        dimension_text(check_sample_lengths(5, 5, 4)),
        "t must be empty or match x's length 5, got 4"
    );
    assert!(check_sample_lengths(5, 5, 0).is_ok());
    assert!(check_sample_lengths(201, 201, 201).is_ok());
}

#[test]
fn enthalpy_samples_must_match_x() {
    assert_eq!(
        dimension_text(check_enthalpy_lengths(5, 4, 5)),
        "h_liq and h_vap must match x's length 5, got 4 and 5"
    );
    assert_eq!(
        dimension_text(check_enthalpy_lengths(201, 201, 200)),
        "h_liq and h_vap must match x's length 201, got 201 and 200"
    );
    assert!(check_enthalpy_lengths(101, 101, 101).is_ok());
}

#[test]
fn synthetic_curve_has_no_temperatures() {
    assert_eq!(
        dimension_text(check_has_temperatures(0)),
        "this curve has no temperature data (synthetic curve)"
    );
    assert!(check_has_temperatures(1).is_ok());
}

#[test]
fn counts_render_in_decimal() {
    // Counts with several digits, zeros inside and at the end.
    assert_eq!(
        dimension_text(check_point_count(0)),
        "n_points must be at least 5, got 0"
    );
    assert_eq!(
        dimension_text(check_sweep(1000, 5)),
        "equilibrium curve needs a binary system, got 1000 components"
    );
    assert_eq!(
        dimension_text(check_sample_lengths(10203, 9, 0)),
        "x and y must have equal length ≥ 5, got 10203 and 9"
    );
}
