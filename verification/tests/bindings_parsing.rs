use stages_thermo::binary::ponchon_savarit::check_condenser;
use stages_thermo::bindings::{
    enthalpy_curve_repr, equilibrium_curve_repr, parse_condenser, parse_phase, py_error_kind,
    system_repr, PyErrorKind,
};
use stages_thermo::column::CondenserKind;
use stages_thermo::thermo::Phase;
use stages_thermo::types::StagesError;

#[test]
fn condenser_names_ignore_case() {
    assert_eq!(parse_condenser("total"), Ok(CondenserKind::Total));
    assert_eq!(parse_condenser("Total"), Ok(CondenserKind::Total));
    assert_eq!(parse_condenser("PARTIAL"), Ok(CondenserKind::Partial));
    assert_eq!(parse_condenser("pArTiAl"), Ok(CondenserKind::Partial));
}

#[test]
fn unknown_condenser_is_quoted_lowercased() {
    assert_eq!(
        parse_condenser("Side-Draw"),
        Err("condenser must be 'total' or 'partial', got \"side-draw\"".to_string())
    );
    assert_eq!(
        parse_condenser(" total"),
        Err("condenser must be 'total' or 'partial', got \" total\"".to_string())
    );
}

#[test]
fn phase_names_and_aliases() {
    assert_eq!(parse_phase("liquid"), Ok(Phase::Liquid));
    assert_eq!(parse_phase("L"), Ok(Phase::Liquid));
    assert_eq!(parse_phase("Vapor"), Ok(Phase::Vapor));
    assert_eq!(parse_phase("VAPOUR"), Ok(Phase::Vapor));
    assert_eq!(parse_phase("v"), Ok(Phase::Vapor));
    assert_eq!(
        parse_phase("Solid"),
        Err("phase must be 'liquid' or 'vapor', got \"solid\"".to_string())
    );
}

#[test]
fn errors_map_to_python_exception_classes() {
    let s = String::new;
    assert_eq!(py_error_kind(&StagesError::Dimension(s())), PyErrorKind::Value);
    assert_eq!(py_error_kind(&StagesError::Infeasible(s())), PyErrorKind::Value);
    assert_eq!(py_error_kind(&StagesError::Thermo(s())), PyErrorKind::Runtime);
    assert_eq!(py_error_kind(&StagesError::Convergence(s())), PyErrorKind::Runtime);
}

#[test]
fn partial_condenser_rejected() {
    assert!(matches!(
        check_condenser(CondenserKind::Partial),
        Err(StagesError::Infeasible(_))
    ));
    assert!(check_condenser(CondenserKind::Total).is_ok());
}

#[test]
fn reprs_render_counts_and_names() {
    let names = vec!["benzene".to_string(), "toluene".to_string()];
    assert_eq!(system_repr(&names), "ThermoSystem(benzene, toluene)");
    assert_eq!(system_repr(&Vec::new()), "ThermoSystem()");
    assert_eq!(
        equilibrium_curve_repr(101, Some("101.325")),
        "EquilibriumCurve(101 points, P = 101.325 kPa)"
    );
    assert_eq!(
        equilibrium_curve_repr(2001, None),
        "EquilibriumCurve(2001 points, synthetic)"
    );
    assert_eq!(enthalpy_curve_repr(201), "EnthalpyCurve(201 points)");
}
