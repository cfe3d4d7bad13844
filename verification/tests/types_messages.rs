use stages_thermo::column::CondenserKind;
use stages_thermo::types::StagesError;

#[test]
fn messages_prefix_the_kind() {
    let d = |s: &str| s.to_string();
    assert_eq!(
        StagesError::Thermo(d("no root")).message(),
        "thermo evaluation failed: no root"
    );
    assert_eq!(
        StagesError::Dimension(d("3 vs 2")).message(),
        "dimension mismatch: 3 vs 2"
    );
    assert_eq!(
        StagesError::Convergence(d("pinched")).message(),
        "solver did not converge: pinched"
    );
    assert_eq!(
        StagesError::Infeasible(d("azeotrope")).message(),
        "infeasible specification: azeotrope"
    );
}

#[test]
fn default_condenser_is_total() {
    assert_eq!(CondenserKind::default(), CondenserKind::Total);
}
