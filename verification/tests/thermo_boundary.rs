use stages_thermo::thermo::{check_composition, load_components, missing_component_message};
use stages_thermo::types::StagesError;

#[test]
fn unknown_component_is_a_thermo_error() {
    let err = load_components(&["benzene", "unobtainium"]).unwrap_err();
    assert!(matches!(err, StagesError::Thermo(_)));
    assert!(err.message().contains("unobtainium"));
    assert!(err
        .message()
        .starts_with("thermo evaluation failed: component \"unobtainium\" not in the vle-thermo database (available: "));
}

#[test]
fn dimension_mismatch_is_caught() {
    let err = check_composition(2, 1).unwrap_err();
    assert!(matches!(err, StagesError::Dimension(_)));
}

#[test]
fn composition_mismatch_message_counts_both_sides() {
    match check_composition(2, 13) {
        Err(StagesError::Dimension(m)) => {
            assert_eq!(m, "composition has 13 entries but the system has 2 components")
        }
        other => panic!("expected a dimension error, got {other:?}"),
    }
    assert!(check_composition(3, 3).is_ok());
    assert!(check_composition(0, 0).is_ok());
}

#[test]
fn components_load_in_the_order_given() {
    let comps = load_components(&["toluene", "benzene", "water"]).unwrap();
    assert_eq!(comps.len(), 3);
    assert_eq!(comps[0].name, "toluene");
    assert_eq!(comps[1].name, "benzene");
    assert_eq!(comps[2].name, "water");
    assert!(load_components(&[]).unwrap().is_empty());
}

#[test]
fn names_are_found_whatever_their_ascii_case() {
    let comps = load_components(&["BENZENE", "Toluene"]).unwrap();
    assert_eq!(comps[0].name, "benzene");
    assert_eq!(comps[1].name, "toluene");
}

#[test]
fn missing_name_message_lists_the_catalog() {
    let err = load_components(&["unobtainium"]).unwrap_err();
    assert_eq!(
        err.message(),
        "thermo evaluation failed: component \"unobtainium\" not in the vle-thermo database \
         (available: 2-propanol, acetone, ammonia, benzene, carbon dioxide, chloroform, \
         cyclohexane, ethane, ethanol, hydrogen sulfide, isobutane, isopentane, methane, \
         methanol, methylcyclohexane, n-butane, n-decane, n-heptane, n-hexane, n-nonane, \
         n-octane, n-pentane, propane, toluene, water)"
    );
}

#[test]
fn first_missing_name_is_reported() {
    let err = load_components(&["water", "kryptonite", "unobtainium"]).unwrap_err();
    let text = err.message();
    assert!(text.contains("\"kryptonite\""));
    assert!(!text.contains("unobtainium"));
    assert!(text.contains("water"));
}

#[test]
fn missing_component_message_lists_available_names() {
    let avail = vec!["benzene".to_string(), "toluene".to_string(), "water".to_string()];
    assert_eq!(
        missing_component_message("xenon-9", &avail),
        "component \"xenon-9\" not in the vle-thermo database (available: benzene, toluene, water)"
    );
    assert_eq!(
        missing_component_message("a\"b", &Vec::new()),
        "component \"a\\\"b\" not in the vle-thermo database (available: )"
    );
}

#[test]
fn catalog_names_with_spaces_are_found() {
    let comps = load_components(&["Carbon Dioxide", "hydrogen sulfide"]).unwrap();
    assert_eq!(comps[0].name, "carbon dioxide");
    assert_eq!(comps[1].name, "hydrogen sulfide");
}
