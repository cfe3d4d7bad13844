use stages_thermo::version;

#[test]
fn version_is_semver_shaped() {
    let v = version();
    let parts: Vec<&str> = v.split('.').collect();
    assert!(parts.len() >= 3, "version {v} is not semver-shaped");
    assert!(parts[0].parse::<u64>().is_ok(), "major of {v} not numeric");
}

#[test]
fn version_matches_cargo_pkg() {
    assert_eq!(version(), "0.2.0");
}
