use fdt::gradle::{offered_flavors, product_flavors, variant_from_lowered_capture, variant_of_line};

const GRADLEW_TASKS: &str = "
Build tasks
-----------
assemble - Assemble main outputs for all the variants.
assembleAndroidTest - Assembles all the Test applications.
assembleDebug - Assembles main outputs for all Debug variants.
assembleDevelop - Assembles main outputs for all Develop variants.
assembleDevelopDebug - Assembles main outputs for the DevelopDebug variant.
assembleDevelopDebugUnitTest - Assembles the unit tests.
assembleDevelopRelease - Assembles main outputs for the DevelopRelease variant.
assembleProduction - Assembles main outputs for all Production variants.
assembleProductionDebug - Assembles main outputs for the ProductionDebug variant.
assembleProductionRelease - Assembles main outputs for the ProductionRelease variant.
assembleRelease - Assembles main outputs for all Release variants.
assembleStaging - Assembles main outputs for all Staging variants.
assembleStagingDebug - Assembles main outputs for the StagingDebug variant.
assembleStagingRelease - Assembles main outputs for the StagingRelease variant.
build - Assembles and tests this project.
";

#[test]
pub fn parse_schemes() {
    let contents = GRADLEW_TASKS;
    let schemes = fdt::gradle::parse_schemes(contents);
    assert!(schemes.contains(&"develop".to_string()));
    assert!(schemes.contains(&"staging".to_string()));
    assert!(schemes.contains(&"production".to_string()));
    assert!(!schemes.contains(&"undefined".to_string()));
}

#[test]
fn gradle_only_flavors_are_schemes() {
    let mut schemes = fdt::gradle::parse_schemes(GRADLEW_TASKS);
    schemes.sort();
    assert_eq!(schemes, vec!["develop", "production", "staging"]);
}

#[test]
fn gradle_without_flavors_has_no_scheme() {
    let output = "assembleDebug - x\nassembleRelease - y\nassembleAndroidTest - z\n";
    assert!(fdt::gradle::parse_schemes(output).is_empty());
    assert!(fdt::gradle::parse_schemes("").is_empty());
}

#[test]
fn gradle_variant_is_lowercased_capture() {
    assert_eq!(variant_of_line("assembleStagingDebug - Assembles"), Some("stagingdebug".to_string()));
    assert_eq!(variant_of_line("  :app:assembleProd x"), Some("prod".to_string()));
    assert_eq!(variant_of_line("assemble - all"), None);
    assert_eq!(variant_of_line("assembleDebugUnitTest - tests"), None);
    assert_eq!(variant_of_line("build - Assembles"), None);
}

#[test]
fn gradle_test_variants_are_left_out() {
    assert_eq!(variant_from_lowered_capture("androidtest".to_string()), None);
    assert_eq!(variant_from_lowered_capture("release".to_string()), Some("release".to_string()));
}

#[test]
fn gradle_flavor_needs_a_build_type_variant() {
    let variants: Vec<String> = vec!["free", "freedebug", "paid", "paidbeta", "debug"]
        .into_iter()
        .map(|s| s.to_string())
        .collect();
    assert_eq!(product_flavors(&variants), vec!["free".to_string()]);
}

#[test]
fn gradle_schemes_are_offered_once() {
    let output = format!("{}{}", GRADLEW_TASKS, "assembleDevelopDebug - again\nassembleDevelop - again\n");
    let mut schemes = fdt::gradle::parse_schemes(&output);
    schemes.sort();
    assert_eq!(schemes, vec!["develop", "production", "staging"]);
}

#[test]
fn no_flavors_means_no_schemes() {
    assert_eq!(offered_flavors("assembleDebug - x\nassembleRelease - y\n"), None);
    let mut schemes = offered_flavors(GRADLEW_TASKS).unwrap();
    schemes.sort();
    assert_eq!(schemes, vec!["develop", "production", "staging"]);
}
