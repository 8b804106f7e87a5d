use fdt::xcode::{schemes_to_run, XcodeProjectInfo};

const XCODEBUILD_LIST: &str = "Command line invocation:
    /Applications/Xcode.app/Contents/Developer/usr/bin/xcodebuild -list

User defaults from command line:
    IDEPackageSupportUseBuiltinSCM = YES

Information about project \"Runner\":
    Targets:
        Runner
        RunnerTests

    Build Configurations:
        Config1
        Config2
        Config3

    If no build configuration is specified and -scheme is not passed then \"Release\" is used.

    Schemes:
        Scheme1
        Scheme2
        Scheme3
";

#[test]
fn get_xcode_project_info() {
    let contents = XCODEBUILD_LIST;
    let info = XcodeProjectInfo::new_from_xcode_build_output(&contents);
    assert!(info.targets.contains(&"Runner"));
    assert!(!info.targets.contains(&"Undefined"));

    assert!(info.build_configurations.contains(&"Config1"));
    assert!(info.build_configurations.contains(&"Config2"));
    assert!(info.build_configurations.contains(&"Config3"));
    assert!(!info.build_configurations.contains(&"Undefined"));

    assert!(!info.targets.contains(&"Scheme1"));
    assert!(!info.targets.contains(&"Scheme2"));
    assert!(!info.targets.contains(&"Scheme3"));
    assert!(!info.targets.contains(&"Undefined"));
}

#[test]
fn xcode_sections_are_read_in_order_and_trimmed() {
    let info = XcodeProjectInfo::new_from_xcode_build_output(XCODEBUILD_LIST);
    assert_eq!(info.targets, vec!["Runner", "RunnerTests"]);
    assert_eq!(info.build_configurations, vec!["Config1", "Config2", "Config3"]);
    assert_eq!(info.schemes, vec!["Scheme1", "Scheme2", "Scheme3"]);
}

#[test]
fn xcode_blank_line_ends_a_section() {
    let output = "Targets:\n  A\n\n  B\nSchemes:\n  S\n";
    let info = XcodeProjectInfo::new_from_xcode_build_output(output);
    assert_eq!(info.targets, vec!["A"]);
    assert_eq!(info.schemes, vec!["S"]);
    assert!(info.build_configurations.is_empty());
}

#[test]
fn xcode_empty_output_has_nothing() {
    let info = XcodeProjectInfo::new_from_xcode_build_output("");
    assert!(info.targets.is_empty());
    assert!(info.build_configurations.is_empty());
    assert!(info.schemes.is_empty());
}

#[test]
fn custom_schemes_are_offered() {
    let info = XcodeProjectInfo::new_from_xcode_build_output(XCODEBUILD_LIST);
    assert_eq!(
        schemes_to_run(&info),
        Some(vec!["Scheme1".to_string(), "Scheme2".to_string(), "Scheme3".to_string()])
    );
}

#[test]
fn runner_scheme_means_no_choice() {
    let output = "    Schemes:\n        Runner\n        Other\n";
    let info = XcodeProjectInfo::new_from_xcode_build_output(output);
    assert_eq!(schemes_to_run(&info), None);
    let info = XcodeProjectInfo::new_from_xcode_build_output("Targets:\n  Runner\n");
    assert_eq!(schemes_to_run(&info), None);
}

#[test]
fn two_listings_joined_by_a_blank_line() {
    let a = "Targets:\n  A\nSchemes:\n  S1";
    let b = "  stray\nBuild Configurations:\n  Debug\nSchemes:\n  S2";
    let joined = format!("{}\n\n{}", a, b);
    let x = XcodeProjectInfo::new_from_xcode_build_output(&joined);
    let ia = XcodeProjectInfo::new_from_xcode_build_output(a);
    let ib = XcodeProjectInfo::new_from_xcode_build_output(b);
    assert_eq!(x.targets, [ia.targets.clone(), ib.targets.clone()].concat());
    assert_eq!(x.build_configurations, [ia.build_configurations.clone(), ib.build_configurations.clone()].concat());
    assert_eq!(x.schemes, [ia.schemes.clone(), ib.schemes.clone()].concat());
    assert_eq!(x.schemes, vec!["S1", "S2"]);
}
