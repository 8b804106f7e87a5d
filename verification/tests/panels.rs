use fdt::daemon::device::{Device, DeviceCapabilities};
use fdt::daemon::emulator::Emulator;
use fdt::device_view::{detail_rows, entry_ids, entry_label, entry_platform_name, DeviceOrEmulator};
use fdt::frames::{bar_label, frame_line, frames_to_skip, is_janky, max_frame_count};
use fdt::keymap::{DevTools, Focus, Home};
use fdt::launch::{
    configuration_details, configuration_title, launch_json_without_comments,
    VSCodeLaunchConfiguration, VSCodeLaunchConfigurationRequest,
};
use fdt::layout::{
    devtools_main_panels, devtools_screen, devtools_sidebar, home_main_panels, home_screen, home_sidebar,
    main_columns, main_rows, screen_columns, ComponentId, Constraint, Placement,
};
use fdt::session_view::{
    app_title, device_name, log_lines, wrap_log_text, LogsComponent, log_text, log_width, log_wrapped, runner_label, sdk_rows,
    session_status, FlutterSdkVersion, SessionLog, SessionStatus,
};

fn linux() -> Device {
    Device {
        id: "linux".to_string(),
        name: "Linux".to_string(),
        platform: "linux".to_string(),
        emulator: false,
        category: "mobile".to_string(),
        platform_type: "desktop".to_string(),
        ephemeral: false,
        emulator_id: Some("linux".to_string()),
        sdk: "Flutter (Channel stable, 2.0.3, on Linux, locale en_US.UTF-8)".to_string(),
        capabilities: DeviceCapabilities {
            hot_reload: true,
            hot_restart: true,
            screenshot: true,
            fast_start: true,
            flutter_exit: true,
            hardware_rendering: true,
            start_paused: false,
        },
    }
}

fn pixel() -> Emulator {
    Emulator {
        id: "Pixel_7".to_string(),
        name: "Pixel 7".to_string(),
        category: "mobile".to_string(),
        platform_type: "android".to_string(),
    }
}

#[test]
fn frame_chart_sizes() {
    assert_eq!(max_frame_count(15), 0);
    assert_eq!(max_frame_count(100), 12);
    assert_eq!(frames_to_skip(30, 12), 18);
    assert_eq!(frames_to_skip(5, 12), 0);
    assert_eq!(bar_label(1, 42), "42");
    assert_eq!(bar_label(2, 42), " ");
}

#[test]
fn jank_and_frame_lines() {
    assert!(is_janky(17, 60));
    assert!(!is_janky(16, 60));
    assert!(is_janky(9, 120));
    assert_eq!(frame_line(7, 12, 3), "Frame: 7 | Build: 12ms | Raster: 3ms");
}

#[test]
fn home_panels_follow_the_focus() {
    assert_eq!(
        home_main_panels(Focus::Home(Home::Runners), None),
        vec![ComponentId::LaunchConfigurations, ComponentId::SdkVersion]
    );
    assert_eq!(home_main_panels(Focus::Home(Home::Runners), Some(false)), vec![ComponentId::Logs]);
    assert_eq!(
        home_main_panels(Focus::Home(Home::Runners), Some(true)),
        vec![ComponentId::Frames, ComponentId::Inspector, ComponentId::Network, ComponentId::Logs]
    );
    assert_eq!(home_main_panels(Focus::Home(Home::Project), None), vec![ComponentId::Pubspec]);
    assert_eq!(home_main_panels(Focus::Home(Home::Devices), None), vec![ComponentId::Device]);
}

#[test]
fn devtools_panels_follow_the_focus() {
    assert_eq!(
        devtools_main_panels(Focus::DevTools(DevTools::Performance)),
        vec![ComponentId::Frames, ComponentId::FrameAnalysis]
    );
    assert_eq!(devtools_main_panels(Focus::DevTools(DevTools::Inspector)), vec![ComponentId::WidgetDetails]);
    assert_eq!(
        devtools_sidebar(Focus::DevTools(DevTools::Network)),
        vec![Constraint::Length(3), Constraint::Length(2), Constraint::Length(2), Constraint::Fill(1)]
    );
    assert_eq!(
        devtools_sidebar(Focus::DevTools(DevTools::App)),
        vec![Constraint::Length(3), Constraint::Fill(1), Constraint::Fill(1), Constraint::Fill(1)]
    );
}

#[test]
fn device_and_emulator_entries() {
    let entries = vec![DeviceOrEmulator::Device(linux()), DeviceOrEmulator::Emulator(pixel())];
    assert_eq!(entry_ids(&entries), vec!["linux".to_string(), "Pixel_7".to_string()]);
    assert_eq!(entry_label(&entries[0]), "Linux");
    assert_eq!(entry_label(&entries[1]), "▶ Start Pixel 7");
    assert_eq!(entry_platform_name(&entries[1]), "android");
}

#[test]
fn device_details_with_flavors() {
    let flavors = vec!["develop".to_string(), "staging".to_string()];
    let rows = detail_rows(&DeviceOrEmulator::Emulator(pixel()), Some(&flavors));
    let expected: Vec<(String, String)> = vec![
        ("ID", "Pixel_7"),
        ("Name", "Pixel 7"),
        ("Platform", "android"),
        ("Category", "mobile"),
        ("Flavors", "develop, staging"),
    ]
    .into_iter()
    .map(|(a, b)| (a.to_string(), b.to_string()))
    .collect();
    assert_eq!(rows, expected);
    let rows = detail_rows(&DeviceOrEmulator::Device(linux()), Some(&vec![]));
    assert_eq!(rows.len(), 7);
    assert_eq!(rows[4], ("Is emulator".to_string(), "false".to_string()));
}

#[test]
fn session_labels() {
    let devices = vec![linux()];
    assert_eq!(device_name(&devices, &"linux".to_string()), "Linux");
    assert_eq!(device_name(&devices, &"macos".to_string()), "");
    assert_eq!(runner_label(&devices, Some(&"linux".to_string())), " Linux ");
    assert_eq!(
        app_title(&devices, Some(&"linux".to_string()), Some(&"develop".to_string())),
        " Linux (develop)"
    );
    assert_eq!(app_title(&devices, None, None), "  ");
    assert_eq!(session_status(false, false, false), SessionStatus::Starting);
    assert_eq!(session_status(true, true, true), SessionStatus::HotReloading);
    assert_eq!(session_status(false, true, true), SessionStatus::HotRestarting);
    assert_eq!(session_status(false, false, true), SessionStatus::Running);
}

#[test]
fn log_lines_of_a_session() {
    let progress = SessionLog::Progress {
        id: "1".to_string(),
        message: Some("Compiling".to_string()),
        start_at: 100,
        end_at: Some(350),
    };
    assert_eq!(log_text(&progress, true), "Compiling (250ms)");
    assert_eq!(log_text(&progress, false), "Compiling");
    assert!(log_wrapped(&progress, true));
    let running = SessionLog::Progress { id: "2".to_string(), message: None, start_at: 5, end_at: None };
    assert_eq!(log_text(&running, true), "");
    assert!(!log_wrapped(&running, true));
    let out = SessionLog::Stdout("hello world foo".to_string());
    assert_eq!(log_lines(&out, true, 5), vec!["hello", "world", "foo"]);
    assert_eq!(log_lines(&out, false, 5), vec!["hello world foo"]);
    assert_eq!(log_width(84), 80);
}

#[test]
fn sdk_version_rows() {
    let v = FlutterSdkVersion {
        flutter_version: "3.19.0".to_string(),
        framework_version: "3.19.0".to_string(),
        channel: "stable".to_string(),
        repository_url: "https://github.com/flutter/flutter.git".to_string(),
        framework_revision: "abc".to_string(),
        framework_commit_date: "2024-02-14".to_string(),
        engine_revision: "def".to_string(),
        dart_sdk_version: "3.3.0".to_string(),
        flutter_root: "/opt/flutter".to_string(),
    };
    let rows = sdk_rows(&v);
    assert_eq!(rows.len(), 9);
    assert_eq!(rows[0], ("Flutter Version".to_string(), "3.19.0".to_string()));
    assert_eq!(rows[2], ("Channel".to_string(), "stable".to_string()));
    assert_eq!(rows[8], ("Flutter Root".to_string(), "/opt/flutter".to_string()));
}

#[test]
fn launch_configuration_lines() {
    let c = VSCodeLaunchConfiguration {
        name: "Launch Development".to_string(),
        type_: "dart".to_string(),
        request: VSCodeLaunchConfigurationRequest::Launch,
        program: Some("lib/main/main_development.dart".to_string()),
        args: Some(vec!["--flavor".to_string(), "development".to_string()]),
        cwd: None,
        flutter_mode: Some("debug".to_string()),
    };
    assert_eq!(configuration_title(&c), " Launch Development ");
    let rows = configuration_details(&c);
    assert_eq!(
        rows,
        vec![
            ("  Program   ".to_string(), "lib/main/main_development.dart".to_string()),
            ("  Mode      ".to_string(), "debug".to_string()),
            ("  Args      ".to_string(), "--flavor development".to_string()),
        ]
    );
}

#[test]
fn launch_json_comments_are_removed() {
    let json = "{\n  // the version\n  \"version\": \"0.2.0\" /* inline */\n}";
    let stripped = launch_json_without_comments(json).unwrap();
    let text = String::from_utf8(stripped).unwrap();
    assert!(!text.contains("the version"));
    assert!(!text.contains("inline"));
    assert!(text.contains("\"version\": \"0.2.0\""));
    let value: serde_json::Value = serde_json::from_str(&text).unwrap();
    assert_eq!(value["version"], "0.2.0");
}

#[test]
fn whole_screens() {
    assert_eq!(screen_columns(), vec![Constraint::Percentage(25), Constraint::Percentage(75)]);
    assert_eq!(
        home_sidebar(),
        vec![Constraint::Length(3), Constraint::Percentage(50), Constraint::Percentage(50)]
    );
    let home = home_screen(Focus::Home(Home::Devices), None);
    assert_eq!(
        home,
        vec![
            (ComponentId::Project, Placement::Sidebar(0)),
            (ComponentId::Runners, Placement::Sidebar(1)),
            (ComponentId::Devices, Placement::Sidebar(2)),
            (ComponentId::Device, Placement::Main),
            (ComponentId::SelectDevicePopup, Placement::Popup { width_percent: 60, height_percent: 20 }),
            (ComponentId::SelectFlavorPopup, Placement::Popup { width_percent: 60, height_percent: 40 }),
        ]
    );
    let tools = devtools_screen(Focus::DevTools(DevTools::Performance));
    assert_eq!(tools.len(), 6);
    assert_eq!(tools[3], (ComponentId::Network, Placement::Sidebar(3)));
    assert_eq!(tools[5], (ComponentId::FrameAnalysis, Placement::Main));
}

#[test]
fn wrapping_gives_the_same_lines_every_time() {
    let first = wrap_log_text("one two three four", 8);
    assert_eq!(first, vec!["one two", "three", "four"]);
    assert_eq!(wrap_log_text("one two three four", 8), first);
}

#[test]
fn main_area_splits() {
    let runners = Focus::Home(Home::Runners);
    assert_eq!(main_rows(runners, Some(true)), vec![Constraint::Percentage(30), Constraint::Percentage(70)]);
    assert_eq!(main_columns(runners, Some(true)), vec![Constraint::Fill(1); 3]);
    assert_eq!(main_rows(runners, None), vec![]);
    assert_eq!(main_columns(runners, None), vec![Constraint::Fill(1); 2]);
    assert_eq!(main_columns(runners, Some(false)), vec![]);
    let performance = Focus::DevTools(DevTools::Performance);
    assert_eq!(main_rows(performance, None), vec![Constraint::Percentage(30), Constraint::Percentage(70)]);
    assert_eq!(main_columns(performance, None), vec![]);
    assert_eq!(main_rows(Focus::Home(Home::Project), None), vec![]);
}

#[test]
fn logs_component_wraps_once_per_text_and_width() {
    let mut logs = LogsComponent::new();
    let first = logs.wrap_text("one two three four", 8);
    assert_eq!(first, vec!["one two", "three", "four"]);
    assert_eq!(logs.wrap_text("one two three four", 8), first);
    assert_eq!(logs.wrap_text("one two three four", 20), vec!["one two three four"]);
    assert_eq!(logs.wrap_text("one two three four", 8), first);
}
