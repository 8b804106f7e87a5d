use fdt::daemon::event::{AppLaunchMode, AppMode, AppStartEventParams, AppStopEventParams, FlutterDaemonEvent};
use fdt::daemon::io::{frame_request, is_daemon_message, message_payload, next_request_id, response_for};
use fdt::daemon::request::{DetachAppParams, FlutterDaemonRequest, RestartAppParams, StopAppParams};
use fdt::daemon::response::FlutterDaemonResponse;
use fdt::daemon::run::{
    app_id_after, detach_outcome, FlutterRun, detach_request, flutter_run_command, restart_outcome, run_directory, restart_request, stop_outcome,
    stop_request,
    RunError,
};

#[test]
fn message_lines_are_told_from_output() {
    assert!(is_daemon_message(r#"[{"event":"daemon.connected","params":{"version":"2.0.0","pid":1234}}]"#));
    assert!(!is_daemon_message(r#"{"id":123,"result":"1234"}"#));
    assert!(!is_daemon_message("some invalid message"));
    assert!(!is_daemon_message("[{"));
    assert!(!is_daemon_message(""));
}

#[test]
fn payload_drops_the_brackets() {
    assert_eq!(
        message_payload(r#"[{"id":123,"result":"1234"}]"#),
        Some(r#"{"id":123,"result":"1234"}"#.to_string())
    );
    assert_eq!(message_payload(r#"[{"a":[1]}]"#), Some(r#"{"a":[1]}"#.to_string()));
    assert_eq!(message_payload(r#"[[{"a":1}]]"#), None);
    assert_eq!(message_payload(r#"{"id":123,"result":"1234"}"#), None);
    assert_eq!(message_payload("some invalid message"), None);
}

#[test]
fn framing_then_reading_gives_the_request_back() {
    let json = r#"{"method":"daemon.version","id":1}"#;
    let framed = frame_request(json);
    assert_eq!(framed, "[{\"method\":\"daemon.version\",\"id\":1}]\n");
    let line = framed.trim_end_matches('\n');
    assert_eq!(message_payload(line), Some(json.to_string()));
}

#[test]
fn responses_are_matched_by_id() {
    let response = FlutterDaemonResponse { id: 123, result: Some("1234".to_string()) };
    assert_eq!(response_for(response.clone(), 123), Some(response.clone()));
    assert_eq!(response_for(response, 124), None);
}

#[test]
fn request_ids_count_up() {
    assert_eq!(next_request_id(0), 1);
    assert_eq!(next_request_id(41), 42);
}

#[test]
fn run_command_with_every_option() {
    let command = flutter_run_command(
        "/proj",
        Some("emulator-5554".to_string()),
        Some("lib/main_development.dart".to_string()),
        Some("debug".to_string()),
        Some("app".to_string()),
        Some(vec!["--flavor".to_string(), "development".to_string()]),
        false,
    );
    assert_eq!(command.directory, "/proj/app");
    assert_eq!(command.program, "flutter");
    assert_eq!(
        command.args,
        vec![
            "run",
            "--machine",
            "-d",
            "emulator-5554",
            "-t",
            "lib/main_development.dart",
            "--debug",
            "--flavor",
            "development"
        ]
    );
}

#[test]
fn run_command_through_fvm() {
    let command = flutter_run_command("/proj", None, None, None, None, None, true);
    assert_eq!(command.directory, "/proj/");
    assert_eq!(command.program, "fvm");
    assert_eq!(command.args, vec!["flutter", "run", "--machine"]);
}

#[test]
fn restart_needs_an_app_id() {
    assert_eq!(restart_request(3, None, false), Err(RunError::AppIdNotSet));
    assert_eq!(
        restart_request(3, Some("com.example.app".to_string()), true),
        Ok(FlutterDaemonRequest::RestartApp {
            id: 3,
            params: RestartAppParams {
                app_id: "com.example.app".to_string(),
                full_restart: true,
                pause: false,
                reason: None,
                debounce: None,
            },
        })
    );
}

#[test]
fn detach_and_stop_requests() {
    assert_eq!(detach_request(1, None), Err(RunError::AppIdNotSet));
    assert_eq!(stop_request(1, None), Err(RunError::AppIdNotSet));
    assert_eq!(
        detach_request(1, Some("com.example.app".to_string())),
        Ok(FlutterDaemonRequest::DetachApp {
            id: 1,
            params: DetachAppParams { app_id: "com.example.app".to_string() },
        })
    );
    assert_eq!(
        stop_request(2, Some("com.example.app".to_string())),
        Ok(FlutterDaemonRequest::StopApp {
            id: 2,
            params: StopAppParams { app_id: "com.example.app".to_string() },
        })
    );
}

#[test]
fn detach_and_stop_need_confirmation() {
    assert_eq!(detach_outcome(Some(true)), Ok(()));
    assert_eq!(detach_outcome(Some(false)), Err(RunError::CouldNotDetach));
    assert_eq!(detach_outcome(None), Err(RunError::CouldNotDetach));
    assert_eq!(stop_outcome(Some(true)), Ok(()));
    assert_eq!(stop_outcome(None), Err(RunError::CouldNotStop));
}

#[test]
fn restart_needs_a_result() {
    assert_eq!(restart_outcome(Some(7u32)), Ok(7));
    assert_eq!(restart_outcome::<u32>(None), Err(RunError::CouldNotRestart));
}

#[test]
fn run_directory_joins_like_paths() {
    assert_eq!(run_directory("/proj", Some("app".to_string())), "/proj/app");
    assert_eq!(run_directory("/proj/", Some("app".to_string())), "/proj/app");
    assert_eq!(run_directory("/proj", Some("/abs/dir".to_string())), "/abs/dir");
    assert_eq!(run_directory("/proj", None), "/proj/");
    assert_eq!(run_directory("", Some("app".to_string())), "app");
    for (root, cwd) in [("/proj", "app"), ("/proj/", "a/b"), ("/proj", "/abs"), ("rel", "")] {
        let expected = std::path::Path::new(root).join(cwd);
        assert_eq!(run_directory(root, Some(cwd.to_string())), expected.to_str().unwrap());
    }
}

fn app_start(app_id: &str) -> FlutterDaemonEvent {
    FlutterDaemonEvent::AppStart {
        params: AppStartEventParams {
            app_id: app_id.to_string(),
            device_id: "linux".to_string(),
            directory: "/path/to/app".to_string(),
            supports_restart: true,
            launch_mode: AppLaunchMode::Run,
            mode: AppMode::Debug,
        },
    }
}

#[test]
fn the_first_app_start_gives_the_app_id() {
    let stop = FlutterDaemonEvent::AppStop { params: AppStopEventParams { app_id: "x".to_string() } };
    assert_eq!(app_id_after(None, None), None);
    assert_eq!(app_id_after(None, Some(&stop)), None);
    let id = app_id_after(None, Some(&app_start("com.example.app")));
    assert_eq!(id, Some("com.example.app".to_string()));
    assert_eq!(app_id_after(id.clone(), Some(&app_start("other"))), id);
}

#[test]
fn running_app_gets_its_id_from_the_first_start() {
    let mut run = FlutterRun::new(
        "/proj",
        Some("linux".to_string()),
        None,
        Some("profile".to_string()),
        Some("app".to_string()),
        None,
        true,
    );
    assert_eq!(run.command.program, "fvm");
    assert_eq!(run.command.args, vec!["flutter", "run", "--machine", "-d", "linux", "--profile"]);
    assert_eq!(run.command.directory, "/proj/app");
    assert_eq!(run.app_id, None);
    assert_eq!(run.stop(), Err(RunError::AppIdNotSet));
    assert_eq!(run.request_count, 1);
    assert_eq!(run.restart(false), Err(RunError::AppIdNotSet));
    assert_eq!(RunError::AppIdNotSet.message(), "App id is not set");
    run.receive_line(None);
    run.receive_line(Some(&app_start("com.example.app")));
    run.receive_line(Some(&app_start("other")));
    assert_eq!(run.app_id, Some("com.example.app".to_string()));
    assert_eq!(
        run.detach(),
        Ok(FlutterDaemonRequest::DetachApp {
            id: 3,
            params: DetachAppParams { app_id: "com.example.app".to_string() },
        })
    );
    assert_eq!(
        run.restart(true),
        Ok(FlutterDaemonRequest::RestartApp {
            id: 4,
            params: RestartAppParams {
                app_id: "com.example.app".to_string(),
                full_restart: true,
                pause: false,
                reason: None,
                debounce: None,
            },
        })
    );
}

#[test]
fn error_messages() {
    assert_eq!(RunError::CouldNotDetach.message(), "Could not detach app");
    assert_eq!(RunError::CouldNotStop.message(), "Could not stop app");
    assert_eq!(RunError::CouldNotRestart.message(), "Could not restart app");
}
