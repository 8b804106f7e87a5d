use fdt::keymap::{
    app_keys, devices_keys, global_keys, inspector_keys, logs_keys, network_keys, performance_keys,
    pubspec_keys, runners_keys, select_device_popup_keys, select_launch_configuration_popup_keys,
    select_tab_controller_keys, widget_details_keys, Command, DevTools, Focus, Home, Key, KeyContext,
    PopUp, TreeMove, TuiAction,
};
use fdt::layout::{apply_tui_action, loop_step, redraws, LoopFlags, LoopStep};

fn ctx(focus: Focus, popup: Option<PopUp>) -> KeyContext {
    KeyContext { focus, popup, has_session: false, has_launch_configurations: false }
}

#[test]
fn tabs_move_left_and_right() {
    let home = ctx(Focus::Home(Home::Runners), None);
    assert_eq!(select_tab_controller_keys(Key::Char('l'), home), vec![Command::NextHomeTab]);
    assert_eq!(select_tab_controller_keys(Key::Left, home), vec![Command::PreviousHomeTab]);
    assert_eq!(select_tab_controller_keys(Key::Esc, home), vec![]);
    let tools = ctx(Focus::DevTools(DevTools::App), None);
    assert_eq!(select_tab_controller_keys(Key::Right, tools), vec![Command::NextDevToolsTab]);
    assert_eq!(select_tab_controller_keys(Key::Char('h'), tools), vec![Command::PreviousDevToolsTab]);
    assert_eq!(select_tab_controller_keys(Key::Esc, tools), vec![Command::ExitDevTools]);
}

#[test]
fn a_popup_takes_every_key() {
    let shown = ctx(Focus::Home(Home::Runners), Some(PopUp::SelectDevice));
    assert_eq!(select_tab_controller_keys(Key::Right, shown), vec![]);
    assert_eq!(runners_keys(Key::Char('r'), shown), vec![]);
    assert_eq!(select_device_popup_keys(Key::Down, shown, false), vec![Command::NextDeviceForRunning]);
    assert_eq!(select_launch_configuration_popup_keys(Key::Down, shown), vec![]);
}

#[test]
fn device_popup_runs_the_app() {
    let shown = ctx(Focus::Home(Home::Runners), Some(PopUp::SelectDevice));
    assert_eq!(
        select_device_popup_keys(Key::Enter, shown, true),
        vec![Command::HideSelectDevicePopUp, Command::RunNewApp { use_fvm: true }]
    );
    assert_eq!(select_device_popup_keys(Key::Esc, shown, false), vec![Command::HideSelectDevicePopUp]);
    assert_eq!(select_device_popup_keys(Key::Char('k'), shown, false), vec![Command::PreviousDeviceForRunning]);
}

#[test]
fn launch_configuration_popup_leads_to_device_popup() {
    let shown = ctx(Focus::Home(Home::Runners), Some(PopUp::SelectLaunchConfiguration));
    assert_eq!(
        select_launch_configuration_popup_keys(Key::Enter, shown),
        vec![Command::HideSelectLaunchConfigurationPopup, Command::ShowSelectDevicePopUp]
    );
    assert_eq!(select_launch_configuration_popup_keys(Key::Up, shown), vec![Command::PreviousLaunchConfiguration]);
}

#[test]
fn runners_keys_by_state() {
    let mut c = ctx(Focus::Home(Home::Runners), None);
    assert_eq!(runners_keys(Key::Char('r'), c), vec![Command::HotReload]);
    assert_eq!(runners_keys(Key::Char('R'), c), vec![Command::HotRestart]);
    assert_eq!(runners_keys(Key::Char('d'), c), vec![Command::StopApp]);
    assert_eq!(runners_keys(Key::Char('j'), c), vec![Command::NextSession]);
    assert_eq!(runners_keys(Key::Enter, c), vec![Command::ShowSelectDevicePopUp]);
    c.has_launch_configurations = true;
    assert_eq!(runners_keys(Key::Enter, c), vec![Command::ShowSelectLaunchConfigurationPopup]);
    c.has_session = true;
    assert_eq!(runners_keys(Key::Enter, c), vec![Command::EnterDevTools]);
    let elsewhere = ctx(Focus::Home(Home::Devices), None);
    assert_eq!(runners_keys(Key::Char('r'), elsewhere), vec![]);
}

#[test]
fn list_panels_move_their_selection() {
    let devices = ctx(Focus::Home(Home::Devices), None);
    assert_eq!(devices_keys(Key::Down, devices), vec![Command::NextDevice]);
    assert_eq!(devices_keys(Key::Enter, devices), vec![Command::LaunchEmulator]);
    let logs = ctx(Focus::DevTools(DevTools::App), None);
    assert_eq!(logs_keys(Key::Up, logs), vec![Command::PreviousLog]);
    let network = ctx(Focus::DevTools(DevTools::Network), None);
    assert_eq!(network_keys(Key::Enter, network), vec![Command::EnterNetworkRequest]);
    assert_eq!(network_keys(Key::Char('j'), network), vec![Command::NextRequest]);
    let performance = ctx(Focus::DevTools(DevTools::Performance), None);
    assert_eq!(performance_keys(Key::Down, performance), vec![Command::NextFrame]);
    assert_eq!(performance_keys(Key::Down, logs), vec![]);
}

#[test]
fn hot_reload_from_any_tool_panel() {
    let inspector = ctx(Focus::DevTools(DevTools::Inspector), None);
    assert_eq!(app_keys(Key::Char('r'), inspector), vec![Command::HotReload]);
    assert_eq!(app_keys(Key::Char('R'), inspector), vec![Command::HotRestart]);
    let home = ctx(Focus::Home(Home::Runners), None);
    assert_eq!(app_keys(Key::Char('r'), home), vec![]);
}

#[test]
fn trees_move_and_toggle() {
    let details = ctx(Focus::DevTools(DevTools::WidgetDetails), None);
    assert_eq!(widget_details_keys(Key::Esc, details), Some(TreeMove::Exit));
    assert_eq!(widget_details_keys(Key::Tab, details), Some(TreeMove::Toggle));
    assert_eq!(widget_details_keys(Key::Char('j'), details), Some(TreeMove::Next));
    assert_eq!(widget_details_keys(Key::Down, ctx(Focus::DevTools(DevTools::Inspector), None)), None);
    assert_eq!(inspector_keys(Key::Enter), Some(TreeMove::Toggle));
    assert_eq!(inspector_keys(Key::Up), Some(TreeMove::Previous));
    assert_eq!(inspector_keys(Key::Char('x')), None);
}

#[test]
fn pubspec_scrolls_within_the_file() {
    let project = ctx(Focus::Home(Home::Project), None);
    assert_eq!(pubspec_keys(Key::Down, project, 0, 10), 1);
    assert_eq!(pubspec_keys(Key::Down, project, 9, 10), 9);
    assert_eq!(pubspec_keys(Key::Up, project, 0, 10), 0);
    assert_eq!(pubspec_keys(Key::Char('k'), project, 5, 10), 4);
    assert_eq!(pubspec_keys(Key::Down, ctx(Focus::Home(Home::Runners), None), 3, 10), 3);
}

#[test]
fn quit_and_suspend() {
    assert_eq!(global_keys(Key::Char('q')), Some(TuiAction::Quit));
    assert_eq!(global_keys(Key::Char('z')), Some(TuiAction::Suspend));
    assert_eq!(global_keys(Key::Enter), None);
    let flags = LoopFlags { should_quit: false, should_suspend: false };
    let suspended = apply_tui_action(flags, TuiAction::Suspend);
    assert!(suspended.should_suspend);
    assert_eq!(apply_tui_action(suspended, TuiAction::Resume), flags);
    let quit = apply_tui_action(flags, TuiAction::Quit);
    assert!(apply_tui_action(quit, TuiAction::Resume).should_quit);
}

#[test]
fn loop_turn_ends_by_flags() {
    let idle = LoopFlags { should_quit: false, should_suspend: false };
    assert_eq!(loop_step(idle), LoopStep::Continue);
    assert_eq!(loop_step(apply_tui_action(idle, TuiAction::Quit)), LoopStep::Quit);
    let both = LoopFlags { should_quit: true, should_suspend: true };
    assert_eq!(loop_step(both), LoopStep::Suspend);
    assert!(redraws(TuiAction::Render));
    assert!(redraws(TuiAction::Resize(80, 24)));
    assert!(!redraws(TuiAction::Tick));
}
