//! What each panel of the terminal interface does with a key press.
//!
//! Every panel sees every key. A panel reacts only when it has the focus
//! and no popup is shown; each popup reacts only while it is shown.
use vstd::prelude::*;

verus! {

/// A key press, as far as the panels tell keys apart.
#[derive(Debug, Clone, Copy, PartialEq, Eq, Structural)]
pub enum Key {
    Char(char),
    Up,
    Down,
    Left,
    Right,
    Enter,
    Esc,
    Tab,
    BackTab,
    Other,
}

/// The panels of the home screen.
#[derive(Debug, Clone, Copy, PartialEq, Eq, Structural)]
pub enum Home {
    Project,
    Runners,
    Devices,
}

/// The panels of the developer tools of a running app.
#[derive(Debug, Clone, Copy, PartialEq, Eq, Structural)]
pub enum DevTools {
    App,
    Inspector,
    WidgetDetails,
    Performance,
    Network,
    NetworkRequest,
}

/// Which panel has the focus.
#[derive(Debug, Clone, Copy, PartialEq, Eq, Structural)]
pub enum Focus {
    Home(Home),
    DevTools(DevTools),
}

/// The popups that can be shown over the panels.
#[derive(Debug, Clone, Copy, PartialEq, Eq, Structural)]
pub enum PopUp {
    SelectDevice,
    SelectLaunchConfiguration,
}

/// What the panels read of the application state when they handle a key.
#[derive(Debug, Clone, Copy, PartialEq, Eq, Structural)]
pub struct KeyContext {
    pub focus: Focus,
    pub popup: Option<PopUp>,
    /// An app session is selected.
    pub has_session: bool,
    /// `.vscode/launch.json` gave launch configurations.
    pub has_launch_configurations: bool,
}

/// What a panel asks the application to do.
#[derive(Debug, Clone, Copy, PartialEq, Eq, Structural)]
pub enum Command {
    NextHomeTab,
    PreviousHomeTab,
    NextDevToolsTab,
    PreviousDevToolsTab,
    ExitDevTools,
    NextDevice,
    PreviousDevice,
    LaunchEmulator,
    NextDeviceForRunning,
    PreviousDeviceForRunning,
    HideSelectDevicePopUp,
    ShowSelectDevicePopUp,
    RunNewApp { use_fvm: bool },
    NextLaunchConfiguration,
    PreviousLaunchConfiguration,
    HideSelectLaunchConfigurationPopup,
    ShowSelectLaunchConfigurationPopup,
    NextSession,
    PreviousSession,
    HotReload,
    HotRestart,
    StopApp,
    EnterDevTools,
    NextLog,
    PreviousLog,
    NextRequest,
    PreviousRequest,
    EnterNetworkRequest,
    ExitNetworkRequest,
    LoadFullRequest,
    NextFrame,
    PreviousFrame,
    ExitWidgetDetails,
}

/// A move in a tree of widgets.
#[derive(Debug, Clone, Copy, PartialEq, Eq, Structural)]
pub enum TreeMove {
    Next,
    Previous,
    Toggle,
    Exit,
}

/// What the whole application does with a key, before the panels see it.
#[derive(Debug, Clone, Copy, PartialEq, Eq, Structural)]
pub enum TuiAction {
    Quit,
    Suspend,
    Resume,
    Tick,
    Render,
    Resize(u16, u16),
}

pub open spec fn is_up(key: Key) -> bool {
    key == Key::Up || key == Key::Char('k')
}

pub open spec fn is_down(key: Key) -> bool {
    key == Key::Down || key == Key::Char('j')
}

pub open spec fn is_left(key: Key) -> bool {
    key == Key::Left || key == Key::Char('h')
}

pub open spec fn is_right(key: Key) -> bool {
    key == Key::Right || key == Key::Char('l')
}

/// The panel `panel` of the home screen has the focus and no popup is shown.
pub open spec fn home_active(ctx: KeyContext, panel: Home) -> bool {
    ctx.focus == Focus::Home(panel) && ctx.popup is None
}

/// The developer tools panel `panel` has the focus and no popup is shown.
pub open spec fn devtools_active(ctx: KeyContext, panel: DevTools) -> bool {
    ctx.focus == Focus::DevTools(panel) && ctx.popup is None
}

pub open spec fn one(c: Command) -> Seq<Command> {
    seq![c]
}

pub open spec fn none() -> Seq<Command> {
    Seq::empty()
}

/// Switching tabs: left and right move between the tabs of the screen that
/// has the focus, and escape leaves the developer tools.
pub open spec fn tab_controller_commands(key: Key, ctx: KeyContext) -> Seq<Command> {
    if ctx.popup is Some {
        none()
    } else {
        match ctx.focus {
            Focus::Home(_) => if is_left(key) {
                one(Command::PreviousHomeTab)
            } else if is_right(key) {
                one(Command::NextHomeTab)
            } else {
                none()
            },
            Focus::DevTools(_) => if is_left(key) {
                one(Command::PreviousDevToolsTab)
            } else if is_right(key) {
                one(Command::NextDevToolsTab)
            } else if key == Key::Esc {
                one(Command::ExitDevTools)
            } else {
                none()
            },
        }
    }
}

/// The device list: up and down select, enter launches the selected emulator.
pub open spec fn devices_commands(key: Key, ctx: KeyContext) -> Seq<Command> {
    if !home_active(ctx, Home::Devices) {
        none()
    } else if is_up(key) {
        one(Command::PreviousDevice)
    } else if is_down(key) {
        one(Command::NextDevice)
    } else if key == Key::Enter {
        one(Command::LaunchEmulator)
    } else {
        none()
    }
}

/// The device popup: up and down select, enter closes the popup and runs the
/// app on the selected device, escape closes the popup.
pub open spec fn select_device_popup_commands(key: Key, ctx: KeyContext, use_fvm: bool) -> Seq<
    Command,
> {
    if ctx.popup != Some(PopUp::SelectDevice) {
        none()
    } else if is_up(key) {
        one(Command::PreviousDeviceForRunning)
    } else if is_down(key) {
        one(Command::NextDeviceForRunning)
    } else if key == Key::Enter {
        seq![Command::HideSelectDevicePopUp, Command::RunNewApp { use_fvm }]
    } else if key == Key::Esc {
        one(Command::HideSelectDevicePopUp)
    } else {
        none()
    }
}

/// The launch configuration popup: up and down select, enter closes it and
/// opens the device popup, escape closes it.
pub open spec fn select_launch_configuration_popup_commands(key: Key, ctx: KeyContext) -> Seq<
    Command,
> {
    if ctx.popup != Some(PopUp::SelectLaunchConfiguration) {
        none()
    } else if is_up(key) {
        one(Command::PreviousLaunchConfiguration)
    } else if is_down(key) {
        one(Command::NextLaunchConfiguration)
    } else if key == Key::Enter {
        seq![Command::HideSelectLaunchConfigurationPopup, Command::ShowSelectDevicePopUp]
    } else if key == Key::Esc {
        one(Command::HideSelectLaunchConfigurationPopup)
    } else {
        none()
    }
}

/// The list of running apps: `r` hot reloads, `R` hot restarts, `d` stops,
/// up and down select; enter opens the developer tools of the selected app,
/// or, when none is selected, starts a new one through the launch
/// configuration popup (when there are configurations) or the device popup.
pub open spec fn runners_commands(key: Key, ctx: KeyContext) -> Seq<Command> {
    if !home_active(ctx, Home::Runners) {
        none()
    } else if key == Key::Char('r') {
        one(Command::HotReload)
    } else if key == Key::Char('R') {
        one(Command::HotRestart)
    } else if key == Key::Char('d') {
        one(Command::StopApp)
    } else if is_up(key) {
        one(Command::PreviousSession)
    } else if is_down(key) {
        one(Command::NextSession)
    } else if key == Key::Enter {
        if ctx.has_session {
            one(Command::EnterDevTools)
        } else if ctx.has_launch_configurations {
            one(Command::ShowSelectLaunchConfigurationPopup)
        } else {
            one(Command::ShowSelectDevicePopUp)
        }
    } else {
        none()
    }
}

/// The log of the app: up and down select a line.
pub open spec fn logs_commands(key: Key, ctx: KeyContext) -> Seq<Command> {
    if !devtools_active(ctx, DevTools::App) {
        none()
    } else if is_up(key) {
        one(Command::PreviousLog)
    } else if is_down(key) {
        one(Command::NextLog)
    } else {
        none()
    }
}

/// The list of network requests: up and down select, enter opens the request.
pub open spec fn network_commands(key: Key, ctx: KeyContext) -> Seq<Command> {
    if !devtools_active(ctx, DevTools::Network) {
        none()
    } else if is_up(key) {
        one(Command::PreviousRequest)
    } else if is_down(key) {
        one(Command::NextRequest)
    } else if key == Key::Enter {
        one(Command::EnterNetworkRequest)
    } else {
        none()
    }
}

/// The list of frames: up and down select a frame.
pub open spec fn performance_commands(key: Key, ctx: KeyContext) -> Seq<Command> {
    if !devtools_active(ctx, DevTools::Performance) {
        none()
    } else if is_up(key) {
        one(Command::PreviousFrame)
    } else if is_down(key) {
        one(Command::NextFrame)
    } else {
        none()
    }
}

/// Anywhere in the developer tools: `r` hot reloads, `R` hot restarts.
pub open spec fn app_commands(key: Key, ctx: KeyContext) -> Seq<Command> {
    if !(ctx.focus is DevTools && ctx.popup is None) {
        none()
    } else if key == Key::Char('r') {
        one(Command::HotReload)
    } else if key == Key::Char('R') {
        one(Command::HotRestart)
    } else {
        none()
    }
}

/// The details tree of a widget: up and down move, tab opens or closes the
/// selected node, escape leaves the tree.
pub open spec fn widget_details_move(key: Key, ctx: KeyContext) -> Option<TreeMove> {
    if !devtools_active(ctx, DevTools::WidgetDetails) {
        None
    } else if key == Key::Esc {
        Some(TreeMove::Exit)
    } else if is_down(key) {
        Some(TreeMove::Next)
    } else if is_up(key) {
        Some(TreeMove::Previous)
    } else if key == Key::Tab {
        Some(TreeMove::Toggle)
    } else {
        None
    }
}

/// The widget tree of the inspector: up and down move and enter opens or
/// closes the selected node, whatever has the focus.
pub open spec fn inspector_move(key: Key) -> Option<TreeMove> {
    if is_down(key) {
        Some(TreeMove::Next)
    } else if is_up(key) {
        Some(TreeMove::Previous)
    } else if key == Key::Enter {
        Some(TreeMove::Toggle)
    } else {
        None
    }
}

/// The line of `pubspec.yaml` that the project panel scrolls to: up and down
/// move by one line within the file.
pub open spec fn pubspec_scroll(key: Key, ctx: KeyContext, position: int, line_count: int) -> int {
    if !home_active(ctx, Home::Project) {
        position
    } else if is_up(key) {
        if position > 0 {
            position - 1
        } else {
            0
        }
    } else if is_down(key) {
        if position < line_count - 1 {
            position + 1
        } else {
            line_count - 1
        }
    } else {
        position
    }
}

/// What the whole application does with a key: `q` quits, `z` suspends.
pub open spec fn global_key_action(key: Key) -> Option<TuiAction> {
    if key == Key::Char('q') {
        Some(TuiAction::Quit)
    } else if key == Key::Char('z') {
        Some(TuiAction::Suspend)
    } else {
        None
    }
}

fn up(key: Key) -> (b: bool)
    ensures
        b == is_up(key),
{
    match key {
        Key::Up => true,
        Key::Char(c) => c == 'k',
        _ => false,
    }
}

fn down(key: Key) -> (b: bool)
    ensures
        b == is_down(key),
{
    match key {
        Key::Down => true,
        Key::Char(c) => c == 'j',
        _ => false,
    }
}

fn left(key: Key) -> (b: bool)
    ensures
        b == is_left(key),
{
    match key {
        Key::Left => true,
        Key::Char(c) => c == 'h',
        _ => false,
    }
}

fn right(key: Key) -> (b: bool)
    ensures
        b == is_right(key),
{
    match key {
        Key::Right => true,
        Key::Char(c) => c == 'l',
        _ => false,
    }
}

fn is_char(key: Key, c: char) -> (b: bool)
    ensures
        b == (key == Key::Char(c)),
{
    match key {
        Key::Char(d) => d == c,
        _ => false,
    }
}

fn single(c: Command) -> (v: Vec<Command>)
    ensures
        v@ == one(c),
{
    let mut v = Vec::new();
    v.push(c);
    assert(v@ =~= one(c));
    v
}

fn pair(a: Command, b: Command) -> (v: Vec<Command>)
    ensures
        v@ == seq![a, b],
{
    let mut v = Vec::new();
    v.push(a);
    v.push(b);
    assert(v@ =~= seq![a, b]);
    v
}

fn nothing() -> (v: Vec<Command>)
    ensures
        v@ == none(),
{
    let v = Vec::new();
    assert(v@ =~= none());
    v
}

fn home_is_active(ctx: KeyContext, panel: Home) -> (b: bool)
    ensures
        b == home_active(ctx, panel),
{
    match ctx.focus {
        Focus::Home(h) => h == panel && ctx.popup.is_none(),
        _ => false,
    }
}

fn devtools_is_active(ctx: KeyContext, panel: DevTools) -> (b: bool)
    ensures
        b == devtools_active(ctx, panel),
{
    match ctx.focus {
        Focus::DevTools(d) => d == panel && ctx.popup.is_none(),
        _ => false,
    }
}

fn popup_is(ctx: KeyContext, popup: PopUp) -> (b: bool)
    ensures
        b == (ctx.popup == Some(popup)),
{
    match ctx.popup {
        Some(p) => p == popup,
        None => false,
    }
}

/// What the tab controller asks for when `key` is pressed.
pub fn select_tab_controller_keys(key: Key, ctx: KeyContext) -> (r: Vec<Command>)
    ensures
        r@ == tab_controller_commands(key, ctx),
{
    if ctx.popup.is_some() {
        return nothing();
    }
    match ctx.focus {
        Focus::Home(_) => {
            if left(key) {
                single(Command::PreviousHomeTab)
            } else if right(key) {
                single(Command::NextHomeTab)
            } else {
                nothing()
            }
        },
        Focus::DevTools(_) => {
            if left(key) {
                single(Command::PreviousDevToolsTab)
            } else if right(key) {
                single(Command::NextDevToolsTab)
            } else if key == Key::Esc {
                single(Command::ExitDevTools)
            } else {
                nothing()
            }
        },
    }
}

/// What the device list asks for when `key` is pressed.
pub fn devices_keys(key: Key, ctx: KeyContext) -> (r: Vec<Command>)
    ensures
        r@ == devices_commands(key, ctx),
{
    if !home_is_active(ctx, Home::Devices) {
        nothing()
    } else if up(key) {
        single(Command::PreviousDevice)
    } else if down(key) {
        single(Command::NextDevice)
    } else if key == Key::Enter {
        single(Command::LaunchEmulator)
    } else {
        nothing()
    }
}

/// What the device popup asks for when `key` is pressed.
pub fn select_device_popup_keys(key: Key, ctx: KeyContext, use_fvm: bool) -> (r: Vec<Command>)
    ensures
        r@ == select_device_popup_commands(key, ctx, use_fvm),
{
    if !popup_is(ctx, PopUp::SelectDevice) {
        nothing()
    } else if up(key) {
        single(Command::PreviousDeviceForRunning)
    } else if down(key) {
        single(Command::NextDeviceForRunning)
    } else if key == Key::Enter {
        pair(Command::HideSelectDevicePopUp, Command::RunNewApp { use_fvm })
    } else if key == Key::Esc {
        single(Command::HideSelectDevicePopUp)
    } else {
        nothing()
    }
}

/// What the launch configuration popup asks for when `key` is pressed.
pub fn select_launch_configuration_popup_keys(key: Key, ctx: KeyContext) -> (r: Vec<Command>)
    ensures
        r@ == select_launch_configuration_popup_commands(key, ctx),
{
    if !popup_is(ctx, PopUp::SelectLaunchConfiguration) {
        nothing()
    } else if up(key) {
        single(Command::PreviousLaunchConfiguration)
    } else if down(key) {
        single(Command::NextLaunchConfiguration)
    } else if key == Key::Enter {
        pair(Command::HideSelectLaunchConfigurationPopup, Command::ShowSelectDevicePopUp)
    } else if key == Key::Esc {
        single(Command::HideSelectLaunchConfigurationPopup)
    } else {
        nothing()
    }
}

/// What the list of running apps asks for when `key` is pressed.
pub fn runners_keys(key: Key, ctx: KeyContext) -> (r: Vec<Command>)
    ensures
        r@ == runners_commands(key, ctx),
{
    if !home_is_active(ctx, Home::Runners) {
        nothing()
    } else if is_char(key, 'r') {
        single(Command::HotReload)
    } else if is_char(key, 'R') {
        single(Command::HotRestart)
    } else if is_char(key, 'd') {
        single(Command::StopApp)
    } else if up(key) {
        single(Command::PreviousSession)
    } else if down(key) {
        single(Command::NextSession)
    } else if key == Key::Enter {
        if ctx.has_session {
            single(Command::EnterDevTools)
        } else if ctx.has_launch_configurations {
            single(Command::ShowSelectLaunchConfigurationPopup)
        } else {
            single(Command::ShowSelectDevicePopUp)
        }
    } else {
        nothing()
    }
}

/// What the log asks for when `key` is pressed.
pub fn logs_keys(key: Key, ctx: KeyContext) -> (r: Vec<Command>)
    ensures
        r@ == logs_commands(key, ctx),
{
    if !devtools_is_active(ctx, DevTools::App) {
        nothing()
    } else if up(key) {
        single(Command::PreviousLog)
    } else if down(key) {
        single(Command::NextLog)
    } else {
        nothing()
    }
}

/// What the list of network requests asks for when `key` is pressed.
pub fn network_keys(key: Key, ctx: KeyContext) -> (r: Vec<Command>)
    ensures
        r@ == network_commands(key, ctx),
{
    if !devtools_is_active(ctx, DevTools::Network) {
        nothing()
    } else if up(key) {
        single(Command::PreviousRequest)
    } else if down(key) {
        single(Command::NextRequest)
    } else if key == Key::Enter {
        single(Command::EnterNetworkRequest)
    } else {
        nothing()
    }
}

/// What the list of frames asks for when `key` is pressed.
pub fn performance_keys(key: Key, ctx: KeyContext) -> (r: Vec<Command>)
    ensures
        r@ == performance_commands(key, ctx),
{
    if !devtools_is_active(ctx, DevTools::Performance) {
        nothing()
    } else if up(key) {
        single(Command::PreviousFrame)
    } else if down(key) {
        single(Command::NextFrame)
    } else {
        nothing()
    }
}

/// What the app panel asks for when `key` is pressed.
pub fn app_keys(key: Key, ctx: KeyContext) -> (r: Vec<Command>)
    ensures
        r@ == app_commands(key, ctx),
{
    let in_devtools = match ctx.focus {
        Focus::DevTools(_) => true,
        Focus::Home(_) => false,
    };
    if !(in_devtools && ctx.popup.is_none()) {
        nothing()
    } else if is_char(key, 'r') {
        single(Command::HotReload)
    } else if is_char(key, 'R') {
        single(Command::HotRestart)
    } else {
        nothing()
    }
}

/// The move in the widget details tree that `key` asks for.
pub fn widget_details_keys(key: Key, ctx: KeyContext) -> (r: Option<TreeMove>)
    ensures
        r == widget_details_move(key, ctx),
{
    if !devtools_is_active(ctx, DevTools::WidgetDetails) {
        None
    } else if key == Key::Esc {
        Some(TreeMove::Exit)
    } else if down(key) {
        Some(TreeMove::Next)
    } else if up(key) {
        Some(TreeMove::Previous)
    } else if key == Key::Tab {
        Some(TreeMove::Toggle)
    } else {
        None
    }
}

/// The move in the inspector's widget tree that `key` asks for.
pub fn inspector_keys(key: Key) -> (r: Option<TreeMove>)
    ensures
        r == inspector_move(key),
{
    if down(key) {
        Some(TreeMove::Next)
    } else if up(key) {
        Some(TreeMove::Previous)
    } else if key == Key::Enter {
        Some(TreeMove::Toggle)
    } else {
        None
    }
}

/// The line of `pubspec.yaml` shown after `key`. Moving down needs a
/// non-empty file.
pub fn pubspec_keys(key: Key, ctx: KeyContext, position: usize, line_count: usize) -> (r: usize)
    requires
        home_active(ctx, Home::Project) && is_down(key) ==> line_count > 0,
    ensures
        r == pubspec_scroll(key, ctx, position as int, line_count as int),
{
    if !home_is_active(ctx, Home::Project) {
        position
    } else if up(key) {
        if position > 0 {
            position - 1
        } else {
            0
        }
    } else if down(key) {
        if position < line_count - 1 {
            position + 1
        } else {
            line_count - 1
        }
    } else {
        position
    }
}

/// What the whole application does with `key`.
pub fn global_keys(key: Key) -> (r: Option<TuiAction>)
    ensures
        r == global_key_action(key),
{
    if is_char(key, 'q') {
        Some(TuiAction::Quit)
    } else if is_char(key, 'z') {
        Some(TuiAction::Suspend)
    } else {
        None
    }
}

/// While a popup is shown, no panel under it reacts to keys.
pub proof fn lemma_popups_are_modal(key: Key, ctx: KeyContext, position: int, line_count: int)
    requires
        ctx.popup is Some,
    ensures
        tab_controller_commands(key, ctx) == none(),
        devices_commands(key, ctx) == none(),
        runners_commands(key, ctx) == none(),
        logs_commands(key, ctx) == none(),
        network_commands(key, ctx) == none(),
        performance_commands(key, ctx) == none(),
        app_commands(key, ctx) == none(),
        widget_details_move(key, ctx) is None,
        pubspec_scroll(key, ctx, position, line_count) == position,
{
}

/// Each popup reacts to keys only while it is shown, so at most one of them
/// does.
pub proof fn lemma_only_the_shown_popup_reacts(key: Key, ctx: KeyContext, use_fvm: bool)
    ensures
        ctx.popup != Some(PopUp::SelectDevice) ==> select_device_popup_commands(key, ctx, use_fvm)
            == none(),
        ctx.popup != Some(PopUp::SelectLaunchConfiguration)
            ==> select_launch_configuration_popup_commands(key, ctx) == none(),
        select_device_popup_commands(key, ctx, use_fvm) == none()
            || select_launch_configuration_popup_commands(key, ctx) == none(),
{
}

/// The pubspec view never scrolls outside the file: from a line of a
/// non-empty file, any key leads to a line of that file.
pub proof fn lemma_pubspec_scroll_in_bounds(key: Key, ctx: KeyContext, position: int, line_count: int)
    requires
        0 <= position < line_count,
    ensures
        0 <= pubspec_scroll(key, ctx, position, line_count) < line_count,
{
}


/// In each list panel that has the focus, with no popup shown, up and `k`
/// move the selection back and down and `j` move it on, each by exactly one
/// command; enter opens the selected request or launches the selected
/// emulator.
pub proof fn lemma_lists_move_both_ways(ctx: KeyContext)
    ensures
        devtools_active(ctx, DevTools::Network) ==> network_commands(Key::Up, ctx) == seq![
            Command::PreviousRequest,
        ] && network_commands(Key::Char('k'), ctx) == seq![Command::PreviousRequest]
            && network_commands(Key::Down, ctx) == seq![Command::NextRequest] && network_commands(
            Key::Char('j'),
            ctx,
        ) == seq![Command::NextRequest] && network_commands(Key::Enter, ctx) == seq![
            Command::EnterNetworkRequest,
        ],
        home_active(ctx, Home::Devices) ==> devices_commands(Key::Up, ctx) == seq![
            Command::PreviousDevice,
        ] && devices_commands(Key::Char('k'), ctx) == seq![Command::PreviousDevice]
            && devices_commands(Key::Down, ctx) == seq![Command::NextDevice] && devices_commands(
            Key::Char('j'),
            ctx,
        ) == seq![Command::NextDevice] && devices_commands(Key::Enter, ctx) == seq![
            Command::LaunchEmulator,
        ],
        devtools_active(ctx, DevTools::App) ==> logs_commands(Key::Up, ctx) == seq![
            Command::PreviousLog,
        ] && logs_commands(Key::Char('k'), ctx) == seq![Command::PreviousLog] && logs_commands(
            Key::Down,
            ctx,
        ) == seq![Command::NextLog] && logs_commands(Key::Char('j'), ctx) == seq![
            Command::NextLog,
        ],
        devtools_active(ctx, DevTools::Performance) ==> performance_commands(Key::Up, ctx)
            == seq![Command::PreviousFrame] && performance_commands(Key::Char('k'), ctx) == seq![
            Command::PreviousFrame,
        ] && performance_commands(Key::Down, ctx) == seq![Command::NextFrame]
            && performance_commands(Key::Char('j'), ctx) == seq![Command::NextFrame],
        home_active(ctx, Home::Runners) ==> runners_commands(Key::Up, ctx) == seq![
            Command::PreviousSession,
        ] && runners_commands(Key::Char('k'), ctx) == seq![Command::PreviousSession]
            && runners_commands(Key::Down, ctx) == seq![Command::NextSession] && runners_commands(
            Key::Char('j'),
            ctx,
        ) == seq![Command::NextSession] && runners_commands(Key::Char('r'), ctx) == seq![
            Command::HotReload,
        ] && runners_commands(Key::Char('R'), ctx) == seq![Command::HotRestart]
            && runners_commands(Key::Char('d'), ctx) == seq![Command::StopApp],
        ctx.popup is Some ==> network_commands(Key::Up, ctx).len() == 0,
{
}


/// Left and right move between the tabs of whichever screen has the focus,
/// and escape leaves the developer tools, when no popup is shown; the device
/// popup closes and runs the app on enter, and only closes on escape.
pub proof fn lemma_tabs_and_popups(ctx: KeyContext, use_fvm: bool)
    ensures
        ctx.popup is None && ctx.focus is Home ==> tab_controller_commands(Key::Left, ctx) == seq![
            Command::PreviousHomeTab,
        ] && tab_controller_commands(Key::Char('l'), ctx) == seq![Command::NextHomeTab]
            && tab_controller_commands(Key::Esc, ctx).len() == 0,
        ctx.popup is None && ctx.focus is DevTools ==> tab_controller_commands(Key::Char('h'), ctx)
            == seq![Command::PreviousDevToolsTab] && tab_controller_commands(Key::Right, ctx)
            == seq![Command::NextDevToolsTab] && tab_controller_commands(Key::Esc, ctx) == seq![
            Command::ExitDevTools,
        ],
        ctx.popup == Some(PopUp::SelectDevice) ==> select_device_popup_commands(
            Key::Enter,
            ctx,
            use_fvm,
        ) == seq![Command::HideSelectDevicePopUp, Command::RunNewApp { use_fvm }]
            && select_device_popup_commands(Key::Esc, ctx, use_fvm) == seq![
            Command::HideSelectDevicePopUp,
        ] && select_device_popup_commands(Key::Up, ctx, use_fvm) == seq![
            Command::PreviousDeviceForRunning,
        ] && select_device_popup_commands(Key::Char('j'), ctx, use_fvm) == seq![
            Command::NextDeviceForRunning,
        ],
        ctx.popup == Some(PopUp::SelectLaunchConfiguration)
            ==> select_launch_configuration_popup_commands(Key::Enter, ctx) == seq![
            Command::HideSelectLaunchConfigurationPopup,
            Command::ShowSelectDevicePopUp,
        ] && select_launch_configuration_popup_commands(Key::Char('k'), ctx) == seq![
            Command::PreviousLaunchConfiguration,
        ],
        home_active(ctx, Home::Runners) ==> (runners_commands(Key::Enter, ctx) == seq![
            if ctx.has_session {
                Command::EnterDevTools
            } else if ctx.has_launch_configurations {
                Command::ShowSelectLaunchConfigurationPopup
            } else {
                Command::ShowSelectDevicePopUp
            },
        ]),
        global_key_action(Key::Char('q')) == Some(TuiAction::Quit),
        global_key_action(Key::Char('z')) == Some(TuiAction::Suspend),
{
}

} // verus!
