//! Which panels the screen shows where, and how the main loop reacts to the
//! actions of the terminal.
use crate::keymap::{DevTools, Focus, Home, TuiAction};
use vstd::prelude::*;

verus! {

/// The panels of the interface.
#[derive(Debug, Clone, Copy, PartialEq, Eq, Structural)]
pub enum ComponentId {
    Project,
    Runners,
    Devices,
    Device,
    SelectDevicePopup,
    Frames,
    FrameAnalysis,
    Logs,
    Network,
    NetworkRequest,
    SelectTabController,
    SelectFlavorPopup,
    Pubspec,
    App,
    Performance,
    Inspector,
    WidgetDetails,
    LaunchConfigurations,
    SdkVersion,
}

/// The size of a part of a split layout.
#[derive(Debug, Clone, Copy, PartialEq, Eq, Structural)]
pub enum Constraint {
    Length(u16),
    Fill(u16),
    Percentage(u16),
}

/// The panels drawn on the right of the home screen, in order. With the app
/// list focused: the log of a selected app that has not started yet; the
/// frames, inspector, network and log panels of a started one; the launch
/// configurations and the SDK version when no app is selected.
/// `session_started` is `None` when no app is selected.
pub open spec fn home_main_panels_of(focus: Focus, session_started: Option<bool>) -> Seq<ComponentId> {
    match focus {
        Focus::Home(Home::Runners) => match session_started {
            Some(false) => seq![ComponentId::Logs],
            Some(true) => seq![
                ComponentId::Frames,
                ComponentId::Inspector,
                ComponentId::Network,
                ComponentId::Logs,
            ],
            None => seq![ComponentId::LaunchConfigurations, ComponentId::SdkVersion],
        },
        Focus::Home(Home::Project) => seq![ComponentId::Pubspec],
        Focus::Home(Home::Devices) => seq![ComponentId::Device],
        Focus::DevTools(_) => Seq::empty(),
    }
}

pub fn home_main_panels(focus: Focus, session_started: Option<bool>) -> (panels: Vec<ComponentId>)
    ensures
        panels@ == home_main_panels_of(focus, session_started),
{
    let mut panels: Vec<ComponentId> = Vec::new();
    match focus {
        Focus::Home(Home::Runners) => match session_started {
            Some(false) => {
                panels.push(ComponentId::Logs);
            },
            Some(true) => {
                panels.push(ComponentId::Frames);
                panels.push(ComponentId::Inspector);
                panels.push(ComponentId::Network);
                panels.push(ComponentId::Logs);
            },
            None => {
                panels.push(ComponentId::LaunchConfigurations);
                panels.push(ComponentId::SdkVersion);
            },
        },
        Focus::Home(Home::Project) => {
            panels.push(ComponentId::Pubspec);
        },
        Focus::Home(Home::Devices) => {
            panels.push(ComponentId::Device);
        },
        Focus::DevTools(_) => {},
    }
    assert(panels@ =~= home_main_panels_of(focus, session_started));
    panels
}

/// The panels drawn on the right of the developer tools, in order.
pub open spec fn devtools_main_panels_of(focus: Focus) -> Seq<ComponentId> {
    match focus {
        Focus::DevTools(DevTools::Performance) => seq![ComponentId::Frames, ComponentId::FrameAnalysis],
        Focus::DevTools(DevTools::App) => seq![ComponentId::Logs],
        Focus::DevTools(DevTools::Network) => seq![ComponentId::NetworkRequest],
        Focus::DevTools(DevTools::NetworkRequest) => seq![ComponentId::NetworkRequest],
        Focus::DevTools(DevTools::Inspector) => seq![ComponentId::WidgetDetails],
        Focus::DevTools(DevTools::WidgetDetails) => seq![ComponentId::WidgetDetails],
        Focus::Home(_) => Seq::empty(),
    }
}

pub fn devtools_main_panels(focus: Focus) -> (panels: Vec<ComponentId>)
    ensures
        panels@ == devtools_main_panels_of(focus),
{
    let mut panels: Vec<ComponentId> = Vec::new();
    match focus {
        Focus::DevTools(DevTools::Performance) => {
            panels.push(ComponentId::Frames);
            panels.push(ComponentId::FrameAnalysis);
        },
        Focus::DevTools(DevTools::App) => {
            panels.push(ComponentId::Logs);
        },
        Focus::DevTools(DevTools::Network) | Focus::DevTools(DevTools::NetworkRequest) => {
            panels.push(ComponentId::NetworkRequest);
        },
        Focus::DevTools(DevTools::Inspector) | Focus::DevTools(DevTools::WidgetDetails) => {
            panels.push(ComponentId::WidgetDetails);
        },
        Focus::Home(_) => {},
    }
    assert(panels@ =~= devtools_main_panels_of(focus));
    panels
}

/// The heights of the app, inspector, performance and network panels on the
/// left of the developer tools: the focused one fills the space, the others
/// shrink to their title.
pub open spec fn devtools_sidebar_of(focus: Focus) -> Seq<Constraint> {
    match focus {
        Focus::DevTools(DevTools::Inspector) | Focus::DevTools(DevTools::WidgetDetails) => seq![
            Constraint::Length(3),
            Constraint::Fill(1),
            Constraint::Length(2),
            Constraint::Length(2),
        ],
        Focus::DevTools(DevTools::Performance) => seq![
            Constraint::Length(3),
            Constraint::Length(2),
            Constraint::Fill(1),
            Constraint::Length(2),
        ],
        Focus::DevTools(DevTools::Network) | Focus::DevTools(DevTools::NetworkRequest) => seq![
            Constraint::Length(3),
            Constraint::Length(2),
            Constraint::Length(2),
            Constraint::Fill(1),
        ],
        _ => seq![
            Constraint::Length(3),
            Constraint::Fill(1),
            Constraint::Fill(1),
            Constraint::Fill(1),
        ],
    }
}

fn four(a: Constraint, b: Constraint, c: Constraint, d: Constraint) -> (v: Vec<Constraint>)
    ensures
        v@ == seq![a, b, c, d],
{
    let mut v = Vec::new();
    v.push(a);
    v.push(b);
    v.push(c);
    v.push(d);
    assert(v@ =~= seq![a, b, c, d]);
    v
}

pub fn devtools_sidebar(focus: Focus) -> (constraints: Vec<Constraint>)
    ensures
        constraints@ == devtools_sidebar_of(focus),
{
    match focus {
        Focus::DevTools(DevTools::Inspector) | Focus::DevTools(DevTools::WidgetDetails) => four(
            Constraint::Length(3),
            Constraint::Fill(1),
            Constraint::Length(2),
            Constraint::Length(2),
        ),
        Focus::DevTools(DevTools::Performance) => four(
            Constraint::Length(3),
            Constraint::Length(2),
            Constraint::Fill(1),
            Constraint::Length(2),
        ),
        Focus::DevTools(DevTools::Network) | Focus::DevTools(DevTools::NetworkRequest) => four(
            Constraint::Length(3),
            Constraint::Length(2),
            Constraint::Length(2),
            Constraint::Fill(1),
        ),
        _ => four(
            Constraint::Length(3),
            Constraint::Fill(1),
            Constraint::Fill(1),
            Constraint::Fill(1),
        ),
    }
}

/// Where a panel is drawn: in a row of the sidebar on the left, in the main
/// area on the right, or as a popup centred on the screen, its width and
/// height given in percent of the screen's.
#[derive(Debug, Clone, Copy, PartialEq, Eq, Structural)]
pub enum Placement {
    Sidebar(u16),
    Main,
    Popup { width_percent: u16, height_percent: u16 },
}

/// The two columns of every screen: the sidebar and the main area.
pub open spec fn screen_columns_of() -> Seq<Constraint> {
    seq![Constraint::Percentage(25), Constraint::Percentage(75)]
}

pub fn screen_columns() -> (columns: Vec<Constraint>)
    ensures
        columns@ == screen_columns_of(),
{
    let mut columns = Vec::new();
    columns.push(Constraint::Percentage(25));
    columns.push(Constraint::Percentage(75));
    assert(columns@ =~= screen_columns_of());
    columns
}

/// The heights of the project, app and device panels in the home sidebar.
pub open spec fn home_sidebar_of() -> Seq<Constraint> {
    seq![Constraint::Length(3), Constraint::Percentage(50), Constraint::Percentage(50)]
}

pub fn home_sidebar() -> (rows: Vec<Constraint>)
    ensures
        rows@ == home_sidebar_of(),
{
    let mut rows = Vec::new();
    rows.push(Constraint::Length(3));
    rows.push(Constraint::Percentage(50));
    rows.push(Constraint::Percentage(50));
    assert(rows@ =~= home_sidebar_of());
    rows
}

pub open spec fn in_main(panels: Seq<ComponentId>) -> Seq<(ComponentId, Placement)> {
    panels.map_values(|c: ComponentId| (c, Placement::Main))
}

/// Everything the home screen draws, in the order it is drawn: the three
/// sidebar panels, the main panels, then the two popups, which draw
/// themselves only while they are shown.
pub open spec fn home_screen_of(focus: Focus, session_started: Option<bool>) -> Seq<
    (ComponentId, Placement),
> {
    seq![
        (ComponentId::Project, Placement::Sidebar(0)),
        (ComponentId::Runners, Placement::Sidebar(1)),
        (ComponentId::Devices, Placement::Sidebar(2)),
    ] + in_main(home_main_panels_of(focus, session_started)) + seq![
        (ComponentId::SelectDevicePopup, Placement::Popup { width_percent: 60, height_percent: 20 }),
        (ComponentId::SelectFlavorPopup, Placement::Popup { width_percent: 60, height_percent: 40 }),
    ]
}

fn push_main(screen: &mut Vec<(ComponentId, Placement)>, panels: Vec<ComponentId>)
    ensures
        final(screen)@ == old(screen)@ + in_main(panels@),
{
    let ghost start = screen@;
    let mut i: usize = 0;
    while i < panels.len()
        invariant
            i <= panels.len(),
            screen@ == start + in_main(panels@.take(i as int)),
        decreases panels.len() - i,
    {
        screen.push((panels[i], Placement::Main));
        proof {
            assert(panels@.take(i + 1) =~= panels@.take(i as int).push(panels@[i as int]));
            assert(in_main(panels@.take(i + 1)) =~= in_main(panels@.take(i as int)).push(
                (panels@[i as int], Placement::Main),
            ));
        }
        i += 1;
    }
    assert(panels@.take(panels.len() as int) =~= panels@);
}

pub fn home_screen(focus: Focus, session_started: Option<bool>) -> (screen: Vec<(ComponentId, Placement)>)
    ensures
        screen@ == home_screen_of(focus, session_started),
{
    let mut screen: Vec<(ComponentId, Placement)> = Vec::new();
    screen.push((ComponentId::Project, Placement::Sidebar(0)));
    screen.push((ComponentId::Runners, Placement::Sidebar(1)));
    screen.push((ComponentId::Devices, Placement::Sidebar(2)));
    let ghost side = screen@;
    push_main(&mut screen, home_main_panels(focus, session_started));
    let ghost with_main = screen@;
    screen.push((ComponentId::SelectDevicePopup, Placement::Popup { width_percent: 60, height_percent: 20 }));
    screen.push((ComponentId::SelectFlavorPopup, Placement::Popup { width_percent: 60, height_percent: 40 }));
    assert(screen@ =~= home_screen_of(focus, session_started));
    screen
}

/// Everything the developer tools draw, in the order they are drawn: the
/// app, inspector, performance and network panels in the sidebar, then the
/// main panels.
pub open spec fn devtools_screen_of(focus: Focus) -> Seq<(ComponentId, Placement)> {
    seq![
        (ComponentId::App, Placement::Sidebar(0)),
        (ComponentId::Inspector, Placement::Sidebar(1)),
        (ComponentId::Performance, Placement::Sidebar(2)),
        (ComponentId::Network, Placement::Sidebar(3)),
    ] + in_main(devtools_main_panels_of(focus))
}

pub fn devtools_screen(focus: Focus) -> (screen: Vec<(ComponentId, Placement)>)
    ensures
        screen@ == devtools_screen_of(focus),
{
    let mut screen: Vec<(ComponentId, Placement)> = Vec::new();
    screen.push((ComponentId::App, Placement::Sidebar(0)));
    screen.push((ComponentId::Inspector, Placement::Sidebar(1)));
    screen.push((ComponentId::Performance, Placement::Sidebar(2)));
    screen.push((ComponentId::Network, Placement::Sidebar(3)));
    push_main(&mut screen, devtools_main_panels(focus));
    assert(screen@ =~= devtools_screen_of(focus));
    screen
}

/// The panels of the main area of the screen that has the focus.
pub open spec fn main_panels_of(focus: Focus, session_started: Option<bool>) -> Seq<ComponentId> {
    match focus {
        Focus::Home(_) => home_main_panels_of(focus, session_started),
        Focus::DevTools(_) => devtools_main_panels_of(focus),
    }
}

/// The rows the main area is split into, top to bottom; none when it is not
/// split into rows. A started app's overview and the frame panels of the
/// developer tools take 30 and 70 percent.
pub open spec fn main_rows_of(focus: Focus, session_started: Option<bool>) -> Seq<Constraint> {
    match focus {
        Focus::Home(Home::Runners) => if session_started == Some(true) {
            seq![Constraint::Percentage(30), Constraint::Percentage(70)]
        } else {
            Seq::empty()
        },
        Focus::DevTools(DevTools::Performance) => seq![
            Constraint::Percentage(30),
            Constraint::Percentage(70),
        ],
        _ => Seq::empty(),
    }
}

/// The columns the last row of the main area (or the whole main area, when
/// it has no rows) is split into, left to right; none when it is not split.
/// A started app's inspector, network and log panels share the bottom row
/// equally; with no app selected, the launch configurations and the SDK
/// version share the area equally.
pub open spec fn main_columns_of(focus: Focus, session_started: Option<bool>) -> Seq<Constraint> {
    match focus {
        Focus::Home(Home::Runners) => match session_started {
            Some(true) => seq![Constraint::Fill(1), Constraint::Fill(1), Constraint::Fill(1)],
            None => seq![Constraint::Fill(1), Constraint::Fill(1)],
            Some(false) => Seq::empty(),
        },
        _ => Seq::empty(),
    }
}

/// How many panels the split main area holds: every row but the last holds
/// one; the last row (or the whole area) holds one per column, or one when
/// it has no columns.
pub open spec fn main_cells(rows: Seq<Constraint>, columns: Seq<Constraint>) -> int {
    (if rows.len() > 0 {
        rows.len() - 1
    } else {
        0
    }) + (if columns.len() > 0 {
        columns.len() as int
    } else {
        1
    })
}

pub fn main_rows(focus: Focus, session_started: Option<bool>) -> (rows: Vec<Constraint>)
    ensures
        rows@ == main_rows_of(focus, session_started),
{
    let mut rows = Vec::new();
    let split = match focus {
        Focus::Home(Home::Runners) => match session_started {
            Some(true) => true,
            _ => false,
        },
        Focus::DevTools(DevTools::Performance) => true,
        _ => false,
    };
    if split {
        rows.push(Constraint::Percentage(30));
        rows.push(Constraint::Percentage(70));
    }
    assert(rows@ =~= main_rows_of(focus, session_started));
    rows
}

pub fn main_columns(focus: Focus, session_started: Option<bool>) -> (columns: Vec<Constraint>)
    ensures
        columns@ == main_columns_of(focus, session_started),
{
    let mut columns = Vec::new();
    match focus {
        Focus::Home(Home::Runners) => match session_started {
            Some(true) => {
                columns.push(Constraint::Fill(1));
                columns.push(Constraint::Fill(1));
                columns.push(Constraint::Fill(1));
            },
            None => {
                columns.push(Constraint::Fill(1));
                columns.push(Constraint::Fill(1));
            },
            Some(false) => {},
        },
        _ => {},
    }
    assert(columns@ =~= main_columns_of(focus, session_started));
    columns
}

/// Whenever the main area shows panels, its split has exactly one cell per
/// panel, the panels filling the rows top to bottom and the last row's
/// columns left to right.
pub proof fn lemma_main_split_fits_panels(focus: Focus, session_started: Option<bool>)
    ensures
        main_panels_of(focus, session_started).len() > 0 ==> main_cells(
            main_rows_of(focus, session_started),
            main_columns_of(focus, session_started),
        ) == main_panels_of(focus, session_started).len(),
{
}

/// Whether the main loop should stop, or hand the terminal back to the shell
/// for a while.
#[derive(Debug, Clone, Copy, PartialEq, Eq, Structural)]
pub struct LoopFlags {
    pub should_quit: bool,
    pub should_suspend: bool,
}

pub open spec fn flags_after(flags: LoopFlags, action: TuiAction) -> LoopFlags {
    match action {
        TuiAction::Quit => LoopFlags { should_quit: true, ..flags },
        TuiAction::Suspend => LoopFlags { should_suspend: true, ..flags },
        TuiAction::Resume => LoopFlags { should_suspend: false, ..flags },
        _ => flags,
    }
}

/// The flags after the main loop handled `action`.
pub fn apply_tui_action(flags: LoopFlags, action: TuiAction) -> (r: LoopFlags)
    ensures
        r == flags_after(flags, action),
{
    match action {
        TuiAction::Quit => LoopFlags { should_quit: true, ..flags },
        TuiAction::Suspend => LoopFlags { should_suspend: true, ..flags },
        TuiAction::Resume => LoopFlags { should_suspend: false, ..flags },
        _ => flags,
    }
}

/// Whether the screen is drawn again after the main loop handled `action`:
/// on a render tick and after a resize.
pub open spec fn redraws_after(action: TuiAction) -> bool {
    action is Render || action is Resize
}

pub fn redraws(action: TuiAction) -> (b: bool)
    ensures
        b == redraws_after(action),
{
    match action {
        TuiAction::Render | TuiAction::Resize(_, _) => true,
        _ => false,
    }
}

/// What the main loop does at the end of a turn.
#[derive(Debug, Clone, Copy, PartialEq, Eq, Structural)]
pub enum LoopStep {
    /// Hand the terminal back to the shell, then resume.
    Suspend,
    /// Leave the loop.
    Quit,
    /// Go on with the next turn.
    Continue,
}

/// Suspending comes before quitting.
pub open spec fn step_for(flags: LoopFlags) -> LoopStep {
    if flags.should_suspend {
        LoopStep::Suspend
    } else if flags.should_quit {
        LoopStep::Quit
    } else {
        LoopStep::Continue
    }
}

pub fn loop_step(flags: LoopFlags) -> (step: LoopStep)
    ensures
        step == step_for(flags),
{
    if flags.should_suspend {
        LoopStep::Suspend
    } else if flags.should_quit {
        LoopStep::Quit
    } else {
        LoopStep::Continue
    }
}

/// Resuming undoes suspending, and once asked to quit the loop stays asked;
/// a quit ends the loop unless a suspend is pending, and a suspend always
/// suspends first.
pub proof fn lemma_loop_flags(flags: LoopFlags, action: TuiAction)
    ensures
        flags_after(flags_after(flags, TuiAction::Suspend), TuiAction::Resume) == (LoopFlags {
            should_suspend: false,
            ..flags
        }),
        flags.should_quit ==> flags_after(flags, action).should_quit,
        !flags.should_suspend ==> step_for(flags_after(flags, TuiAction::Quit)) == LoopStep::Quit,
        step_for(flags_after(flags, TuiAction::Suspend)) == LoopStep::Suspend,
{
}

/// The developer tools always show one sidebar of four panels, exactly one of
/// which fills the remaining height when a panel of the tools has the focus.
pub proof fn lemma_devtools_sidebar_shape(d: DevTools)
    ensures
        devtools_sidebar_of(Focus::DevTools(d)).len() == 4,
        devtools_sidebar_of(Focus::DevTools(d))[0] == Constraint::Length(3),
        d != DevTools::App ==> (exists|i: int|
            (0 <= i < 4 && #[trigger] devtools_sidebar_of(Focus::DevTools(d))[i] == Constraint::Fill(1)
                && forall|j: int|
                (0 <= j < 4 && j != i ==> devtools_sidebar_of(Focus::DevTools(d))[j] != Constraint::Fill(1)))),
{
    let s = devtools_sidebar_of(Focus::DevTools(d));
    match d {
        DevTools::Inspector | DevTools::WidgetDetails => {
            assert(s[1] == Constraint::Fill(1));
        },
        DevTools::Performance => {
            assert(s[2] == Constraint::Fill(1));
        },
        DevTools::Network | DevTools::NetworkRequest => {
            assert(s[3] == Constraint::Fill(1));
        },
        DevTools::App => {},
    }
}

} // verus!
