//! Running an app with `flutter run --machine`: its command line, and the
//! requests that steer the running app.
use crate::daemon::request::{DetachAppParams, FlutterDaemonRequest, RestartAppParams, StopAppParams};
use crate::daemon::event::FlutterDaemonEvent;
use crate::daemon::io::next_request_id;
use crate::text::{chars_of, string_views};
use vstd::prelude::*;

verus! {

/// Why steering a running app failed.
#[derive(Debug, Clone, Copy, PartialEq, Eq)]
pub enum RunError {
    /// The app has not reported its id yet.
    AppIdNotSet,
    /// The app did not confirm that it detached.
    CouldNotDetach,
    /// The app did not confirm that it stopped.
    CouldNotStop,
    /// The answer to a restart held no result.
    CouldNotRestart,
}

/// A program, its arguments and the directory it is started in.
pub struct RunCommand {
    pub program: String,
    pub args: Vec<String>,
    pub directory: String,
}

/// The path `path` taken from the directory `base`, as `Path::join` joins
/// Unix paths: an absolute `path` stands for itself; otherwise it follows
/// `base` after a `/`, unless `base` is empty or already ends with one.
pub open spec fn joined_path(base: Seq<char>, path: Seq<char>) -> Seq<char> {
    if path.len() > 0 && path[0] == '/' {
        path
    } else if base.len() > 0 && base.last() != '/' {
        base + "/"@ + path
    } else {
        base + path
    }
}

/// The directory an app runs in: the project root joined with the
/// configuration's working directory, or with the empty path when it has
/// none.
pub open spec fn run_directory_of(project_root: Seq<char>, cwd: Option<String>) -> Seq<char> {
    joined_path(
        project_root,
        match cwd {
            Some(c) => c@,
            None => Seq::empty(),
        },
    )
}

/// The directory an app with working directory `cwd` runs in.
pub fn run_directory(project_root: &str, cwd: Option<String>) -> (dir: String)
    ensures
        dir@ == run_directory_of(project_root@, cwd),
{
    let ghost cv = cwd;
    let path = match cwd {
        Some(c) => c,
        None => String::new(),
    };
    let p = chars_of(path.as_str());
    let b = chars_of(project_root);
    if p.len() > 0 && p[0] == '/' {
        path
    } else if b.len() > 0 && b[b.len() - 1] != '/' {
        let dir = String::from_str(project_root).concat("/").concat(path.as_str());
        proof {
            reveal_strlit("/");
            assert(dir@ =~= run_directory_of(project_root@, cv));
        }
        dir
    } else {
        let dir = String::from_str(project_root).concat(path.as_str());
        assert(dir@ =~= run_directory_of(project_root@, cv));
        dir
    }
}

pub open spec fn opt_view(o: Option<String>) -> Option<Seq<char>> {
    match o {
        Some(s) => Some(s@),
        None => None,
    }
}

pub open spec fn opt_views(o: Option<Vec<String>>) -> Option<Seq<Seq<char>>> {
    match o {
        Some(a) => Some(string_views(a@)),
        None => None,
    }
}

/// The arguments of `flutter run`: machine mode, then the device, the entry
/// point and the build mode when they are given, then the extra arguments.
pub open spec fn run_arguments(
    device_id: Option<Seq<char>>,
    program: Option<Seq<char>>,
    flutter_mode: Option<Seq<char>>,
    args: Option<Seq<Seq<char>>>,
) -> Seq<Seq<char>> {
    seq!["run"@, "--machine"@] + match device_id {
        Some(d) => seq!["-d"@, d],
        None => Seq::empty(),
    } + match program {
        Some(p) => seq!["-t"@, p],
        None => Seq::empty(),
    } + match flutter_mode {
        Some(m) => seq!["--"@ + m],
        None => Seq::empty(),
    } + match args {
        Some(a) => a,
        None => Seq::empty(),
    }
}

fn push_all(target: &mut Vec<String>, extra: Vec<String>)
    ensures
        string_views(final(target)@) == string_views(old(target)@) + string_views(extra@),
{
    let ghost start = string_views(target@);
    let mut i: usize = 0;
    while i < extra.len()
        invariant
            i <= extra.len(),
            string_views(target@) == start + string_views(extra@.take(i as int)),
        decreases extra.len() - i,
    {
        let ghost before = target@;
        let item = extra[i].clone();
        target.push(item);
        proof {
            assert(extra@.take(i + 1) =~= extra@.take(i as int).push(extra@[i as int]));
            assert(string_views(extra@.take(i + 1)) =~= string_views(extra@.take(i as int)).push(extra@[i as int]@));
            assert(string_views(target@) =~= string_views(before).push(extra@[i as int]@));
        }
        i += 1;
    }
    assert(extra@.take(extra.len() as int) =~= extra@);
}

/// The command that runs an app: `flutter run --machine ...`, or the same
/// through `fvm flutter` when the project uses FVM, started in the project
/// root joined with the configuration's working directory `cwd`.
pub fn flutter_run_command(
    project_root: &str,
    device_id: Option<String>,
    program: Option<String>,
    flutter_mode: Option<String>,
    cwd: Option<String>,
    args: Option<Vec<String>>,
    use_fvm: bool,
) -> (command: RunCommand)
    ensures
        command.directory@ == run_directory_of(project_root@, cwd),
        command.program@ == (if use_fvm {
            "fvm"@
        } else {
            "flutter"@
        }),
        string_views(command.args@) == (if use_fvm {
            seq!["flutter"@]
        } else {
            Seq::empty()
        }) + run_arguments(
            opt_view(device_id),
            opt_view(program),
            opt_view(flutter_mode),
            opt_views(args),
        ),
{
    let ghost device_view = opt_view(device_id);
    let ghost program_view = opt_view(program);
    let ghost mode_view = opt_view(flutter_mode);
    let ghost args_view = opt_views(args);
    let mut arguments: Vec<String> = Vec::new();
    if use_fvm {
        arguments.push(String::from_str("flutter"));
    }
    let ghost prefix = string_views(arguments@);
    arguments.push(String::from_str("run"));
    arguments.push(String::from_str("--machine"));
    proof {
        assert(string_views(arguments@) =~= prefix + seq!["run"@, "--machine"@]);
    }
    let ghost after_machine = string_views(arguments@);
    if let Some(device_id) = device_id {
        arguments.push(String::from_str("-d"));
        arguments.push(device_id);
        proof {
            assert(string_views(arguments@) =~= after_machine + seq!["-d"@, device_view.unwrap()]);
        }
    }
    let ghost after_device = string_views(arguments@);
    if let Some(program) = program {
        arguments.push(String::from_str("-t"));
        arguments.push(program);
        proof {
            assert(string_views(arguments@) =~= after_device + seq!["-t"@, program_view.unwrap()]);
        }
    }
    let ghost after_program = string_views(arguments@);
    if let Some(flutter_mode) = flutter_mode {
        let flag = String::from_str("--").concat(flutter_mode.as_str());
        arguments.push(flag);
        proof {
            assert(string_views(arguments@) =~= after_program + seq!["--"@ + mode_view.unwrap()]);
        }
    }
    let ghost after_mode = string_views(arguments@);
    if let Some(args) = args {
        push_all(&mut arguments, args);
    }
    proof {
        let expected = run_arguments(device_view, program_view, mode_view, args_view);
        assert(string_views(arguments@) =~= prefix + expected);
    }
    let program = if use_fvm {
        String::from_str("fvm")
    } else {
        String::from_str("flutter")
    };
    RunCommand { program, args: arguments, directory: run_directory(project_root, cwd) }
}

pub open spec fn restart_request_of(id: u32, app_id: Option<String>, full_restart: bool) -> Result<
    FlutterDaemonRequest,
    RunError,
> {
    match app_id {
        Some(a) => Ok(
            FlutterDaemonRequest::RestartApp {
                id,
                params: RestartAppParams {
                    app_id: a,
                    full_restart,
                    pause: false,
                    reason: None,
                    debounce: None,
                },
            },
        ),
        None => Err(RunError::AppIdNotSet),
    }
}

pub open spec fn detach_request_of(id: u32, app_id: Option<String>) -> Result<FlutterDaemonRequest, RunError> {
    match app_id {
        Some(a) => Ok(FlutterDaemonRequest::DetachApp { id, params: DetachAppParams { app_id: a } }),
        None => Err(RunError::AppIdNotSet),
    }
}

pub open spec fn stop_request_of(id: u32, app_id: Option<String>) -> Result<FlutterDaemonRequest, RunError> {
    match app_id {
        Some(a) => Ok(FlutterDaemonRequest::StopApp { id, params: StopAppParams { app_id: a } }),
        None => Err(RunError::AppIdNotSet),
    }
}

/// The request that hot reloads (`full_restart` false) or hot restarts the
/// app, once the app has reported its id.
pub fn restart_request(id: u32, app_id: Option<String>, full_restart: bool) -> (r: Result<
    FlutterDaemonRequest,
    RunError,
>)
    ensures
        match app_id {
            Some(a) => r == Ok::<FlutterDaemonRequest, RunError>(
                FlutterDaemonRequest::RestartApp {
                    id,
                    params: RestartAppParams {
                        app_id: a,
                        full_restart,
                        pause: false,
                        reason: None,
                        debounce: None,
                    },
                },
            ),
            None => r == Err::<FlutterDaemonRequest, RunError>(RunError::AppIdNotSet),
        },
        r == restart_request_of(id, app_id, full_restart),
{
    match app_id {
        Some(app_id) => Ok(
            FlutterDaemonRequest::RestartApp {
                id,
                params: RestartAppParams {
                    app_id,
                    full_restart,
                    pause: false,
                    reason: None,
                    debounce: None,
                },
            },
        ),
        None => Err(RunError::AppIdNotSet),
    }
}

/// The request that detaches from the app, once the app has reported its id.
pub fn detach_request(id: u32, app_id: Option<String>) -> (r: Result<
    FlutterDaemonRequest,
    RunError,
>)
    ensures
        match app_id {
            Some(a) => r == Ok::<FlutterDaemonRequest, RunError>(
                FlutterDaemonRequest::DetachApp { id, params: DetachAppParams { app_id: a } },
            ),
            None => r == Err::<FlutterDaemonRequest, RunError>(RunError::AppIdNotSet),
        },
        r == detach_request_of(id, app_id),
{
    match app_id {
        Some(app_id) => Ok(FlutterDaemonRequest::DetachApp { id, params: DetachAppParams { app_id } }),
        None => Err(RunError::AppIdNotSet),
    }
}

/// The request that stops the app, once the app has reported its id.
pub fn stop_request(id: u32, app_id: Option<String>) -> (r: Result<
    FlutterDaemonRequest,
    RunError,
>)
    ensures
        match app_id {
            Some(a) => r == Ok::<FlutterDaemonRequest, RunError>(
                FlutterDaemonRequest::StopApp { id, params: StopAppParams { app_id: a } },
            ),
            None => r == Err::<FlutterDaemonRequest, RunError>(RunError::AppIdNotSet),
        },
        r == stop_request_of(id, app_id),
{
    match app_id {
        Some(app_id) => Ok(FlutterDaemonRequest::StopApp { id, params: StopAppParams { app_id } }),
        None => Err(RunError::AppIdNotSet),
    }
}

/// The outcome of a detach request, from the result it was answered with:
/// only an explicit `true` is success.
pub fn detach_outcome(result: Option<bool>) -> (r: Result<(), RunError>)
    ensures
        r == (if result == Some(true) {
            Ok::<(), RunError>(())
        } else {
            Err::<(), RunError>(RunError::CouldNotDetach)
        }),
{
    match result {
        Some(true) => Ok(()),
        _ => Err(RunError::CouldNotDetach),
    }
}

/// The outcome of a stop request, from the result it was answered with:
/// only an explicit `true` is success.
pub fn stop_outcome(result: Option<bool>) -> (r: Result<(), RunError>)
    ensures
        r == (if result == Some(true) {
            Ok::<(), RunError>(())
        } else {
            Err::<(), RunError>(RunError::CouldNotStop)
        }),
{
    match result {
        Some(true) => Ok(()),
        _ => Err(RunError::CouldNotStop),
    }
}

/// The outcome of a hot reload or restart, from the result it was answered
/// with: the result when there is one.
pub fn restart_outcome<R>(result: Option<R>) -> (r: Result<R, RunError>)
    ensures
        match result {
            Some(v) => r == Ok::<R, RunError>(v),
            None => r == Err::<R, RunError>(RunError::CouldNotRestart),
        },
{
    match result {
        Some(v) => Ok(v),
        None => Err(RunError::CouldNotRestart),
    }
}

/// The id of a running app after the line carrying `event` (or no event)
/// was read: the first `app.start` event gives the id, and later events
/// leave it as it is.
pub open spec fn app_id_after_of(current: Option<String>, event: Option<FlutterDaemonEvent>) -> Option<
    String,
> {
    match current {
        Some(id) => Some(id),
        None => match event {
            Some(FlutterDaemonEvent::AppStart { params }) => Some(params.app_id),
            _ => None,
        },
    }
}

/// The app id once the line carrying `event` was read.
pub fn app_id_after(current: Option<String>, event: Option<&FlutterDaemonEvent>) -> (r: Option<String>)
    ensures
        r == app_id_after_of(
            current,
            match event {
                Some(e) => Some(*e),
                None => None,
            },
        ),
{
    match current {
        Some(id) => Some(id),
        None => match event {
            Some(FlutterDaemonEvent::AppStart { params }) => Some(params.app_id.clone()),
            _ => None,
        },
    }
}

/// Once the app id is known, no later line changes it.
pub proof fn lemma_app_id_is_kept(id: String, event: Option<FlutterDaemonEvent>)
    ensures
        app_id_after_of(Some(id), event) == Some(id),
{
}

/// The message of an error, as the tool reports it.
pub open spec fn error_message_of(e: RunError) -> Seq<char> {
    match e {
        RunError::AppIdNotSet => "App id is not set"@,
        RunError::CouldNotDetach => "Could not detach app"@,
        RunError::CouldNotStop => "Could not stop app"@,
        RunError::CouldNotRestart => "Could not restart app"@,
    }
}

impl RunError {
    pub fn message(&self) -> (s: String)
        ensures
            s@ == error_message_of(*self),
    {
        match self {
            RunError::AppIdNotSet => String::from_str("App id is not set"),
            RunError::CouldNotDetach => String::from_str("Could not detach app"),
            RunError::CouldNotStop => String::from_str("Could not stop app"),
            RunError::CouldNotRestart => String::from_str("Could not restart app"),
        }
    }
}

/// A running app, as the tool keeps it: the command it was started with, the
/// id it reported, and how many requests were sent to it.
pub struct FlutterRun {
    pub command: RunCommand,
    pub app_id: Option<String>,
    pub request_count: u32,
}

impl FlutterRun {
    /// The app about to be started: its command, no id yet, no request sent.
    pub fn new(
        project_root: &str,
        device_id: Option<String>,
        program: Option<String>,
        flutter_mode: Option<String>,
        cwd: Option<String>,
        args: Option<Vec<String>>,
        use_fvm: bool,
    ) -> (r: FlutterRun)
        ensures
            r.app_id is None,
            r.request_count == 0,
            r.command.directory@ == run_directory_of(project_root@, cwd),
            r.command.program@ == (if use_fvm {
                "fvm"@
            } else {
                "flutter"@
            }),
            string_views(r.command.args@) == (if use_fvm {
                seq!["flutter"@]
            } else {
                Seq::empty()
            }) + run_arguments(
                opt_view(device_id),
                opt_view(program),
                opt_view(flutter_mode),
                opt_views(args),
            ),
    {
        let command = flutter_run_command(
            project_root,
            device_id,
            program,
            flutter_mode,
            cwd,
            args,
            use_fvm,
        );
        FlutterRun { command, app_id: None, request_count: 0 }
    }

    /// Reads a line of the app's output that carried `event` (or none): the
    /// first `app.start` event gives the app its id.
    pub fn receive_line(&mut self, event: Option<&FlutterDaemonEvent>)
        ensures
            final(self).app_id == app_id_after_of(
                old(self).app_id,
                match event {
                    Some(e) => Some(*e),
                    None => None,
                },
            ),
            final(self).request_count == old(self).request_count,
            final(self).command == old(self).command,
    {
        let current = self.app_id.take();
        self.app_id = app_id_after(current, event);
    }

    fn request_id(&mut self) -> (id: u32)
        requires
            old(self).request_count < u32::MAX,
        ensures
            id == old(self).request_count + 1,
            final(self).request_count == id,
            final(self).app_id == old(self).app_id,
            final(self).command == old(self).command,
    {
        self.request_count = next_request_id(self.request_count);
        self.request_count
    }

    /// The request that hot reloads or restarts the app. A request id is
    /// used up whether or not the app has reported its id.
    pub fn restart(&mut self, full_restart: bool) -> (r: Result<FlutterDaemonRequest, RunError>)
        requires
            old(self).request_count < u32::MAX,
        ensures
            final(self).request_count == old(self).request_count + 1,
            final(self).app_id == old(self).app_id,
            final(self).command == old(self).command,
            r == restart_request_of(final(self).request_count, old(self).app_id, full_restart),
    {
        let id = self.request_id();
        restart_request(id, self.app_id.clone(), full_restart)
    }

    /// The request that detaches from the app.
    pub fn detach(&mut self) -> (r: Result<FlutterDaemonRequest, RunError>)
        requires
            old(self).request_count < u32::MAX,
        ensures
            final(self).request_count == old(self).request_count + 1,
            final(self).app_id == old(self).app_id,
            final(self).command == old(self).command,
            r == detach_request_of(final(self).request_count, old(self).app_id),
    {
        let id = self.request_id();
        detach_request(id, self.app_id.clone())
    }

    /// The request that stops the app.
    pub fn stop(&mut self) -> (r: Result<FlutterDaemonRequest, RunError>)
        requires
            old(self).request_count < u32::MAX,
        ensures
            final(self).request_count == old(self).request_count + 1,
            final(self).app_id == old(self).app_id,
            final(self).command == old(self).command,
            r == stop_request_of(final(self).request_count, old(self).app_id),
    {
        let id = self.request_id();
        stop_request(id, self.app_id.clone())
    }
}

/// A freshly started app has no id; it gets the id of the first `app.start`
/// line and keeps it whatever lines follow; and while it has none, every
/// request to restart, detach or stop it fails with `AppIdNotSet`.
pub proof fn lemma_app_id_lifecycle(
    first: FlutterDaemonEvent,
    later: Option<FlutterDaemonEvent>,
    id: u32,
    full_restart: bool,
)
    ensures
        first matches FlutterDaemonEvent::AppStart { params } ==> app_id_after_of(
            app_id_after_of(None, Some(first)),
            later,
        ) == Some(params.app_id),
        restart_request_of(id, None, full_restart) == Err::<FlutterDaemonRequest, RunError>(
            RunError::AppIdNotSet,
        ),
        detach_request_of(id, None) == Err::<FlutterDaemonRequest, RunError>(RunError::AppIdNotSet),
        stop_request_of(id, None) == Err::<FlutterDaemonRequest, RunError>(RunError::AppIdNotSet),
{
}


/// The launch configuration's own arguments always end the command line,
/// whatever the device, entry point and build mode: the arguments with them
/// are those without them, followed by them. The line always starts with
/// `run --machine`.
pub proof fn lemma_extra_arguments_end_the_line(
    device_id: Option<Seq<char>>,
    program: Option<Seq<char>>,
    flutter_mode: Option<Seq<char>>,
    extra: Seq<Seq<char>>,
)
    ensures
        run_arguments(device_id, program, flutter_mode, Some(extra)) == run_arguments(
            device_id,
            program,
            flutter_mode,
            None,
        ) + extra,
        run_arguments(device_id, program, flutter_mode, Some(extra)).skip(
            run_arguments(device_id, program, flutter_mode, Some(extra)).len() - extra.len(),
        ) == extra,
        run_arguments(device_id, program, flutter_mode, Some(extra)).take(2) == seq![
            "run"@,
            "--machine"@,
        ],
        run_arguments(device_id, program, flutter_mode, None).len() == 2 + (if device_id is Some {
            2int
        } else {
            0
        }) + (if program is Some {
            2int
        } else {
            0
        }) + (if flutter_mode is Some {
            1int
        } else {
            0
        }),
{
    let base = run_arguments(device_id, program, flutter_mode, None);
    let full = run_arguments(device_id, program, flutter_mode, Some(extra));
    assert(base + Seq::<Seq<char>>::empty() =~= base);
    assert(full =~= base + extra);
    assert(full.skip(full.len() - extra.len()) =~= extra);
    assert(full.take(2) =~= seq!["run"@, "--machine"@]);
}


/// An absolute working directory stands for itself; a relative one follows
/// the project root after a `/`, unless the root already ends with one; no
/// working directory gives the root with a `/`.
pub proof fn lemma_run_directory(project_root: Seq<char>, cwd: Seq<char>)
    ensures
        cwd.len() > 0 && cwd[0] == '/' ==> joined_path(project_root, cwd) == cwd,
        !(cwd.len() > 0 && cwd[0] == '/') && project_root.len() > 0 && project_root.last() != '/'
            ==> joined_path(project_root, cwd) == project_root + "/"@ + cwd,
        !(cwd.len() > 0 && cwd[0] == '/') && project_root.len() > 0 && project_root.last() == '/'
            ==> joined_path(project_root, cwd) == project_root + cwd,
        joined_path(project_root, cwd).len() >= cwd.len(),
{
    reveal_strlit("/");
}

/// Each error has a message of its own.
pub proof fn lemma_error_messages_differ(a: RunError, b: RunError)
    ensures
        a != b ==> error_message_of(a) != error_message_of(b),
{
    reveal_strlit("App id is not set");
    reveal_strlit("Could not detach app");
    reveal_strlit("Could not stop app");
    reveal_strlit("Could not restart app");
    assert("App id is not set"@[0] == 'A');
    assert("Could not detach app"@[0] == 'C');
    assert("Could not stop app"@[0] == 'C');
    assert("Could not restart app"@[0] == 'C');
    assert("Could not detach app"@[10] == 'd');
    assert("Could not stop app"@[10] == 's');
    assert("Could not restart app"@[10] == 'r');
}

} // verus!
