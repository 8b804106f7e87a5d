//! How a running app is shown: its status, its title and its log.
use crate::daemon::device::Device;
use crate::text::{chars_equal, chars_of, decimal, decimal_u128, string_views};
use vstd::prelude::*;

verus! {

/// The state of an app session as its title colour shows it.
#[derive(Debug, Clone, Copy, PartialEq, Eq, Structural)]
pub enum SessionStatus {
    HotReloading,
    HotRestarting,
    Starting,
    Running,
}

/// A hot reload in progress shows first, then a hot restart, then an app
/// that has not started yet.
pub open spec fn status_of(hot_reloading: bool, hot_restarting: bool, started: bool) -> SessionStatus {
    if hot_reloading {
        SessionStatus::HotReloading
    } else if hot_restarting {
        SessionStatus::HotRestarting
    } else if !started {
        SessionStatus::Starting
    } else {
        SessionStatus::Running
    }
}

pub fn session_status(hot_reloading: bool, hot_restarting: bool, started: bool) -> (s: SessionStatus)
    ensures
        s == status_of(hot_reloading, hot_restarting, started),
{
    if hot_reloading {
        SessionStatus::HotReloading
    } else if hot_restarting {
        SessionStatus::HotRestarting
    } else if !started {
        SessionStatus::Starting
    } else {
        SessionStatus::Running
    }
}

/// The name of the first device in `devices` whose id is `id`, or nothing.
pub open spec fn device_name_of(devices: Seq<Device>, id: Seq<char>) -> Seq<char>
    decreases devices.len(),
{
    if devices.len() == 0 {
        Seq::empty()
    } else if devices[0].id@ == id {
        devices[0].name@
    } else {
        device_name_of(devices.drop_first(), id)
    }
}

/// The name of the device with id `id`, or the empty string.
pub fn device_name(devices: &Vec<Device>, id: &String) -> (name: String)
    ensures
        name@ == device_name_of(devices@, id@),
{
    let target = chars_of(id.as_str());
    let mut i: usize = 0;
    assert(devices@.skip(0) =~= devices@);
    while i < devices.len()
        invariant
            target@ == id@,
            i <= devices.len(),
            device_name_of(devices@, id@) == device_name_of(devices@.skip(i as int), id@),
        decreases devices.len() - i,
    {
        proof {
            assert(devices@.skip(i as int).drop_first() =~= devices@.skip(i + 1));
            assert(devices@.skip(i as int)[0] == devices@[i as int]);
        }
        if chars_equal(&chars_of(devices[i].id.as_str()), &target) {
            return devices[i].name.clone();
        }
        i += 1;
    }
    assert(devices@.skip(i as int) =~= Seq::<Device>::empty());
    String::new()
}

/// The title of a session in the list of apps: the name of its device, with
/// a space on each side. A session without a device looks up the empty id.
pub open spec fn runner_label_of(devices: Seq<Device>, device_id: Option<Seq<char>>) -> Seq<char> {
    " "@ + device_name_of(
        devices,
        match device_id {
            Some(d) => d,
            None => Seq::empty(),
        },
    ) + " "@
}

pub fn runner_label(devices: &Vec<Device>, device_id: Option<&String>) -> (s: String)
    ensures
        s@ == runner_label_of(
            devices@,
            match device_id {
                Some(d) => Some(d@),
                None => None,
            },
        ),
{
    let id = match device_id {
        Some(d) => d.clone(),
        None => String::new(),
    };
    let name = device_name(devices, &id);
    String::from_str(" ").concat(name.as_str()).concat(" ")
}

/// The title of the app panel: the device's name with a space on each side,
/// then the flavor in parentheses when there is one.
pub open spec fn app_title_of(devices: Seq<Device>, device_id: Option<Seq<char>>, flavor: Option<Seq<char>>) -> Seq<char> {
    " "@ + (match device_id {
        Some(d) => device_name_of(devices, d),
        None => Seq::empty(),
    }) + " "@ + match flavor {
        Some(f) => "("@ + f + ")"@,
        None => Seq::empty(),
    }
}

pub fn app_title(devices: &Vec<Device>, device_id: Option<&String>, flavor: Option<&String>) -> (s: String)
    ensures
        s@ == app_title_of(
            devices@,
            match device_id {
                Some(d) => Some(d@),
                None => None,
            },
            match flavor {
                Some(f) => Some(f@),
                None => None,
            },
        ),
{
    let name = match device_id {
        Some(d) => device_name(devices, d),
        None => String::new(),
    };
    let mut s = String::from_str(" ").concat(name.as_str()).concat(" ");
    match flavor {
        Some(f) => {
            s.append("(");
            s.append(f.as_str());
            s.append(")");
        },
        None => {},
    }
    s
}

/// A line of an app's log.
#[derive(Debug, Clone, PartialEq, Eq)]
pub enum SessionLog {
    Stdout(String),
    Stderr(String),
    /// A task with a progress report; times are in milliseconds.
    Progress { id: String, message: Option<String>, start_at: u128, end_at: Option<u128> },
}

/// The text of a log line: output as it is; a progress report by its message,
/// followed by its duration once it finished and the log is shown in full.
pub open spec fn log_text_of(log: SessionLog, full: bool) -> Seq<char> {
    match log {
        SessionLog::Stdout(line) => line@,
        SessionLog::Stderr(line) => line@,
        SessionLog::Progress { id, message, start_at, end_at } => {
            let m = match message {
                Some(m) => m@,
                None => Seq::empty(),
            };
            match end_at {
                Some(end) => if full {
                    m + " ("@ + decimal(end - start_at) + "ms)"@
                } else {
                    m
                },
                None => m,
            }
        },
    }
}

/// Whether the log line is wrapped to the width of the panel when the log
/// is shown in full: output always, a progress report once it finished.
pub open spec fn log_wraps(log: SessionLog, full: bool) -> bool {
    full && match log {
        SessionLog::Progress { end_at, .. } => end_at is Some,
        _ => true,
    }
}

pub fn log_text(log: &SessionLog, full: bool) -> (s: String)
    requires
        *log matches SessionLog::Progress { start_at, end_at: Some(end), .. } ==> start_at <= end,
    ensures
        s@ == log_text_of(*log, full),
{
    match log {
        SessionLog::Stdout(line) => line.clone(),
        SessionLog::Stderr(line) => line.clone(),
        SessionLog::Progress { id, message, start_at, end_at } => {
            let m = match message {
                Some(m) => m.clone(),
                None => String::new(),
            };
            match end_at {
                Some(end) => if full {
                    let mut s = m;
                    s.append(" (");
                    s.append(decimal_u128(*end - *start_at).as_str());
                    s.append("ms)");
                    s
                } else {
                    m
                },
                None => m,
            }
        },
    }
}

pub fn log_wrapped(log: &SessionLog, full: bool) -> (b: bool)
    ensures
        b == log_wraps(*log, full),
{
    full && match log {
        SessionLog::Progress { end_at, .. } => end_at.is_some(),
        _ => true,
    }
}

/// What `textwrap::wrap` gives for `text` at width `width`.
pub uninterp spec fn wrapped(text: Seq<char>, width: nat) -> Seq<Seq<char>>;

/// Calls `textwrap::wrap` with the default options. The contract only names
/// the result.
#[verifier::external_body]
fn wrap_text(text: &str, width: usize) -> (lines: Vec<String>)
    ensures
        lines@.map_values(|l: String| l@) == wrapped(text@, width as nat),
{
    textwrap::wrap(text, width).iter().map(|line| line.to_string()).collect()
}

/// The lines that the log panel shows for `text` at width `width`: the
/// same lines on every call.
pub fn wrap_log_text(text: &str, width: usize) -> (lines: Vec<String>)
    ensures
        lines@.map_values(|l: String| l@) == wrapped(text@, width as nat),
{
    wrap_text(text, width)
}

/// The log panel, which keeps the lines it wrapped a text into, by width
/// and text, so as to wrap each text at each width once.
pub struct LogsComponent {
    wrapped_logs: Vec<(usize, String, Vec<String>)>,
}

impl LogsComponent {
    /// Every kept entry holds what `textwrap::wrap` gives for its text and
    /// width.
    pub closed spec fn wf(&self) -> bool {
        forall|k: int|
            0 <= k < self.wrapped_logs@.len() ==> string_views(
                (#[trigger] self.wrapped_logs@[k]).2@,
            ) == wrapped(self.wrapped_logs@[k].1@, self.wrapped_logs@[k].0 as nat)
    }

    /// The lines of `text` at width `width` are kept.
    pub closed spec fn keeps(&self, width: nat, text: Seq<char>) -> bool {
        exists|k: int|
            0 <= k < self.wrapped_logs@.len() && (#[trigger] self.wrapped_logs@[k]).0 == width
                && self.wrapped_logs@[k].1@ == text
    }

    /// The lines kept for `text` at width `width`.
    pub closed spec fn kept_lines(&self, width: nat, text: Seq<char>) -> Seq<Seq<char>> {
        let k = choose|k: int|
            0 <= k < self.wrapped_logs@.len() && (#[trigger] self.wrapped_logs@[k]).0 == width
                && self.wrapped_logs@[k].1@ == text;
        string_views(self.wrapped_logs@[k].2@)
    }

    /// The kept lines of a text are always those that wrapping gives.
    pub proof fn lemma_kept_lines_are_wrapped(&self, width: nat, text: Seq<char>)
        requires
            self.wf(),
            self.keeps(width, text),
        ensures
            self.kept_lines(width, text) == wrapped(text, width),
    {
    }

    /// The panel with nothing wrapped yet.
    pub fn new() -> (c: LogsComponent)
        ensures
            c.wf(),
            forall|w: nat, t: Seq<char>| !c.keeps(w, t),
    {
        LogsComponent { wrapped_logs: Vec::new() }
    }

    /// The lines of `text` at width `width`: what `textwrap::wrap` gives,
    /// on every call; afterwards they are kept, and so is everything that
    /// was kept before.
    pub fn wrap_text(&mut self, text: &str, width: usize) -> (lines: Vec<String>)
        requires
            old(self).wf(),
        ensures
            final(self).wf(),
            string_views(lines@) == wrapped(text@, width as nat),
            final(self).keeps(width as nat, text@),
            final(self).kept_lines(width as nat, text@) == string_views(lines@),
            forall|w: nat, t: Seq<char>| old(self).keeps(w, t) ==> final(self).keeps(w, t),
    {
        let n = self.wrapped_logs.len();
        let key = String::from_str(text);
        let mut k: usize = 0;
        while k < n
            invariant
                n == self.wrapped_logs.len(),
                k <= n,
                self.wf(),
                key@ == text@,
            decreases n - k,
        {
            if self.wrapped_logs[k].0 == width && self.wrapped_logs[k].1 == key {
                let entry = &self.wrapped_logs[k];
                assert(entry == self.wrapped_logs@[k as int]);
                let kept = &entry.2;
                assert(string_views(kept@) == wrapped(text@, width as nat));
                let mut lines: Vec<String> = Vec::new();
                let mut i: usize = 0;
                while i < kept.len()
                    invariant
                        i <= kept.len(),
                        string_views(lines@) == string_views(kept@).take(i as int),
                    decreases kept.len() - i,
                {
                    let ghost before = lines@;
                    lines.push(kept[i].clone());
                    proof {
                        assert(string_views(kept@).take(i + 1) =~= string_views(kept@).take(i as int).push(
                            kept@[i as int]@,
                        ));
                        assert(string_views(lines@) =~= string_views(before).push(kept@[i as int]@));
                    }
                    i += 1;
                }
                assert(string_views(kept@).take(kept.len() as int) =~= string_views(kept@));
                assert(self.wrapped_logs@[k as int].0 == width);
                proof {
                    self.lemma_kept_lines_are_wrapped(width as nat, text@);
                }
                return lines;
            }
            k += 1;
        }
        let lines = wrap_text(text, width);
        let mut copy: Vec<String> = Vec::new();
        let mut i: usize = 0;
        while i < lines.len()
            invariant
                i <= lines.len(),
                string_views(copy@) == string_views(lines@).take(i as int),
            decreases lines.len() - i,
        {
            let ghost before = copy@;
            copy.push(lines[i].clone());
            proof {
                assert(string_views(lines@).take(i + 1) =~= string_views(lines@).take(i as int).push(
                    lines@[i as int]@,
                ));
                assert(string_views(copy@) =~= string_views(before).push(lines@[i as int]@));
            }
            i += 1;
        }
        assert(string_views(lines@).take(lines.len() as int) =~= string_views(lines@));
        let ghost old_entries = self.wrapped_logs@;
        self.wrapped_logs.push((width, String::from_str(text), copy));
        proof {
            assert(self.wrapped_logs@[n as int].0 == width);
            assert forall|w: nat, t: Seq<char>|
                (exists|j: int|
                    0 <= j < old_entries.len() && (#[trigger] old_entries[j]).0 == w
                        && old_entries[j].1@ == t) implies self.keeps(w, t) by {
                let j = choose|j: int|
                    0 <= j < old_entries.len() && (#[trigger] old_entries[j]).0 == w
                        && old_entries[j].1@ == t;
                assert(self.wrapped_logs@[j] == old_entries[j]);
            }
            assert forall|j: int| 0 <= j < self.wrapped_logs@.len() implies string_views(
                (#[trigger] self.wrapped_logs@[j]).2@,
            ) == wrapped(self.wrapped_logs@[j].1@, self.wrapped_logs@[j].0 as nat) by {
                if j < n {
                    assert(self.wrapped_logs@[j] == old_entries[j]);
                }
            }
        }
        proof {
            self.lemma_kept_lines_are_wrapped(width as nat, text@);
        }
        lines
    }
}

/// The lines that a log line takes in the log panel: wrapped to `width` when
/// `log_wraps`, else one line.
pub fn log_lines(log: &SessionLog, full: bool, width: usize) -> (lines: Vec<String>)
    requires
        *log matches SessionLog::Progress { start_at, end_at: Some(end), .. } ==> start_at <= end,
    ensures
        lines@.map_values(|l: String| l@) == (if log_wraps(*log, full) {
            wrapped(log_text_of(*log, full), width as nat)
        } else {
            seq![log_text_of(*log, full)]
        }),
{
    let text = log_text(log, full);
    if log_wrapped(log, full) {
        wrap_text(text.as_str(), width)
    } else {
        let mut lines: Vec<String> = Vec::new();
        lines.push(text);
        assert(lines@.map_values(|l: String| l@) =~= seq![log_text_of(*log, full)]);
        lines
    }
}

/// The width that log lines are wrapped to: the panel without its borders
/// and padding.
pub fn log_width(area_width: u16) -> (w: usize)
    requires
        area_width >= 4,
    ensures
        w == area_width - 4,
{
    area_width as usize - 4
}

/// The version of the Flutter SDK, as `flutter --version --machine` reports it.
#[derive(Debug, Clone, PartialEq, Eq)]
pub struct FlutterSdkVersion {
    pub flutter_version: String,
    pub framework_version: String,
    pub channel: String,
    pub repository_url: String,
    pub framework_revision: String,
    pub framework_commit_date: String,
    pub engine_revision: String,
    pub dart_sdk_version: String,
    pub flutter_root: String,
}

pub open spec fn sdk_rows_of(v: FlutterSdkVersion) -> Seq<(Seq<char>, Seq<char>)> {
    seq![
        ("Flutter Version"@, v.flutter_version@),
        ("Framework Version"@, v.framework_version@),
        ("Channel"@, v.channel@),
        ("Repository URL"@, v.repository_url@),
        ("Framework Revision"@, v.framework_revision@),
        ("Framework Commit Date"@, v.framework_commit_date@),
        ("Engine Revision"@, v.engine_revision@),
        ("Dart SDK Version"@, v.dart_sdk_version@),
        ("Flutter Root"@, v.flutter_root@),
    ]
}

/// The rows of the SDK version table.
pub fn sdk_rows(v: &FlutterSdkVersion) -> (rows: Vec<(String, String)>)
    ensures
        rows@.map_values(|r: (String, String)| (r.0@, r.1@)) == sdk_rows_of(*v),
{
    let mut rows: Vec<(String, String)> = Vec::new();
    rows.push((String::from_str("Flutter Version"), v.flutter_version.clone()));
    rows.push((String::from_str("Framework Version"), v.framework_version.clone()));
    rows.push((String::from_str("Channel"), v.channel.clone()));
    rows.push((String::from_str("Repository URL"), v.repository_url.clone()));
    rows.push((String::from_str("Framework Revision"), v.framework_revision.clone()));
    rows.push((String::from_str("Framework Commit Date"), v.framework_commit_date.clone()));
    rows.push((String::from_str("Engine Revision"), v.engine_revision.clone()));
    rows.push((String::from_str("Dart SDK Version"), v.dart_sdk_version.clone()));
    rows.push((String::from_str("Flutter Root"), v.flutter_root.clone()));
    assert(rows@.map_values(|r: (String, String)| (r.0@, r.1@)) =~= sdk_rows_of(*v));
    rows
}


/// A hot reload in progress shows, whatever else is going on; then a hot
/// restart; then an app that has not started yet; any other app is running.
pub proof fn lemma_status_priority(hot_reloading: bool, hot_restarting: bool, started: bool)
    ensures
        hot_reloading ==> status_of(hot_reloading, hot_restarting, started)
            == SessionStatus::HotReloading,
        !hot_reloading && hot_restarting ==> status_of(hot_reloading, hot_restarting, started)
            == SessionStatus::HotRestarting,
        !hot_reloading && !hot_restarting && !started ==> status_of(
            hot_reloading,
            hot_restarting,
            started,
        ) == SessionStatus::Starting,
        status_of(hot_reloading, hot_restarting, started) == SessionStatus::Running <==> (
        !hot_reloading && !hot_restarting && started),
{
}


/// Output lines show as they are; a finished task shows its message and,
/// in full, how long it took in milliseconds; a running task shows its
/// message only; a task without a message shows the empty text in its place.
pub proof fn lemma_log_texts(line: String, id: String, message: Option<String>, start_at: u128, end_at: u128, full: bool)
    ensures
        log_text_of(SessionLog::Stdout(line), full) == line@,
        log_text_of(SessionLog::Stderr(line), full) == line@,
        log_text_of(SessionLog::Progress { id, message, start_at, end_at: None }, full) == (
        match message {
            Some(m) => m@,
            None => Seq::empty(),
        }),
        log_text_of(SessionLog::Progress { id, message, start_at, end_at: Some(end_at) }, true) == (
        match message {
            Some(m) => m@,
            None => Seq::empty(),
        }) + " ("@ + decimal(end_at - start_at) + "ms)"@,
        log_wraps(SessionLog::Stdout(line), full) == full,
        !log_wraps(SessionLog::Progress { id, message, start_at, end_at: None }, full),
{
}

/// The title of an app names its device between spaces and, when it runs
/// a flavor, the flavor in parentheses after.
pub proof fn lemma_app_title(devices: Seq<Device>, device_id: Seq<char>, flavor: Seq<char>)
    ensures
        app_title_of(devices, Some(device_id), Some(flavor)) == " "@ + device_name_of(
            devices,
            device_id,
        ) + " "@ + "("@ + flavor + ")"@,
        app_title_of(devices, Some(device_id), None) == runner_label_of(devices, Some(device_id)),
        devices.len() > 0 && devices[0].id@ == device_id ==> device_name_of(devices, device_id)
            == devices[0].name@,
        devices.len() == 0 ==> device_name_of(devices, device_id) == Seq::<char>::empty(),
{
    assert(app_title_of(devices, Some(device_id), None) =~= runner_label_of(devices, Some(device_id)));
}

} // verus!
