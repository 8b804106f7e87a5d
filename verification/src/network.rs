//! The network panels: the list of HTTP requests of the app and the view of
//! one request with its tabs.
use crate::keymap::{devtools_active, is_down, is_up, Command, DevTools, Focus, Key, KeyContext};
use crate::text::{pair_views, chars_equal, chars_of, decimal, decimal_i64, split_bounds, split_on};
use vstd::prelude::*;

verus! {

/// The tabs of the request view.
#[derive(Debug, Clone, Copy, PartialEq, Eq, Structural)]
pub enum RequestTab {
    Headers,
    Payload,
    Response,
    Timing,
}

pub open spec fn tab_after_next(tab: RequestTab) -> RequestTab {
    match tab {
        RequestTab::Headers => RequestTab::Payload,
        RequestTab::Payload => RequestTab::Response,
        RequestTab::Response => RequestTab::Timing,
        RequestTab::Timing => RequestTab::Headers,
    }
}

pub open spec fn tab_after_previous(tab: RequestTab) -> RequestTab {
    match tab {
        RequestTab::Headers => RequestTab::Timing,
        RequestTab::Payload => RequestTab::Headers,
        RequestTab::Response => RequestTab::Payload,
        RequestTab::Timing => RequestTab::Response,
    }
}

/// The tab to the right, wrapping around.
pub fn next_tab(tab: RequestTab) -> (r: RequestTab)
    ensures
        r == tab_after_next(tab),
{
    match tab {
        RequestTab::Headers => RequestTab::Payload,
        RequestTab::Payload => RequestTab::Response,
        RequestTab::Response => RequestTab::Timing,
        RequestTab::Timing => RequestTab::Headers,
    }
}

/// The tab to the left, wrapping around.
pub fn previous_tab(tab: RequestTab) -> (r: RequestTab)
    ensures
        r == tab_after_previous(tab),
{
    match tab {
        RequestTab::Headers => RequestTab::Timing,
        RequestTab::Payload => RequestTab::Headers,
        RequestTab::Response => RequestTab::Payload,
        RequestTab::Timing => RequestTab::Response,
    }
}

/// The position of the tab in the tab bar.
pub fn tab_index(tab: RequestTab) -> (i: usize)
    ensures
        i < 4,
        i == match tab {
            RequestTab::Headers => 0usize,
            RequestTab::Payload => 1usize,
            RequestTab::Response => 2usize,
            RequestTab::Timing => 3usize,
        },
{
    match tab {
        RequestTab::Headers => 0,
        RequestTab::Payload => 1,
        RequestTab::Response => 2,
        RequestTab::Timing => 3,
    }
}

/// Moving right undoes moving left and the other way round, and four moves
/// the same way come back to the start.
pub proof fn lemma_tabs_cycle(tab: RequestTab)
    ensures
        tab_after_previous(tab_after_next(tab)) == tab,
        tab_after_next(tab_after_previous(tab)) == tab,
        tab_after_next(tab_after_next(tab_after_next(tab_after_next(tab)))) == tab,
{
}

/// The line selected after moving down in a list of `length` lines: the next
/// line if there is one, else the same; the first line when none was selected.
pub open spec fn line_after_down(selected: Option<usize>, length: int) -> int {
    match selected {
        Some(i) => if i + 1 < length {
            i + 1
        } else {
            i as int
        },
        None => 0,
    }
}

/// The line selected after moving up: the previous line, stopping at the
/// first; the first line when none was selected.
pub open spec fn line_after_up(selected: Option<usize>) -> int {
    match selected {
        Some(i) => if i > 0 {
            i - 1
        } else {
            0
        },
        None => 0,
    }
}

pub fn select_down(selected: Option<usize>, length: usize) -> (r: usize)
    requires
        selected matches Some(i) ==> i < usize::MAX,
    ensures
        r == line_after_down(selected, length as int),
{
    match selected {
        Some(i) => if i + 1 < length {
            i + 1
        } else {
            i
        },
        None => 0,
    }
}

pub fn select_up(selected: Option<usize>) -> (r: usize)
    ensures
        r == line_after_up(selected),
{
    match selected {
        Some(i) => i.saturating_sub(1),
        None => 0,
    }
}

/// Moving down from a line of a list stays in the list, and moving up then
/// comes back to the line, unless the line was the last.
pub proof fn lemma_line_moves(i: usize, length: usize)
    requires
        i < length,
    ensures
        0 <= line_after_down(Some(i), length as int) < length,
        i + 1 < length ==> line_after_up(Some((i + 1) as usize)) == i,
{
}

/// How many lines each list of the request view has, when the request (and,
/// for the bodies, its full record) is at hand.
#[derive(Debug, Clone, Copy, PartialEq, Eq, Structural)]
pub struct RequestListSizes {
    pub headers: Option<usize>,
    pub payload: Option<usize>,
    pub response: Option<usize>,
}

/// The request view: its tab and the line selected in each list.
#[derive(Debug, Clone, Copy, PartialEq, Eq, Structural)]
pub struct NetworkRequestView {
    pub selected_tab: RequestTab,
    pub headers_selected: Option<usize>,
    pub payload_selected: Option<usize>,
    pub response_selected: Option<usize>,
}

/// A selection that moving down can always move from.
pub open spec fn movable(selected: Option<usize>) -> bool {
    selected matches Some(i) ==> i < usize::MAX
}

pub open spec fn moved_down(selected: Option<usize>, size: Option<usize>) -> Option<usize> {
    match size {
        Some(n) => Some(line_after_down(selected, n as int) as usize),
        None => selected,
    }
}

/// Moving up needs nothing at hand: it always selects the line above, or
/// the first line when nothing or the first line was selected.
pub open spec fn moved_up(selected: Option<usize>) -> Option<usize> {
    Some(line_after_up(selected) as usize)
}

impl NetworkRequestView {
    pub open spec fn wf(self) -> bool {
        &&& movable(self.headers_selected)
        &&& movable(self.payload_selected)
        &&& movable(self.response_selected)
    }

    /// The view of a request that was just opened.
    pub fn new() -> (v: NetworkRequestView)
        ensures
            v.wf(),
            v == (NetworkRequestView {
                selected_tab: RequestTab::Headers,
                headers_selected: None,
                payload_selected: None,
                response_selected: None,
            }),
    {
        NetworkRequestView {
            selected_tab: RequestTab::Headers,
            headers_selected: None,
            payload_selected: None,
            response_selected: None,
        }
    }

    /// The view after `key`, and what it asks the application for. Only when
    /// the request view has the focus and no popup is shown: right, `l` and
    /// tab move to the next tab, left, `h` and back-tab to the previous one,
    /// escape leaves the view and forgets its tab and selections; then up and
    /// down move the selection of the list of the current tab (not of the
    /// timing tab): down only when the length of that list is at hand, up
    /// always. While a body tab is shown, the full record of the request
    /// is asked for.
    pub open spec fn step(self, key: Key, ctx: KeyContext, sizes: RequestListSizes) -> (
        NetworkRequestView,
        Seq<Command>,
    ) {
        if !devtools_active(ctx, DevTools::NetworkRequest) {
            (self, Seq::empty())
        } else {
            let (v1, c1) = if key == Key::Right || key == Key::Char('l') || key == Key::Tab {
                (NetworkRequestView { selected_tab: tab_after_next(self.selected_tab), ..self }, Seq::<Command>::empty())
            } else if key == Key::Left || key == Key::Char('h') || key == Key::BackTab {
                (NetworkRequestView { selected_tab: tab_after_previous(self.selected_tab), ..self }, Seq::<Command>::empty())
            } else if key == Key::Esc {
                (
                    NetworkRequestView {
                        selected_tab: RequestTab::Headers,
                        headers_selected: None,
                        payload_selected: None,
                        response_selected: None,
                    },
                    seq![Command::ExitNetworkRequest],
                )
            } else {
                (self, Seq::<Command>::empty())
            };
            let v2 = match v1.selected_tab {
                RequestTab::Headers => if is_up(key) {
                    NetworkRequestView { headers_selected: moved_up(v1.headers_selected), ..v1 }
                } else if is_down(key) {
                    NetworkRequestView { headers_selected: moved_down(v1.headers_selected, sizes.headers), ..v1 }
                } else {
                    v1
                },
                RequestTab::Payload => if is_up(key) {
                    NetworkRequestView { payload_selected: moved_up(v1.payload_selected), ..v1 }
                } else if is_down(key) {
                    NetworkRequestView { payload_selected: moved_down(v1.payload_selected, sizes.payload), ..v1 }
                } else {
                    v1
                },
                RequestTab::Response => if is_up(key) {
                    NetworkRequestView { response_selected: moved_up(v1.response_selected), ..v1 }
                } else if is_down(key) {
                    NetworkRequestView { response_selected: moved_down(v1.response_selected, sizes.response), ..v1 }
                } else {
                    v1
                },
                RequestTab::Timing => v1,
            };
            let c2 = if v2.selected_tab == RequestTab::Payload || v2.selected_tab
                == RequestTab::Response {
                c1.push(Command::LoadFullRequest)
            } else {
                c1
            };
            (v2, c2)
        }
    }

    /// Handles `key`; see `step`.
    pub fn handle_key(&mut self, key: Key, ctx: KeyContext, sizes: RequestListSizes) -> (r: Vec<Command>)
        requires
            old(self).wf(),
        ensures
            final(self).wf(),
            (*final(self), r@) == old(self).step(key, ctx, sizes),
    {
        let mut commands: Vec<Command> = Vec::new();
        let active = match ctx.focus {
            Focus::DevTools(DevTools::NetworkRequest) => ctx.popup.is_none(),
            _ => false,
        };
        if !active {
            assert(commands@ =~= Seq::<Command>::empty());
            return commands;
        }
        match key {
            Key::Right | Key::Char('l') | Key::Tab => {
                self.selected_tab = next_tab(self.selected_tab);
            },
            Key::Left | Key::Char('h') | Key::BackTab => {
                self.selected_tab = previous_tab(self.selected_tab);
            },
            Key::Esc => {
                self.selected_tab = RequestTab::Headers;
                self.headers_selected = None;
                self.payload_selected = None;
                self.response_selected = None;
                commands.push(Command::ExitNetworkRequest);
            },
            _ => {},
        }
        let up = match key {
            Key::Up | Key::Char('k') => true,
            _ => false,
        };
        let down = match key {
            Key::Down | Key::Char('j') => true,
            _ => false,
        };
        if up || down {
            match self.selected_tab {
                RequestTab::Headers => {
                    self.headers_selected = if down {
                        match sizes.headers {
                            Some(n) => Some(select_down(self.headers_selected, n)),
                            None => self.headers_selected,
                        }
                    } else {
                        Some(select_up(self.headers_selected))
                    };
                },
                RequestTab::Payload => {
                    self.payload_selected = if down {
                        match sizes.payload {
                            Some(n) => Some(select_down(self.payload_selected, n)),
                            None => self.payload_selected,
                        }
                    } else {
                        Some(select_up(self.payload_selected))
                    };
                },
                RequestTab::Response => {
                    self.response_selected = if down {
                        match sizes.response {
                            Some(n) => Some(select_down(self.response_selected, n)),
                            None => self.response_selected,
                        }
                    } else {
                        Some(select_up(self.response_selected))
                    };
                },
                RequestTab::Timing => {},
            }
        }
        match self.selected_tab {
            RequestTab::Payload | RequestTab::Response => {
                commands.push(Command::LoadFullRequest);
            },
            _ => {},
        }
        proof {
            let (v2, c2) = old(self).step(key, ctx, sizes);
            assert(commands@ =~= c2);
        }
        commands
    }
}

/// How many rows the headers tab has: the general section, the request and
/// response headers, and three section titles.
pub open spec fn header_rows(request_headers: int, response_headers: int) -> int {
    5 + request_headers + response_headers + 3
}

pub fn headers_row_count(request_headers: usize, response_headers: usize) -> (n: usize)
    requires
        header_rows(request_headers as int, response_headers as int) <= usize::MAX,
    ensures
        n == header_rows(request_headers as int, response_headers as int),
{
    5 + request_headers + response_headers + 3
}

/// How many lines a body shows: one more than it has line breaks.
pub fn body_line_count(body: &str) -> (n: usize)
    ensures
        n == split_on(body@, '\n').len(),
{
    let chars = chars_of(body);
    let bounds = split_bounds(&chars, '\n');
    bounds.len()
}

/// How a response status is shown.
#[derive(Debug, Clone, Copy, PartialEq, Eq, Structural)]
pub enum StatusClass {
    /// 2xx
    Success,
    /// 3xx
    Redirection,
    /// 4xx and 5xx
    Failure,
    /// No status, or another one.
    Unknown,
}

pub open spec fn status_class_of(code: Option<i64>) -> StatusClass {
    match code {
        Some(c) => if 200 <= c < 300 {
            StatusClass::Success
        } else if 300 <= c < 400 {
            StatusClass::Redirection
        } else if 400 <= c < 600 {
            StatusClass::Failure
        } else {
            StatusClass::Unknown
        },
        None => StatusClass::Unknown,
    }
}

pub fn status_class(code: Option<i64>) -> (r: StatusClass)
    ensures
        r == status_class_of(code),
{
    match code {
        Some(c) => if 200 <= c && c < 300 {
            StatusClass::Success
        } else if 300 <= c && c < 400 {
            StatusClass::Redirection
        } else if 400 <= c && c < 600 {
            StatusClass::Failure
        } else {
            StatusClass::Unknown
        },
        None => StatusClass::Unknown,
    }
}

/// How a request method is shown.
#[derive(Debug, Clone, Copy, PartialEq, Eq, Structural)]
pub enum MethodClass {
    Get,
    Post,
    Put,
    Delete,
    Other,
}

pub open spec fn method_class_of(method: Seq<char>) -> MethodClass {
    if method == "GET"@ {
        MethodClass::Get
    } else if method == "POST"@ {
        MethodClass::Post
    } else if method == "PUT"@ {
        MethodClass::Put
    } else if method == "DELETE"@ {
        MethodClass::Delete
    } else {
        MethodClass::Other
    }
}

pub fn method_class(method: &str) -> (r: MethodClass)
    ensures
        r == method_class_of(method@),
{
    let m = chars_of(method);
    if chars_equal(&m, &chars_of("GET")) {
        MethodClass::Get
    } else if chars_equal(&m, &chars_of("POST")) {
        MethodClass::Post
    } else if chars_equal(&m, &chars_of("PUT")) {
        MethodClass::Put
    } else if chars_equal(&m, &chars_of("DELETE")) {
        MethodClass::Delete
    } else {
        MethodClass::Other
    }
}

/// The status code as the list shows it: the number, or `-`.
pub open spec fn status_text_of(code: Option<i64>) -> Seq<char> {
    match code {
        Some(c) => decimal(c as int),
        None => "-"@,
    }
}

pub fn status_text(code: Option<i64>) -> (s: String)
    ensures
        s@ == status_text_of(code),
{
    match code {
        Some(c) => decimal_i64(c),
        None => String::from_str("-"),
    }
}

/// The parts of a request's URI that the list reads, as the `url` crate
/// parses them.
#[derive(Debug, Clone, PartialEq, Eq)]
pub struct UrlTail {
    /// The segments of the path, when the URL has a path made of segments
    /// (`None` for a URL that cannot be a base).
    pub segments: Option<Vec<String>>,
    /// The query, without its `?`.
    pub query: Option<String>,
}

/// What `url::Url::parse` gives for `uri`, reduced to the segments of its
/// path and its query; `None` when the URI does not parse.
pub uninterp spec fn url_tail(uri: Seq<char>) -> Option<(Option<Seq<Seq<char>>>, Option<Seq<char>>)>;

pub open spec fn tail_view(t: UrlTail) -> (Option<Seq<Seq<char>>>, Option<Seq<char>>) {
    (
        match t.segments {
            Some(v) => Some(v@.map_values(|s: String| s@)),
            None => None,
        },
        match t.query {
            Some(q) => Some(q@),
            None => None,
        },
    )
}

/// Parses `uri` with `url::Url::parse` and keeps the segments of its path
/// (`Url::path_segments`) and its query (`Url::query`). The contract only
/// names the result.
#[verifier::external_body]
fn parse_url_tail(uri: &str) -> (r: Option<UrlTail>)
    ensures
        match r {
            Some(t) => url_tail(uri@) == Some(tail_view(t)),
            None => url_tail(uri@) is None,
        },
{
    match url::Url::parse(uri) {
        Ok(url) => Some(
            UrlTail {
                segments: url.path_segments().map(|segments| segments.map(|s| s.to_string()).collect()),
                query: url.query().map(|q| q.to_string()),
            },
        ),
        Err(_) => None,
    }
}

/// The label of a request in the list: the last segment of its path (`-`
/// when the path has none) and its query (`?` included), or `-` when the URI
/// has no path made of segments.
pub open spec fn path_label_of(tail: Option<(Option<Seq<Seq<char>>>, Option<Seq<char>>)>) -> Seq<char> {
    match tail {
        Some((Some(segments), query)) => (if segments.len() > 0 {
            segments.last()
        } else {
            "-"@
        }) + (match query {
            Some(q) => "?"@ + q,
            None => Seq::empty(),
        }),
        _ => "-"@,
    }
}

/// The label of a request whose URI parsed into `tail`.
pub fn path_label(tail: Option<UrlTail>) -> (s: String)
    ensures
        s@ == path_label_of(match tail {
            Some(t) => Some(tail_view(t)),
            None => None,
        }),
{
    match tail {
        Some(t) => {
            let ghost tv = tail_view(t);
            match t.segments {
                Some(segments) => {
                    let n = segments.len();
                    let mut s = if n > 0 {
                        segments[n - 1].clone()
                    } else {
                        String::from_str("-")
                    };
                    let ghost first = s@;
                    assert(first == (if tv.0.unwrap().len() > 0 {
                        tv.0.unwrap().last()
                    } else {
                        "-"@
                    }));
                    match t.query {
                        Some(q) => {
                            s.append("?");
                            s.append(q.as_str());
                            proof {
                                reveal_strlit("?");
                                assert(s@ =~= path_label_of(Some(tv)));
                            }
                        },
                        None => {
                            assert(s@ =~= path_label_of(Some(tv)));
                        },
                    }
                    s
                },
                None => String::from_str("-"),
            }
        },
        None => String::from_str("-"),
    }
}

/// The label of the request with URI `uri`.
pub fn request_path_label(uri: &str) -> (s: String)
    ensures
        s@ == path_label_of(url_tail(uri@)),
{
    let tail = parse_url_tail(uri);
    path_label(tail)
}

/// How long a request took, in microseconds: from its start to its last
/// event, or nothing when it has no events yet.
pub open spec fn duration_micros(start_time: i64, last_event: Option<i64>) -> int {
    match last_event {
        Some(t) => if t - start_time >= 0 {
            t - start_time
        } else {
            start_time - t
        },
        None => 0,
    }
}

pub fn request_duration_micros(start_time: i64, last_event: Option<i64>) -> (d: u64)
    requires
        last_event matches Some(t) ==> i64::MIN <= t - start_time <= i64::MAX,
    ensures
        d == duration_micros(start_time, last_event),
{
    match last_event {
        Some(t) => {
            let d = t - start_time;
            if d >= 0 {
                d as u64
            } else if d == i64::MIN {
                0x8000_0000_0000_0000u64
            } else {
                (-d) as u64
            }
        },
        None => 0,
    }
}

/// How a header value is shown: a list of one value shows that value, any
/// other value its JSON text.
#[derive(Debug, Clone, PartialEq, Eq)]
pub enum HeaderValue {
    /// A JSON array: its own text and the texts of its items.
    List { json: String, items: Vec<String> },
    /// Any other JSON value, by its text.
    Other { json: String },
}

pub open spec fn header_text_of(v: HeaderValue) -> Seq<char> {
    match v {
        HeaderValue::List { json, items } => if items@.len() == 1 {
            items@[0]@
        } else {
            json@
        },
        HeaderValue::Other { json } => json@,
    }
}

pub fn header_text(v: HeaderValue) -> (s: String)
    ensures
        s@ == header_text_of(v),
{
    match v {
        HeaderValue::List { json, items } => if items.len() == 1 {
            items[0].clone()
        } else {
            json
        },
        HeaderValue::Other { json } => json,
    }
}

pub open spec fn or_dash(v: Option<String>) -> Seq<char> {
    match v {
        Some(s) => s@,
        None => "-"@,
    }
}

/// The general section of the headers tab: the URL, the method, the status
/// code, and the response's connection info and content type as JSON text,
/// each `-` when the response does not say.
pub open spec fn general_rows_of(
    uri: Seq<char>,
    method: Seq<char>,
    status_code: Option<i64>,
    connection_info: Option<String>,
    content_type: Option<String>,
) -> Seq<(Seq<char>, Seq<char>)> {
    seq![
        ("Request URL"@, uri),
        ("Request Method"@, method),
        ("Status Code"@, status_text_of(status_code)),
        ("Connection Info"@, or_dash(connection_info)),
        ("Content Type"@, or_dash(content_type)),
    ]
}

fn or_dash_string(v: Option<String>) -> (s: String)
    ensures
        s@ == or_dash(v),
{
    match v {
        Some(s) => s,
        None => String::from_str("-"),
    }
}

/// The general rows of a request.
pub fn general_rows(
    uri: &str,
    method: &str,
    status_code: Option<i64>,
    connection_info: Option<String>,
    content_type: Option<String>,
) -> (rows: Vec<(String, String)>)
    ensures
        pair_views(rows@) == general_rows_of(uri@, method@, status_code, connection_info, content_type),
{
    let ghost ci = connection_info;
    let ghost ct = content_type;
    let mut rows: Vec<(String, String)> = Vec::new();
    rows.push((String::from_str("Request URL"), String::from_str(uri)));
    rows.push((String::from_str("Request Method"), String::from_str(method)));
    rows.push((String::from_str("Status Code"), status_text(status_code)));
    rows.push((String::from_str("Connection Info"), or_dash_string(connection_info)));
    rows.push((String::from_str("Content Type"), or_dash_string(content_type)));
    assert(pair_views(rows@) =~= general_rows_of(uri@, method@, status_code, ci, ct));
    rows
}

/// A row of the headers table: a section title, or a header and its value.
#[derive(Debug, Clone, PartialEq, Eq)]
pub enum TableRow {
    Title(String),
    Entry(String, String),
}

pub open spec fn row_view(r: TableRow) -> (bool, Seq<char>, Seq<char>) {
    match r {
        TableRow::Title(t) => (true, t@, Seq::empty()),
        TableRow::Entry(k, v) => (false, k@, v@),
    }
}

pub open spec fn table_views(rows: Seq<TableRow>) -> Seq<(bool, Seq<char>, Seq<char>)> {
    rows.map_values(|r: TableRow| row_view(r))
}

/// The entries of a section, each key indented by three spaces.
pub open spec fn entries_of(pairs: Seq<(Seq<char>, Seq<char>)>) -> Seq<(bool, Seq<char>, Seq<char>)> {
    pairs.map_values(|p: (Seq<char>, Seq<char>)| (false, "   "@ + p.0, p.1))
}

/// The section with title `title` and entries `pairs`, left out when it has
/// no entries (unless `always`).
pub open spec fn section_of(title: Seq<char>, pairs: Seq<(Seq<char>, Seq<char>)>, always: bool) -> Seq<
    (bool, Seq<char>, Seq<char>),
> {
    if always || pairs.len() > 0 {
        seq![(true, title, Seq::<char>::empty())] + entries_of(pairs)
    } else {
        Seq::empty()
    }
}

/// The headers table: the general section, then the response headers and
/// the request headers, each section only when it has entries.
pub open spec fn header_table_of(
    general: Seq<(Seq<char>, Seq<char>)>,
    response_headers: Seq<(Seq<char>, Seq<char>)>,
    request_headers: Seq<(Seq<char>, Seq<char>)>,
) -> Seq<(bool, Seq<char>, Seq<char>)> {
    section_of(" General"@, general, true) + section_of(" Response Headers"@, response_headers, false)
        + section_of(" Request Headers"@, request_headers, false)
}

fn push_section(
    table: &mut Vec<TableRow>,
    title: &str,
    pairs: &Vec<(String, String)>,
    always: bool,
)
    ensures
        table_views(final(table)@) == table_views(old(table)@) + section_of(
            title@,
            pair_views(pairs@),
            always,
        ),
{
    let ghost start = table_views(table@);
    if !always && pairs.len() == 0 {
        assert(section_of(title@, pair_views(pairs@), always) =~= Seq::empty());
        assert(table_views(table@) =~= start + Seq::empty());
        return;
    }
    table.push(TableRow::Title(String::from_str(title)));
    let ghost after_title = table_views(table@);
    assert(after_title =~= start + seq![(true, title@, Seq::<char>::empty())]);
    let mut i: usize = 0;
    while i < pairs.len()
        invariant
            i <= pairs.len(),
            table_views(table@) == after_title + entries_of(pair_views(pairs@).take(i as int)),
        decreases pairs.len() - i,
    {
        let ghost before = table@;
        let key = String::from_str("   ").concat(pairs[i].0.as_str());
        table.push(TableRow::Entry(key, pairs[i].1.clone()));
        proof {
            let p = pair_views(pairs@);
            assert(p.take(i + 1) =~= p.take(i as int).push(p[i as int]));
            assert(entries_of(p.take(i + 1)) =~= entries_of(p.take(i as int)).push(
                (false, "   "@ + p[i as int].0, p[i as int].1),
            ));
            assert(table_views(table@) =~= table_views(before).push(row_view(table@.last())));
        }
        i += 1;
    }
    proof {
        assert(pair_views(pairs@).take(pairs.len() as int) =~= pair_views(pairs@));
        assert(table_views(table@) =~= start + section_of(title@, pair_views(pairs@), always));
    }
}

/// The rows of the headers tab.
pub fn header_table(
    general: &Vec<(String, String)>,
    response_headers: &Vec<(String, String)>,
    request_headers: &Vec<(String, String)>,
) -> (table: Vec<TableRow>)
    ensures
        table_views(table@) == header_table_of(
            pair_views(general@),
            pair_views(response_headers@),
            pair_views(request_headers@),
        ),
{
    let mut table: Vec<TableRow> = Vec::new();
    assert(table_views(table@) =~= Seq::empty());
    push_section(&mut table, " General", general, true);
    push_section(&mut table, " Response Headers", response_headers, false);
    push_section(&mut table, " Request Headers", request_headers, false);
    proof {
        assert(table_views(table@) =~= header_table_of(
            pair_views(general@),
            pair_views(response_headers@),
            pair_views(request_headers@),
        ));
    }
    table
}

/// The line that moving down in the headers tab may reach, `header_rows`
/// of the header counts, is never short of the rows the tab shows for the
/// five general rows; it matches them exactly when both the response and the
/// request have headers, and otherwise lets the selection run past the end.
pub proof fn lemma_header_moves_cover_table(
    general: Seq<(Seq<char>, Seq<char>)>,
    response_headers: Seq<(Seq<char>, Seq<char>)>,
    request_headers: Seq<(Seq<char>, Seq<char>)>,
)
    requires
        general.len() == 5,
    ensures
        header_table_of(general, response_headers, request_headers).len() <= header_rows(
            request_headers.len() as int,
            response_headers.len() as int,
        ),
        (header_table_of(general, response_headers, request_headers).len() == header_rows(
            request_headers.len() as int,
            response_headers.len() as int,
        )) <==> (response_headers.len() > 0 && request_headers.len() > 0),
{
    let g = section_of(" General"@, general, true);
    let a = section_of(" Response Headers"@, response_headers, false);
    let b = section_of(" Request Headers"@, request_headers, false);
    assert(g.len() == 1 + general.len());
    assert(a.len() == if response_headers.len() > 0 { 1 + response_headers.len() } else { 0 });
    assert(b.len() == if request_headers.len() > 0 { 1 + request_headers.len() } else { 0 });
}

/// What the request list shows of one request: its method and how it is
/// coloured, the label of its path, its status and how it is coloured, and
/// how long it took in microseconds.
#[derive(Debug, Clone, PartialEq, Eq)]
pub struct RequestRow {
    pub method: String,
    pub method_class: MethodClass,
    pub path: String,
    pub status: String,
    pub status_class: StatusClass,
    pub duration_micros: u64,
}

/// The row of the request with method `method`, URI `uri`, response status
/// `status_code`, start time `start_time` and last event at `last_event`.
pub fn request_row(
    method: &str,
    uri: &str,
    status_code: Option<i64>,
    start_time: i64,
    last_event: Option<i64>,
) -> (row: RequestRow)
    requires
        last_event matches Some(t) ==> i64::MIN <= t - start_time <= i64::MAX,
    ensures
        row.method@ == method@,
        row.method_class == method_class_of(method@),
        row.path@ == path_label_of(url_tail(uri@)),
        row.status@ == status_text_of(status_code),
        row.status_class == status_class_of(status_code),
        row.duration_micros == duration_micros(start_time, last_event),
{
    RequestRow {
        method: String::from_str(method),
        method_class: method_class(method),
        path: request_path_label(uri),
        status: status_text(status_code),
        status_class: status_class(status_code),
        duration_micros: request_duration_micros(start_time, last_event),
    }
}

/// What the request list reads of one request.
#[derive(Debug, Clone, PartialEq, Eq)]
pub struct RequestSummary {
    pub method: String,
    pub uri: String,
    /// The status of its response, when it has one.
    pub status_code: Option<i64>,
    pub start_time: i64,
    /// The time of its last event, when it has events.
    pub last_event: Option<i64>,
}

/// The time from the start to the last event does not overflow.
pub open spec fn span_fits(q: RequestSummary) -> bool {
    q.last_event matches Some(t) ==> i64::MIN <= t - q.start_time <= i64::MAX
}

/// `row` is what the list shows for `q`.
pub open spec fn is_row_of(row: RequestRow, q: RequestSummary) -> bool {
    &&& row.method@ == q.method@
    &&& row.method_class == method_class_of(q.method@)
    &&& row.path@ == path_label_of(url_tail(q.uri@))
    &&& row.status@ == status_text_of(q.status_code)
    &&& row.status_class == status_class_of(q.status_code)
    &&& row.duration_micros == duration_micros(q.start_time, q.last_event)
}

/// The rows of the request list, one per request, in order.
pub fn request_rows(requests: &Vec<RequestSummary>) -> (rows: Vec<RequestRow>)
    requires
        forall|k: int| 0 <= k < requests.len() ==> span_fits(#[trigger] requests@[k]),
    ensures
        rows.len() == requests.len(),
        forall|k: int| 0 <= k < rows.len() ==> is_row_of(#[trigger] rows@[k], requests@[k]),
{
    let mut rows: Vec<RequestRow> = Vec::new();
    let mut i: usize = 0;
    while i < requests.len()
        invariant
            i <= requests.len(),
            rows.len() == i,
            forall|k: int| 0 <= k < requests.len() ==> span_fits(#[trigger] requests@[k]),
            forall|k: int| 0 <= k < rows.len() ==> is_row_of(#[trigger] rows@[k], requests@[k]),
        decreases requests.len() - i,
    {
        let q = &requests[i];
        assert(span_fits(requests@[i as int]));
        let row = request_row(q.method.as_str(), q.uri.as_str(), q.status_code, q.start_time, q.last_event);
        rows.push(row);
        i += 1;
    }
    rows
}

/// The time before the `k`-th event: the start, or the previous event.
pub open spec fn previous_time(start_time: i64, events: Seq<(Seq<char>, i64)>, k: int) -> i64 {
    if k == 0 {
        start_time
    } else {
        events[k - 1].1
    }
}

/// No step between consecutive times, nor the whole span, overflows.
pub open spec fn steps_fit(start_time: i64, events: Seq<(Seq<char>, i64)>, end_time: Option<i64>) -> bool {
    &&& forall|k: int|
        0 <= k < events.len() ==> i64::MIN <= #[trigger] events[k].1 - previous_time(
            start_time,
            events,
            k,
        ) <= i64::MAX
    &&& end_time matches Some(e) ==> i64::MIN <= e - start_time <= i64::MAX
}

/// The timing tab: each event of the request, indented, with the
/// microseconds since the previous event (the first since the start), then
/// the total when the request has ended. A step back in time reads as a huge
/// unsigned number.
pub open spec fn timing_rows_of(start_time: i64, events: Seq<(Seq<char>, i64)>, end_time: Option<i64>) -> Seq<
    (Seq<char>, u64),
> {
    Seq::new(
        events.len(),
        |k: int| ("  "@ + events[k].0, (events[k].1 - previous_time(start_time, events, k)) as u64),
    ) + match end_time {
        Some(e) => seq![("  Total"@, (e - start_time) as u64)],
        None => Seq::empty(),
    }
}

pub open spec fn event_views(events: Seq<(String, i64)>) -> Seq<(Seq<char>, i64)> {
    events.map_values(|e: (String, i64)| (e.0@, e.1))
}

/// The rows of the timing tab.
pub fn timing_rows(start_time: i64, events: &Vec<(String, i64)>, end_time: Option<i64>) -> (rows: Vec<
    (String, u64),
>)
    requires
        steps_fit(start_time, event_views(events@), end_time),
    ensures
        rows@.map_values(|r: (String, u64)| (r.0@, r.1)) == timing_rows_of(
            start_time,
            event_views(events@),
            end_time,
        ),
{
    let ghost ev = event_views(events@);
    let ghost full = timing_rows_of(start_time, ev, end_time);
    let mut rows: Vec<(String, u64)> = Vec::new();
    let mut start = start_time;
    let mut i: usize = 0;
    while i < events.len()
        invariant
            ev == event_views(events@),
            steps_fit(start_time, ev, end_time),
            i <= events.len(),
            start == previous_time(start_time, ev, i as int),
            rows@.map_values(|r: (String, u64)| (r.0@, r.1)) == full.take(i as int),
            full == timing_rows_of(start_time, ev, end_time),
        decreases events.len() - i,
    {
        let ghost before = rows@;
        let t = events[i].1;
        assert(ev[i as int].1 == t);
        assert(i64::MIN <= ev[i as int].1 - previous_time(start_time, ev, i as int) <= i64::MAX);
        let d = t - start;
        let label = String::from_str("  ").concat(events[i].0.as_str());
        rows.push((label, d as u64));
        start = t;
        proof {
            assert(full.take(i + 1) =~= full.take(i as int).push(full[i as int]));
            assert(rows@.map_values(|r: (String, u64)| (r.0@, r.1)) =~= before.map_values(
                |r: (String, u64)| (r.0@, r.1),
            ).push(full[i as int]));
        }
        i += 1;
    }
    if let Some(e) = end_time {
        let ghost before = rows@;
        rows.push((String::from_str("  Total"), (e - start_time) as u64));
        proof {
            assert(rows@.map_values(|r: (String, u64)| (r.0@, r.1)) =~= before.map_values(
                |r: (String, u64)| (r.0@, r.1),
            ).push(("  Total"@, (e - start_time) as u64)));
        }
    }
    proof {
        assert(full.take(events.len() as int) + match end_time {
            Some(e) => seq![("  Total"@, (e - start_time) as u64)],
            None => Seq::<(Seq<char>, u64)>::empty(),
        } =~= full);
    }
    rows
}


/// Every 2xx status is a success, every 3xx a redirection, every 4xx and
/// 5xx a failure, and any other status, or none, is unknown.
pub proof fn lemma_status_classes(code: i64)
    ensures
        200 <= code < 300 <==> status_class_of(Some(code)) == StatusClass::Success,
        300 <= code < 400 <==> status_class_of(Some(code)) == StatusClass::Redirection,
        400 <= code < 600 <==> status_class_of(Some(code)) == StatusClass::Failure,
        (code < 200 || code >= 600) <==> status_class_of(Some(code)) == StatusClass::Unknown,
        status_class_of(None) == StatusClass::Unknown,
{
}

/// How long a request took is the distance between its start and its last
/// event, whichever came first, and nothing without events.
pub proof fn lemma_duration_is_distance(start_time: i64, last_event: i64)
    ensures
        duration_micros(start_time, Some(last_event)) >= 0,
        duration_micros(start_time, Some(last_event)) == duration_micros(last_event, Some(start_time)),
        last_event >= start_time ==> duration_micros(start_time, Some(last_event)) == last_event
            - start_time,
        duration_micros(start_time, None) == 0,
{
}


/// Each of the four common methods has its own class; every other method,
/// the empty one included, is `Other`.
pub proof fn lemma_method_classes(method: Seq<char>)
    ensures
        method_class_of("GET"@) == MethodClass::Get,
        method_class_of("POST"@) == MethodClass::Post,
        method_class_of("PUT"@) == MethodClass::Put,
        method_class_of("DELETE"@) == MethodClass::Delete,
        method != "GET"@ && method != "POST"@ && method != "PUT"@ && method != "DELETE"@
            ==> method_class_of(method) == MethodClass::Other,
        method_class_of(method) == MethodClass::Get ==> method == "GET"@,
{
    reveal_strlit("GET");
    reveal_strlit("POST");
    reveal_strlit("PUT");
    reveal_strlit("DELETE");
    assert("GET"@.len() == 3 && "POST"@.len() == 4 && "PUT"@.len() == 3 && "DELETE"@.len() == 6);
    assert("GET"@[0] == 'G' && "PUT"@[0] == 'P');
    assert("GET"@ != "POST"@);
    assert("GET"@ != "PUT"@ && "POST"@ != "PUT"@);
    assert("GET"@ != "DELETE"@ && "POST"@ != "DELETE"@ && "PUT"@ != "DELETE"@);
}

/// The label of a parsed URI shows its last path segment, followed by `?`
/// and its query when it has one; a URI that does not parse, or whose path
/// has no segments, is labelled `-`.
pub proof fn lemma_path_label_shows_last_segment(
    segments: Seq<Seq<char>>,
    query: Option<Seq<char>>,
)
    ensures
        segments.len() > 0 && query is None ==> path_label_of(Some((Some(segments), query)))
            == segments[segments.len() - 1],
        segments.len() > 0 && query is Some ==> path_label_of(Some((Some(segments), query)))
            == segments[segments.len() - 1] + "?"@ + query->0,
        path_label_of(None) == "-"@,
        path_label_of(Some((None, query))) == "-"@,
{
    if segments.len() > 0 {
        if let Some(q) = query {
            assert(path_label_of(Some((Some(segments), query))) =~= segments[segments.len() - 1]
                + "?"@ + q);
        } else {
            assert(path_label_of(Some((Some(segments), query))) =~= segments[segments.len() - 1]);
        }
    }
}

/// The status column shows the code in decimal, or `-` without a response.
pub proof fn lemma_status_text(code: i64)
    ensures
        status_text_of(Some(code)) == decimal(code as int),
        status_text_of(None) == "-"@,
{
}

/// A header whose value is a list of one item shows that item; any other
/// value shows its JSON text.
pub proof fn lemma_header_text_unwraps_single_items(json: String, items: Vec<String>)
    ensures
        items@.len() == 1 ==> header_text_of(HeaderValue::List { json, items }) == items@[0]@,
        items@.len() != 1 ==> header_text_of(HeaderValue::List { json, items }) == json@,
        header_text_of(HeaderValue::Other { json }) == json@,
{
}

/// The timing tab has one row per event, plus a total when the request has
/// ended; the first event's row counts from the start, each later one from
/// the event before it, and the total spans start to end.
pub proof fn lemma_timing_rows(start_time: i64, events: Seq<(Seq<char>, i64)>, end_time: Option<i64>)
    ensures
        timing_rows_of(start_time, events, end_time).len() == events.len() + (if end_time is Some {
            1int
        } else {
            0
        }),
        events.len() > 0 ==> timing_rows_of(start_time, events, end_time)[0] == (
            "  "@ + events[0].0,
            (events[0].1 - start_time) as u64,
        ),
        forall|k: int|
            0 < k < events.len() ==> #[trigger] timing_rows_of(start_time, events, end_time)[k]
                == ("  "@ + events[k].0, (events[k].1 - events[k - 1].1) as u64),
        end_time is Some ==> timing_rows_of(start_time, events, end_time)[events.len() as int] == (
            "  Total"@,
            (end_time->0 - start_time) as u64,
        ),
{
}

} // verus!
