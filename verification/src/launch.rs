//! Launch configurations of Visual Studio Code (`.vscode/launch.json`).
use crate::text::{join, pair_views};
use vstd::prelude::*;

verus! {

/// Whether a configuration launches a program or attaches to one.
#[derive(Debug, Clone, Copy, PartialEq, Eq, Structural)]
pub enum VSCodeLaunchConfigurationRequest {
    Launch,
    Attach,
}

/// One launch configuration.
#[derive(Debug, Clone, PartialEq, Eq)]
pub struct VSCodeLaunchConfiguration {
    pub name: String,
    pub type_: String,
    pub request: VSCodeLaunchConfigurationRequest,
    pub program: Option<String>,
    pub args: Option<Vec<String>>,
    pub cwd: Option<String>,
    pub flutter_mode: Option<String>,
}

/// The whole `launch.json` file.
#[derive(Debug, Clone, PartialEq, Eq)]
pub struct VSCodeLaunchJson {
    pub version: String,
    pub configurations: Vec<VSCodeLaunchConfiguration>,
}

/// What reading `json` through `json_comments::StripComments` (default
/// settings) gives: the UTF-8 bytes of the text with every byte of its
/// comments replaced by a space, or `None` when the reader reports invalid
/// data (a `/` that starts no comment, or a string or comment left open).
pub uninterp spec fn json_without_comments(json: Seq<char>) -> Option<Seq<u8>>;

/// Reads `json` to its end through `json_comments::StripComments`. The
/// contract only names the result.
#[verifier::external_body]
fn strip_comments(json: &str) -> (r: Option<Vec<u8>>)
    ensures
        match r {
            Some(bytes) => json_without_comments(json@) == Some(bytes@),
            None => json_without_comments(json@) is None,
        },
{
    let mut stripped = Vec::new();
    match std::io::Read::read_to_end(&mut json_comments::StripComments::new(json.as_bytes()), &mut stripped) {
        Ok(_) => Some(stripped),
        Err(_) => None,
    }
}

/// The JSON text of a `launch.json`, which may hold comments, ready to be
/// parsed as plain JSON.
pub fn launch_json_without_comments(json: &str) -> (r: Option<Vec<u8>>)
    ensures
        match r {
            Some(bytes) => json_without_comments(json@) == Some(bytes@),
            None => json_without_comments(json@) is None,
        },
{
    strip_comments(json)
}

/// The title line of a configuration in the list.
pub open spec fn configuration_title_of(c: VSCodeLaunchConfiguration) -> Seq<char> {
    " "@ + c.name@ + " "@
}

pub fn configuration_title(c: &VSCodeLaunchConfiguration) -> (s: String)
    ensures
        s@ == configuration_title_of(*c),
{
    String::from_str(" ").concat(c.name.as_str()).concat(" ")
}

pub open spec fn opt_row(label: Seq<char>, value: Option<Seq<char>>) -> Seq<(Seq<char>, Seq<char>)> {
    match value {
        Some(v) => seq![(label, v)],
        None => Seq::empty(),
    }
}

/// The detail lines of a configuration in the list: its program, build mode,
/// directory and arguments (joined by spaces), each when it is set.
pub open spec fn configuration_details_of(c: VSCodeLaunchConfiguration) -> Seq<(Seq<char>, Seq<char>)> {
    opt_row("  Program   "@, match c.program { Some(p) => Some(p@), None => None })
        + opt_row("  Mode      "@, match c.flutter_mode { Some(m) => Some(m@), None => None })
        + opt_row("  Directory "@, match c.cwd { Some(d) => Some(d@), None => None })
        + opt_row(
        "  Args      "@,
        match c.args {
            Some(a) => Some(crate::text::joined(a@.map_values(|x: String| x@), " "@)),
            None => None,
        },
    )
}

fn push_row(rows: &mut Vec<(String, String)>, label: &str, value: String)
    ensures
        pair_views(final(rows)@) == pair_views(old(rows)@).push((label@, value@)),
{
    let ghost before = rows@;
    rows.push((String::from_str(label), value));
    assert(pair_views(rows@) =~= pair_views(before).push((label@, value@)));
}

pub fn configuration_details(c: &VSCodeLaunchConfiguration) -> (rows: Vec<(String, String)>)
    ensures
        pair_views(rows@) == configuration_details_of(*c),
{
    let mut rows: Vec<(String, String)> = Vec::new();
    let ghost r0 = pair_views(rows@);
    if let Some(program) = &c.program {
        push_row(&mut rows, "  Program   ", program.clone());
    }
    let ghost r1 = pair_views(rows@);
    assert(r1 =~= r0 + opt_row("  Program   "@, match c.program { Some(p) => Some(p@), None => None }));
    if let Some(mode) = &c.flutter_mode {
        push_row(&mut rows, "  Mode      ", mode.clone());
    }
    let ghost r2 = pair_views(rows@);
    assert(r2 =~= r1 + opt_row("  Mode      "@, match c.flutter_mode { Some(m) => Some(m@), None => None }));
    if let Some(cwd) = &c.cwd {
        push_row(&mut rows, "  Directory ", cwd.clone());
    }
    let ghost r3 = pair_views(rows@);
    assert(r3 =~= r2 + opt_row("  Directory "@, match c.cwd { Some(d) => Some(d@), None => None }));
    if let Some(args) = &c.args {
        push_row(&mut rows, "  Args      ", join(args, " "));
    }
    let ghost r4 = pair_views(rows@);
    assert(r4 =~= r3 + opt_row(
        "  Args      "@,
        match c.args {
            Some(a) => Some(crate::text::joined(a@.map_values(|x: String| x@), " "@)),
            None => None,
        },
    ));
    assert(r0 =~= Seq::<(Seq<char>, Seq<char>)>::empty());
    rows
}


/// A configuration shows one detail row for each of its program, build
/// mode, directory and arguments that is set, in that order; the arguments
/// are joined by spaces.
pub proof fn lemma_configuration_details(c: VSCodeLaunchConfiguration)
    ensures
        configuration_details_of(c).len() == (if c.program is Some {
            1int
        } else {
            0
        }) + (if c.flutter_mode is Some {
            1int
        } else {
            0
        }) + (if c.cwd is Some {
            1int
        } else {
            0
        }) + (if c.args is Some {
            1int
        } else {
            0
        }),
        c.program matches Some(p) ==> configuration_details_of(c)[0] == ("  Program   "@, p@),
        c.args matches Some(a) ==> configuration_details_of(c).last() == (
            "  Args      "@,
            crate::text::joined(a@.map_values(|x: String| x@), " "@),
        ),
        configuration_title_of(c) == " "@ + c.name@ + " "@,
{
}

} // verus!
