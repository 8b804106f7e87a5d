//! How messages of the Flutter daemon are framed on its standard streams.
//!
//! Each message is one line holding a JSON object in square brackets:
//! `[{...}]`. Other lines are plain output of the running program.
use crate::daemon::response::FlutterDaemonResponse;
use crate::text::{chars_of, ends_with, has_prefix, has_suffix, starts_with, string_of};
use vstd::prelude::*;

verus! {

/// `s` without the copies of `c` it starts with.
pub open spec fn trim_start_char(s: Seq<char>, c: char) -> Seq<char>
    decreases s.len(),
{
    if s.len() > 0 && s[0] == c {
        trim_start_char(s.drop_first(), c)
    } else {
        s
    }
}

/// `s` without the copies of `c` it ends with.
pub open spec fn trim_end_char(s: Seq<char>, c: char) -> Seq<char>
    decreases s.len(),
{
    if s.len() > 0 && s.last() == c {
        trim_end_char(s.drop_last(), c)
    } else {
        s
    }
}

/// A line is a daemon message when it starts with `[{` and ends with `}]`.
pub open spec fn is_message_line(line: Seq<char>) -> bool {
    starts_with(line, "[{"@) && ends_with(line, "}]"@)
}

/// The JSON text of a daemon message: the line without its brackets.
pub open spec fn payload_of(line: Seq<char>) -> Option<Seq<char>> {
    if is_message_line(line) {
        Some(trim_end_char(trim_start_char(line, '['), ']'))
    } else {
        None
    }
}

/// The line that carries the JSON text `json` as a message.
pub open spec fn message_line(json: Seq<char>) -> Seq<char> {
    "["@ + json + "]"@
}

proof fn lemma_trim_start_char_skip(s: Seq<char>, c: char, n: int)
    requires
        0 <= n <= s.len(),
        forall|j: int| 0 <= j < n ==> #[trigger] s[j] == c,
    ensures
        trim_start_char(s, c) == trim_start_char(s.skip(n), c),
    decreases n,
{
    if n > 0 {
        assert(s.drop_first().skip(n - 1) =~= s.skip(n));
        lemma_trim_start_char_skip(s.drop_first(), c, n - 1);
    } else {
        assert(s.skip(0) =~= s);
    }
}

proof fn lemma_trim_end_char_take(s: Seq<char>, c: char, n: int)
    requires
        0 <= n <= s.len(),
        forall|j: int| n <= j < s.len() ==> #[trigger] s[j] == c,
    ensures
        trim_end_char(s, c) == trim_end_char(s.take(n), c),
    decreases s.len() - n,
{
    if n < s.len() {
        assert(s.drop_last().take(n) =~= s.take(n));
        lemma_trim_end_char_take(s.drop_last(), c, n);
    } else {
        assert(s.take(n) =~= s);
    }
}

/// Whether `line` is a daemon message rather than plain output.
pub fn is_daemon_message(line: &str) -> (b: bool)
    ensures
        b == is_message_line(line@),
{
    let chars = chars_of(line);
    let open = chars_of("[{");
    let close = chars_of("}]");
    has_prefix(&chars, &open) && has_suffix(&chars, &close)
}

/// The JSON text that a daemon message line carries, or `None` when the line
/// is not a message. Leading `[` and trailing `]` are removed.
pub fn message_payload(line: &str) -> (r: Option<String>)
    ensures
        match r {
            Some(json) => payload_of(line@) == Some(json@),
            None => payload_of(line@) is None,
        },
{
    if !is_daemon_message(line) {
        return None;
    }
    let chars = chars_of(line);
    let n = chars.len();
    let mut a: usize = 0;
    while a < n && chars[a] == '['
        invariant
            n == chars.len(),
            a <= n,
            forall|j: int| 0 <= j < a ==> #[trigger] chars@[j] == '[',
        decreases n - a,
    {
        a += 1;
    }
    let mut b: usize = n;
    while b > a && chars[b - 1] == ']'
        invariant
            n == chars.len(),
            a <= b <= n,
            forall|j: int| b <= j < n ==> #[trigger] chars@[j] == ']',
        decreases b,
    {
        b -= 1;
    }
    proof {
        let s = chars@;
        lemma_trim_start_char_skip(s, '[', a as int);
        let t = s.skip(a as int);
        assert(trim_start_char(t, '[') == t) by {
            if t.len() > 0 {
                assert(t[0] == s[a as int]);
            }
        }
        assert forall|j: int| b - a <= j < t.len() implies #[trigger] t[j] == ']' by {
            assert(t[j] == s[a + j]);
        }
        lemma_trim_end_char_take(t, ']', b - a);
        let u = t.take(b - a);
        assert(u =~= s.subrange(a as int, b as int));
        assert(trim_end_char(u, ']') == u) by {
            if u.len() > 0 {
                assert(u.last() == s[b - 1]);
            }
        }
    }
    Some(string_of(&chars, a, b))
}

/// The bytes to write for a request whose JSON text is `json`: the message
/// line followed by a line break.
pub fn frame_request(json: &str) -> (framed: String)
    ensures
        framed@ == message_line(json@) + "\n"@,
{
    let mut framed = String::from_str("[");
    framed.append(json);
    framed.append("]\n");
    proof {
        reveal_strlit("]\n");
        reveal_strlit("]");
        reveal_strlit("\n");
        assert(framed@ =~= message_line(json@) + "\n"@);
    }
    framed
}

/// A request's message line gives back, as its payload, the JSON object it
/// was made from.
pub proof fn lemma_payload_of_message_line(json: Seq<char>)
    requires
        starts_with(json, "{"@),
        ends_with(json, "}"@),
    ensures
        payload_of(message_line(json)) == Some(json),
{
    reveal_strlit("{");
    reveal_strlit("}");
    reveal_strlit("[");
    reveal_strlit("]");
    reveal_strlit("[{");
    reveal_strlit("}]");
    let line = message_line(json);
    assert(json.take(1)[0] == json[0]);
    assert("{"@[0] == '{');
    assert(json[0] == '{');
    assert(json.skip(json.len() - 1)[0] == json.last());
    assert("}"@[0] == '}');
    assert(json.last() == '}');
    assert(line.take(2) =~= "[{"@);
    assert(line.skip(line.len() - 2) =~= "}]"@);
    assert(line.drop_first() =~= json + "]"@);
    assert(trim_start_char(line.drop_first(), '[') == json + "]"@);
    assert((json + "]"@).drop_last() =~= json);
    assert(trim_end_char(json, ']') == json);
}

/// The response, if it answers the request with id `id`.
pub fn response_for<T>(response: FlutterDaemonResponse<T>, id: u32) -> (r: Option<
    FlutterDaemonResponse<T>,
>)
    ensures
        r == (if response.id == id {
            Some(response)
        } else {
            None
        }),
{
    if response.id == id {
        Some(response)
    } else {
        None
    }
}

/// The id of the next request, after `count` requests were sent.
pub fn next_request_id(count: u32) -> (id: u32)
    requires
        count < u32::MAX,
    ensures
        id == count + 1,
{
    count + 1
}


/// A line carries a message exactly when it starts with `[{` and ends with
/// `}]`; its message then starts with `{` and ends with `}`, with the outer
/// brackets gone.
pub proof fn lemma_payload_iff_message(line: Seq<char>)
    ensures
        payload_of(line) is Some <==> (starts_with(line, "[{"@) && ends_with(line, "}]"@)),
{
}

} // verus!
