//! The parameters of the calls to the Flutter service extensions, in the
//! order they are added to a call.
use crate::text::{decimal, decimal_u64};
use vstd::prelude::*;

verus! {

/// The JSON value of a parameter.
#[derive(Debug, Clone, PartialEq, Eq)]
pub enum ParamValue {
    Null,
    Bool(bool),
    Text(String),
}

/// A call: the extension's method name and its parameters.
#[derive(Debug, Clone, PartialEq, Eq)]
pub struct ExtensionCall {
    pub method: String,
    pub params: Vec<(String, ParamValue)>,
}

/// A parameter value by its view: `None` for null, a flag, or a text.
pub open spec fn value_view(v: ParamValue) -> (bool, Option<bool>, Option<Seq<char>>) {
    match v {
        ParamValue::Null => (true, None, None),
        ParamValue::Bool(b) => (false, Some(b), None),
        ParamValue::Text(t) => (false, None, Some(t@)),
    }
}

pub open spec fn params_view(params: Seq<(String, ParamValue)>) -> Seq<
    (Seq<char>, (bool, Option<bool>, Option<Seq<char>>)),
> {
    params.map_values(|p: (String, ParamValue)| (p.0@, value_view(p.1)))
}

pub open spec fn text(s: Seq<char>) -> (bool, Option<bool>, Option<Seq<char>>) {
    (false, None, Some(s))
}

pub open spec fn opt_flag(b: Option<bool>) -> (bool, Option<bool>, Option<Seq<char>>) {
    match b {
        Some(x) => (false, Some(x), None),
        None => (true, None, None),
    }
}

pub open spec fn opt_text(s: Option<Seq<char>>) -> (bool, Option<bool>, Option<Seq<char>>) {
    match s {
        Some(x) => (false, None, Some(x)),
        None => (true, None, None),
    }
}

/// The parameters of a switch of the framework: the isolate, and the new
/// state (null to only read it).
pub open spec fn toggle_params_of(isolate_id: Seq<char>, enabled: Option<bool>) -> Seq<
    (Seq<char>, (bool, Option<bool>, Option<Seq<char>>)),
> {
    seq![("isolateId"@, text(isolate_id)), ("enabled"@, opt_flag(enabled))]
}

/// The call of the switch `method` on the isolate `isolate_id`.
pub fn toggle_call(method: &str, isolate_id: &str, enabled: Option<bool>) -> (call: ExtensionCall)
    ensures
        call.method@ == method@,
        params_view(call.params@) == toggle_params_of(isolate_id@, enabled),
{
    let mut params: Vec<(String, ParamValue)> = Vec::new();
    params.push((String::from_str("isolateId"), ParamValue::Text(String::from_str(isolate_id))));
    let value = match enabled {
        Some(b) => ParamValue::Bool(b),
        None => ParamValue::Null,
    };
    params.push((String::from_str("enabled"), value));
    assert(params_view(params@) =~= toggle_params_of(isolate_id@, enabled));
    ExtensionCall { method: String::from_str(method), params }
}

/// The parameters of an inspector call about one object: the isolate, the
/// object (null for none) and the group that holds it.
pub open spec fn object_params_of(isolate_id: Seq<char>, object_id: Option<Seq<char>>, object_group: Seq<char>) -> Seq<
    (Seq<char>, (bool, Option<bool>, Option<Seq<char>>)),
> {
    seq![
        ("isolateId"@, text(isolate_id)),
        ("arg"@, opt_text(object_id)),
        ("objectGroup"@, text(object_group)),
    ]
}

/// The inspector call `method` about the object `object_id`.
pub fn object_call(method: &str, isolate_id: &str, object_id: Option<&str>, object_group: &str) -> (call:
    ExtensionCall)
    ensures
        call.method@ == method@,
        params_view(call.params@) == object_params_of(
            isolate_id@,
            match object_id {
                Some(o) => Some(o@),
                None => None,
            },
            object_group@,
        ),
{
    let mut params: Vec<(String, ParamValue)> = Vec::new();
    params.push((String::from_str("isolateId"), ParamValue::Text(String::from_str(isolate_id))));
    let value = match object_id {
        Some(o) => ParamValue::Text(String::from_str(o)),
        None => ParamValue::Null,
    };
    params.push((String::from_str("arg"), value));
    params.push((String::from_str("objectGroup"), ParamValue::Text(String::from_str(object_group))));
    proof {
        let ov = match object_id {
            Some(o) => Some(o@),
            None => None,
        };
        assert(params_view(params@) =~= object_params_of(isolate_id@, ov, object_group@));
    }
    ExtensionCall { method: String::from_str(method), params }
}

/// The parameters of the calls that set, add or remove the pub root
/// directories: the isolate, then each directory as `arg0`, `arg1`, ...
pub open spec fn directory_params_of(isolate_id: Seq<char>, directories: Seq<Seq<char>>) -> Seq<
    (Seq<char>, (bool, Option<bool>, Option<Seq<char>>)),
> {
    seq![("isolateId"@, text(isolate_id))] + Seq::new(
        directories.len(),
        |i: int| ("arg"@ + decimal(i), text(directories[i])),
    )
}

/// The call `method` that hands the inspector the directories
/// `directories`.
pub fn directories_call(method: &str, isolate_id: &str, directories: &Vec<String>) -> (call: ExtensionCall)
    ensures
        call.method@ == method@,
        params_view(call.params@) == directory_params_of(
            isolate_id@,
            directories@.map_values(|d: String| d@),
        ),
{
    let ghost dirs = directories@.map_values(|d: String| d@);
    let ghost full = directory_params_of(isolate_id@, dirs);
    let mut params: Vec<(String, ParamValue)> = Vec::new();
    params.push((String::from_str("isolateId"), ParamValue::Text(String::from_str(isolate_id))));
    assert(params_view(params@) =~= full.take(1));
    let mut i: usize = 0;
    while i < directories.len()
        invariant
            i <= directories.len(),
            dirs == directories@.map_values(|d: String| d@),
            full == directory_params_of(isolate_id@, dirs),
            params_view(params@) == full.take(i + 1),
        decreases directories.len() - i,
    {
        let ghost before = params@;
        let key = String::from_str("arg").concat(decimal_u64(i as u64).as_str());
        params.push((key, ParamValue::Text(directories[i].clone())));
        proof {
            reveal_strlit("arg");
            assert(full.take(i + 2) =~= full.take(i + 1).push(full[i + 1]));
            assert(params_view(params@) =~= params_view(before).push(full[i + 1]));
        }
        i += 1;
    }
    assert(full.take(directories.len() + 1) =~= full);
    ExtensionCall { method: String::from_str(method), params }
}

} // verus!
