//! Objects that the service extensions of the Flutter framework return.
//!
//! A field that the protocol calls `type` is named `type_` here.
use vstd::prelude::*;

verus! {

#[derive(Debug, Clone, PartialEq)]
pub struct FlutterViewList {
    pub type_: String,
    pub views: Vec<FlutterView>,
}

#[derive(Debug, Clone, PartialEq)]
pub struct FlutterView {
    pub type_: String,
    pub id: String,
    pub isolate: IsolateRefInFlutterExtension,
}

#[derive(Debug, Clone, PartialEq)]
pub struct IsolateRefInFlutterExtension {
    pub type_: String,
    pub id: String,
    pub name: String,
    pub number: i64,
    pub fixed_id: bool,
}

#[derive(Debug, Clone, PartialEq)]
pub struct Togglable {
    pub type_: String,
    pub enabled: bool,
    pub method: String,
}

#[derive(Debug, Clone, PartialEq)]
pub struct Dump {
    pub type_: String,
    pub data: String,
    pub method: String,
}

#[derive(Debug, Clone, PartialEq)]
pub struct Value {
    pub type_: String,
    pub value: String,
    pub method: String,
}

#[derive(Debug, Clone, PartialEq)]
pub struct Response {
    pub type_: String,
    pub method: String,
}

#[derive(Debug, Clone, PartialEq)]
pub struct ResultResponse<R> {
    pub type_: String,
    pub method: String,
    pub result: R,
}

#[derive(Debug, PartialEq)]
pub struct DiagnosticPathNode {
    pub node: DiagnosticNode,
    pub children: Vec<DiagnosticPathNode>,
    pub child_index: Option<i64>,
}

#[derive(Debug, PartialEq)]
pub struct DiagnosticNode {
    pub description: Option<String>,
    pub type_: String,
    pub name: Option<String>,
    pub show_separator: Option<bool>,
    pub level: Option<DiagnosticLevel>,
    pub show_name: Option<bool>,
    pub empty_body_description: Option<String>,
    pub style: Option<DiagnosticsTreeStyle>,
    pub allow_truncate: Option<bool>,
    pub has_children: Option<bool>,
    pub line_prefix: Option<String>,
    pub allow_wrap: Option<bool>,
    pub allow_name_wrap: Option<bool>,
    pub value_id: Option<String>,
    pub summary_tree: Option<bool>,
    pub location_id: Option<i64>,
    pub creation_location: Option<Location>,
    pub created_by_local_project: Option<bool>,
    pub properties: Option<Vec<DiagnosticNode>>,
    pub children: Option<Vec<DiagnosticNode>>,
    pub truncated: Option<bool>,
    pub render_object: Option<Box<DiagnosticNode>>,
    pub parent_render_element: Option<Box<DiagnosticNode>>,
    pub constraints: Option<Constraints>,
    pub is_box: Option<bool>,
    pub size: Option<Size>,
    pub flex_factor: Option<i64>,
    pub flex_fit: Option<FlexFit>,
    pub parent_data: Option<Offset>,
}

#[derive(Debug, Clone, PartialEq)]
pub enum DiagnosticLevel {
    Hidden,
    Fine,
    Debug,
    Info,
    Warning,
    Hint,
    Summary,
    Error,
    Off,
}

#[derive(Debug, Clone, PartialEq)]
pub enum DiagnosticsTreeStyle {
    NoStyle,
    Sparse,
    Offstage,
    Dense,
    Transition,
    Error,
    Whitespace,
    Flat,
    SingleLine,
    ErrorProperty,
    Shallow,
    TruncateChildren,
}

#[derive(Debug, Clone, PartialEq)]
pub enum FlexFit {
    Tight,
    Loose,
}

#[derive(Debug, Clone, PartialEq)]
pub enum MainAxisAlignment {
    Start,
    End,
    Center,
    SpaceBetween,
    SpaceAround,
    SpaceEvenly,
}

#[derive(Debug, Clone, PartialEq)]
pub enum CrossAxisAlignment {
    Start,
    End,
    Center,
    Stretch,
    Baseline,
}

#[derive(Debug, Clone, PartialEq)]
pub struct Location {
    pub file: String,
    pub line: i64,
    pub column: i64,
    pub name: Option<String>,
}

#[derive(Debug, Clone, PartialEq)]
pub struct Constraints {
    pub type_: String,
    pub description: String,
    pub min_width: Option<String>,
    pub max_width: Option<String>,
    pub min_height: Option<String>,
    pub max_height: Option<String>,
}

#[derive(Debug, Clone, PartialEq)]
pub struct Size {
    pub width: String,
    pub height: String,
}

#[derive(Debug, Clone, PartialEq)]
pub struct Offset {
    pub x: String,
    pub y: String,
}

} // verus!
