//! Objects of the Dart VM service protocol, as the service returns them.
//!
//! A field that the protocol calls `type` is named `type_` here; so are
//! `abstract`, `const`, `final` and `static`.
use vstd::prelude::*;

verus! {

#[derive(Debug, Clone, PartialEq, Eq, Structural)]
pub enum StreamId {
    VM,
    Isolate,
    Debug,
    Profiler,
    GC,
    Extension,
    Timeline,
    Logging,
    Service,
    HeapSnapshot,
}

#[derive(Debug, PartialEq)]
pub struct AllocationProfile {
    pub members: Vec<ClassHeapStats>,
    pub memory_usage: MemoryUsage,
    pub date_last_accumulator_reset: Option<u32>,
    pub date_last_service_gc: Option<u32>,
}

#[derive(Debug, PartialEq)]
pub struct BoundField {
    pub decl: FieldRef,
    pub name: StringOrInt,
    pub value: InstanceRefOrSentinel,
}

#[derive(Debug, PartialEq)]
pub struct BoundVariable {
    pub name: String,
    pub value: InstanceRefOrSentinel,
    pub declaration_token_pos: u32,
    pub scope_start_token_pos: u32,
    pub scope_end_token_pos: u32,
}

#[derive(Debug, PartialEq)]
pub struct Breakpoint {
    pub breakpoint_number: u32,
    pub enabled: bool,
    pub resolved: bool,
    pub is_synthetic_async_continuation: Option<bool>,
    pub location: Box<SourceLocationOrUnresolvedSouceLocation>,
}

#[derive(Debug, PartialEq)]
pub struct ClassRef {
    pub type_: String,
    pub id: String,
    pub fixed_id: Option<bool>,
    pub name: String,
    pub location: Option<SourceLocation>,
    pub library: LibraryRef,
    pub type_parameters: Option<Vec<InstanceRef>>,
}

#[derive(Debug, PartialEq)]
pub struct Class {
    pub type_: String,
    pub id: String,
    pub fixed_id: Option<bool>,
    pub class: Option<ClassRef>,
    pub name: String,
    pub location: Option<SourceLocation>,
    pub library: LibraryRef,
    pub type_parameters: Option<Vec<InstanceRef>>,
    pub error: Option<Error>,
    pub abstract_: bool,
    pub const_: bool,
    pub is_sealed: bool,
    pub is_mixin_class: bool,
    pub is_base_class: bool,
    pub is_interface_class: bool,
    pub is_final: bool,
    pub trace_allocations: bool,
    pub super_class: Option<ClassRef>,
    pub super_type: Option<InstanceRef>,
    pub interfaces: Vec<InstanceRef>,
    pub mixin: Option<InstanceRef>,
    pub fields: Vec<FieldRef>,
    pub functions: Vec<FunctionRef>,
    pub subclasses: Vec<ClassRef>,
}

#[derive(Debug, PartialEq)]
pub struct ClassHeapStats {
    pub type_: String,
    pub class: ClassRef,
    pub accumulated_size: u32,
    pub bytes_current: u32,
    pub instances_accumulated: u32,
    pub instances_current: u32,
}

#[derive(Debug, PartialEq)]
pub struct ClassList {
    pub type_: String,
    pub classes: Vec<ClassRef>,
}

#[derive(Debug, PartialEq)]
pub struct CodeRef {
    pub type_: String,
    pub id: String,
    pub fixed_id: Option<bool>,
    pub name: String,
    pub kind: CodeKind,
}

#[derive(Debug, PartialEq)]
pub struct Code {
    pub type_: String,
    pub id: String,
    pub fixed_id: Option<bool>,
    pub class: Option<ClassRef>,
    pub size: Option<u32>,
    pub name: String,
    pub kind: CodeKind,
}

#[derive(Debug, Clone, PartialEq)]
pub enum CodeKind {
    Dart,
    Native,
    Stub,
    Tag,
    Collected,
}

#[derive(Debug, PartialEq)]
pub struct ContextRef {
    pub type_: String,
    pub id: String,
    pub fixed_id: Option<bool>,
    pub length: u32,
}

#[derive(Debug, PartialEq)]
pub struct Context {
    pub type_: String,
    pub id: String,
    pub fixed_id: Option<bool>,
    pub class: Option<ClassRef>,
    pub size: Option<u32>,
    pub length: u32,
    pub parent: Option<ContextRef>,
    pub variables: Vec<ContextElement>,
}

#[derive(Debug, PartialEq)]
pub struct ContextElement {
    pub value: InstanceRefOrSentinel,
}

#[derive(Debug, PartialEq)]
pub struct CpuSamples {
    pub type_: String,
    pub sample_period: u32,
    pub max_stack_depth: u32,
    pub sample_count: u32,
    pub time_origin_micros: u32,
    pub time_extent_micros: u32,
    pub pid: u32,
    pub functions: Vec<ProfileFunction>,
    pub samples: Vec<CpuSample>,
}

#[derive(Debug, PartialEq)]
pub struct CpuSamplesEvent {
    pub sample_period: u32,
    pub max_stack_depth: u32,
    pub sample_count: u32,
    pub time_origin_micros: u32,
    pub time_extent_micros: u32,
    pub pid: u32,
    pub functions: Vec<ObjectRefOrNativeFunction>,
    pub samples: Vec<CpuSample>,
}

#[derive(Debug, PartialEq)]
pub struct CpuSample {
    pub tid: u32,
    pub timestamp: u32,
    pub vm_tag: Option<String>,
    pub user_tag: Option<String>,
    pub truncated: Option<bool>,
    pub stack: Vec<u32>,
    pub identity_hash_code: Option<u32>,
    pub class_id: Option<u32>,
}

#[derive(Debug, PartialEq)]
pub struct ErrorRef {
    pub type_: String,
    pub id: String,
    pub fixed_id: Option<bool>,
    pub kind: ErrorKind,
    pub message: String,
}

#[derive(Debug, PartialEq)]
pub struct Error {
    pub type_: String,
    pub id: String,
    pub fixed_id: Option<bool>,
    pub class: Option<ClassRef>,
    pub size: Option<u32>,
    pub kind: ErrorKind,
    pub message: String,
    pub exception: Option<InstanceRef>,
    pub stacktrace: Option<InstanceRef>,
}

#[derive(Debug, Clone, PartialEq)]
pub enum ErrorKind {
    UnhandledException,
    LanguageError,
    InternalError,
    TerminationError,
}

#[derive(Debug, Clone, PartialEq)]
pub enum EventKind {
    VMUpdate,
    VMFlagUpdate,
    IsolateStart,
    IsolateRunnable,
    IsolateExit,
    IsolateUpdate,
    IsolateReload,
    ServiceExtensionAdded,
    PauseStart,
    PauseExit,
    PauseBreakpoint,
    PauseInterrupted,
    PauseException,
    PausePostRequest,
    Resume,
    NoEvent,
    BreakpointAdded,
    BreakpointResolved,
    BreakpointRemoved,
    BreakpointUpdated,
    GC,
    WriteEvent,
    Inspect,
    Extension,
    Logging,
    TimelineEvents,
    TimelineStreamSubscriptionsUpdate,
    ServiceRegistered,
    ServiceUnregistered,
    UserTagChanged,
    CpuSamples,
}

#[derive(Debug, PartialEq)]
pub struct FieldRef {
    pub type_: String,
    pub id: String,
    pub fixed_id: Option<bool>,
    pub name: String,
    pub owner: ObjectRef,
    pub declared_type: InstanceRef,
    pub const_: bool,
    pub final_: bool,
    pub static_: bool,
    pub location: Option<SourceLocation>,
}

#[derive(Debug, PartialEq)]
pub struct Field {
    pub type_: String,
    pub id: String,
    pub fixed_id: Option<bool>,
    pub class: Option<ClassRef>,
    pub size: Option<u32>,
    pub name: String,
    pub owner: ObjectRef,
    pub declared_type: InstanceRef,
    pub const_: bool,
    pub final_: bool,
    pub static_: bool,
    pub location: Option<SourceLocation>,
    pub static_value: Option<InstanceRefOrSentinel>,
}

#[derive(Debug, PartialEq)]
pub struct Flag {
    pub name: String,
    pub comment: String,
    pub modified: bool,
    pub value_as_string: Option<String>,
}

#[derive(Debug, PartialEq)]
pub struct FlagList {
    pub type_: String,
    pub flags: Vec<Flag>,
}

#[derive(Debug, PartialEq)]
pub struct Frame {
    pub type_: String,
    pub index: u32,
    pub function: Option<FunctionRef>,
    pub code: Option<CodeRef>,
    pub location: Option<SourceLocation>,
    pub vars: Option<Vec<BoundVariable>>,
    pub kind: Option<FrameKind>,
}

#[derive(Debug, Clone, PartialEq)]
pub enum FrameKind {
    Regular,
    AsyncCausal,
    AsyncSuspensionMarker,
    AsyncActivation,
}

#[derive(Debug, PartialEq)]
pub struct FunctionRef {
    pub type_: String,
    pub id: String,
    pub fixed_id: Option<bool>,
    pub name: String,
    pub owner: Box<LibraryRefOrClassRefOrFunctionRef>,
    pub static_: bool,
    pub const_: bool,
    pub implicit: bool,
    pub abstract_: bool,
    pub is_getter: bool,
    pub is_setter: bool,
    pub location: Option<SourceLocation>,
}

#[derive(Debug, PartialEq)]
pub struct Function {
    pub type_: String,
    pub id: String,
    pub fixed_id: Option<bool>,
    pub class: Option<ClassRef>,
    pub size: Option<u32>,
    pub name: String,
    pub owner: Box<LibraryRefOrClassRefOrFunctionRef>,
    pub static_: bool,
    pub const_: bool,
    pub implicit: bool,
    pub abstract_: bool,
    pub is_getter: bool,
    pub is_setter: bool,
    pub location: Option<SourceLocation>,
    pub signature: InstanceRef,
    pub code: Option<CodeRef>,
}

#[derive(Debug, PartialEq)]
pub struct InstanceRef {
    pub type_: String,
    pub id: String,
    pub fixed_id: Option<bool>,
    pub kind: InstanceKind,
    pub identity_hash_code: u32,
    pub class: ClassRef,
    pub value_as_string: Option<String>,
    pub value_as_string_is_truncated: Option<bool>,
    pub length: Option<u32>,
    pub name: Option<String>,
    pub type_class: Option<ClassRef>,
    pub parameterized_class: Option<ClassRef>,
    pub return_type: Option<Box<InstanceRef>>,
    pub parameters: Option<Vec<Parameter>>,
    pub type_parameters: Option<Vec<InstanceRef>>,
    pub pattern: Option<Box<InstanceRef>>,
    pub closure_function: Option<FunctionRef>,
    pub closure_context: Option<ContextRef>,
    pub closure_receiver: Option<Box<InstanceRef>>,
    pub port_id: Option<u32>,
    pub allocation_location: Option<Box<InstanceRef>>,
    pub debug_name: Option<String>,
    pub label: Option<String>,
}

#[derive(Debug, PartialEq)]
pub struct Instance {
    pub type_: String,
    pub id: String,
    pub fixed_id: Option<bool>,
    pub size: Option<u32>,
    pub kind: InstanceKind,
    pub identity_hash_code: u32,
    pub class: ClassRef,
    pub value_as_string: Option<String>,
    pub value_as_string_is_truncated: Option<bool>,
    pub length: Option<u32>,
    pub offset: Option<u32>,
    pub count: Option<u32>,
    pub name: Option<String>,
    pub type_class: Option<ClassRef>,
    pub parameterized_class: Option<ClassRef>,
    pub return_type: Option<Box<InstanceRef>>,
    pub parameters: Option<Vec<Parameter>>,
    pub type_parameters: Option<Vec<InstanceRef>>,
    pub fields: Vec<BoundField>,
    pub elements: Option<Vec<InstanceRefOrSentinel>>,
    pub associations: Option<Vec<MapAssociation>>,
    pub bytes: Option<String>,
    pub mirror_referent: Option<ObjectRef>,
    pub pattern: Option<Box<InstanceRef>>,
    pub closure_function: Option<FunctionRef>,
    pub closure_context: Option<ContextRef>,
    pub closure_receiver: Option<Box<InstanceRef>>,
    pub is_case_sensitive: Option<bool>,
    pub is_multi_line: Option<bool>,
    pub property_key: Option<ObjectRef>,
    pub property_value: Option<ObjectRef>,
    pub target: Option<ObjectRef>,
    pub type_arguments: Option<TypeArgumentsRef>,
    pub parameter_index: Option<u32>,
    pub target_type: Option<Box<InstanceRef>>,
    pub bound: Option<Box<InstanceRef>>,
    pub port_id: Option<u32>,
    pub allocation_location: Option<Box<InstanceRef>>,
    pub debug_name: Option<String>,
    pub label: Option<String>,
    pub callback: Option<InstanceRef>,
    pub callback_address: Option<InstanceRef>,
    pub all_entries: Option<InstanceRef>,
    pub value: Option<InstanceRef>,
    pub token: Option<InstanceRef>,
    pub detach: Option<InstanceRef>,
}

#[derive(Debug, Clone, PartialEq)]
pub enum InstanceKind {
    PlainInstance,
    Null,
    Bool,
    Double,
    Int,
    String,
    List,
    MapKind,
    SetKind,
    Float32x4,
    Float64x2,
    Int32x4,
    Uint8ClampedList,
    Uint8List,
    Uint16List,
    Uint32List,
    Uint64List,
    Int8List,
    Int16List,
    Int32List,
    Int64List,
    Float32List,
    Float64List,
    Int32x4List,
    Float32x4List,
    Float64x2List,
    Record,
    StackTrace,
    Closure,
    MirrorReference,
    RegExp,
    WeakProperty,
    WeakReference,
    Type,
    TypeParameter,
    TypeRef,
    FunctionType,
    RecordType,
    BoundedType,
    ReceivePort,
    UserTag,
    Finalizer,
    NativeFinalizer,
    FinalizerEntry,
}

#[derive(Debug, PartialEq)]
pub struct IsolateRef {
    pub type_: String,
    pub id: String,
    pub number: String,
    pub name: String,
    pub is_system_isolate: bool,
    pub isolate_group_id: String,
}

#[derive(Debug, PartialEq)]
pub struct IsolateFlag {
    pub name: String,
    pub value_as_string: String,
}

#[derive(Debug, PartialEq)]
pub struct IsolateGroupRef {
    pub type_: String,
    pub id: String,
    pub number: String,
    pub name: String,
    pub is_system_isolate_group: bool,
}

#[derive(Debug, PartialEq)]
pub struct IsolateGroup {
    pub type_: String,
    pub id: String,
    pub number: String,
    pub name: String,
    pub is_system_isolate_group: bool,
    pub isolates: Vec<IsolateRef>,
}

#[derive(Debug, PartialEq)]
pub struct InboundReferences {
    pub type_: String,
    pub references: Vec<InboundReference>,
}

#[derive(Debug, PartialEq)]
pub struct InboundReference {
    pub source: Object,
    pub parent_list_index: Option<u32>,
    pub parent_field: Option<FieldRefOrStringOrInt>,
}

#[derive(Debug, PartialEq)]
pub struct InstanceSet {
    pub type_: String,
    pub total_count: u32,
    pub instances: Vec<ObjectRef>,
}

#[derive(Debug, PartialEq)]
pub struct LibraryRef {
    pub type_: String,
    pub id: String,
    pub fixed_id: Option<bool>,
    pub name: String,
    pub uri: String,
}

#[derive(Debug, PartialEq)]
pub struct Library {
    pub type_: String,
    pub id: String,
    pub fixed_id: Option<bool>,
    pub class: Option<ClassRef>,
    pub size: Option<u32>,
    pub name: String,
    pub uri: String,
    pub debuggable: bool,
    pub dependencies: Vec<LibraryDependency>,
    pub scripts: Vec<ScriptRef>,
    pub variables: Vec<FieldRef>,
    pub functions: Vec<FunctionRef>,
    pub classes: Vec<ClassRef>,
}

#[derive(Debug, PartialEq)]
pub struct LibraryDependency {
    pub is_import: bool,
    pub is_deferred: bool,
    pub prefix: Option<String>,
    pub target: LibraryRef,
    pub shows: Option<Vec<String>>,
    pub hides: Option<Vec<String>>,
}

#[derive(Debug, PartialEq)]
pub struct LogRecord {
    pub type_: String,
    pub message: InstanceRef,
    pub time: u32,
    pub level: u32,
    pub sequence_number: u32,
    pub logger_name: InstanceRef,
    pub zone: InstanceRef,
    pub error: InstanceRef,
    pub stack_trace: InstanceRef,
}

#[derive(Debug, PartialEq)]
pub struct MapAssociation {
    pub key: InstanceRefOrSentinel,
    pub value: InstanceRefOrSentinel,
}

#[derive(Debug, PartialEq)]
pub struct MemoryUsage {
    pub type_: String,
    pub external_usage: u32,
    pub heap_capacity: u32,
    pub heap_usage: u32,
}

#[derive(Debug, PartialEq)]
pub struct Message {
    pub type_: String,
    pub index: u32,
    pub name: String,
    pub message_object_id: String,
    pub size: u32,
    pub handler: Option<FunctionRef>,
    pub location: Option<SourceLocation>,
}

#[derive(Debug, PartialEq)]
pub struct NativeFunction {
    pub type_: String,
    pub name: String,
}

#[derive(Debug, PartialEq)]
pub struct NullRef {
    pub type_: String,
    pub value_as_string: String,
}

#[derive(Debug, PartialEq)]
pub struct Null {
    pub type_: String,
    pub value_as_string: String,
}

#[derive(Debug, PartialEq)]
pub struct ObjectRef {
    pub type_: String,
    pub id: String,
    pub fixed_id: Option<bool>,
}

#[derive(Debug, PartialEq)]
pub struct Object {
    pub type_: String,
    pub id: String,
    pub fixed_id: Option<bool>,
    pub class: Option<ClassRef>,
    pub size: Option<u32>,
}

#[derive(Debug, PartialEq)]
pub struct Parameter {
    pub parameter_type: InstanceRef,
    pub fixed: bool,
    pub name: Option<String>,
    pub required: Option<bool>,
}

#[derive(Debug, PartialEq)]
pub struct PerfettoCpuSamples {
    pub type_: String,
    pub sample_period: u32,
    pub max_stack_depth: u32,
    pub sample_count: u32,
    pub time_origin_micros: u32,
    pub time_extent_micros: u32,
    pub pid: u32,
    pub samples: String,
}

#[derive(Debug, PartialEq)]
pub struct PerfettoTimeline {
    pub type_: String,
    pub trace: String,
    pub time_origin_micros: u32,
    pub time_extent_micros: u32,
}

#[derive(Debug, PartialEq)]
pub struct PortList {
    pub type_: String,
    pub ports: Vec<InstanceRef>,
}

#[derive(Debug, PartialEq)]
pub struct ProfileFunction {
    pub kind: String,
    pub inclusive_ticks: u32,
    pub exclusive_ticks: u32,
    pub resolved_url: String,
    pub function: Box<FunctionRefOrNativeFunction>,
}

#[derive(Debug, PartialEq)]
pub struct ProtocolList {
    pub type_: String,
    pub protocols: Vec<Protocol>,
}

#[derive(Debug, PartialEq)]
pub struct Protocol {
    pub protocol_name: String,
    pub major: u32,
    pub minor: u32,
}

#[derive(Debug, PartialEq)]
pub struct ProcessMemoryUsage {
    pub type_: String,
    pub root: ProcessMemoryItem,
}

#[derive(Debug, PartialEq)]
pub struct ProcessMemoryItem {
    pub name: String,
    pub description: String,
    pub size: u32,
    pub children: Vec<ProcessMemoryItem>,
}

#[derive(Debug, PartialEq)]
pub struct ReloadReport {
    pub type_: String,
    pub success: bool,
}

#[derive(Debug, PartialEq)]
pub struct RetainingObject {
    pub value: Object,
    pub parent_list_index: Option<u32>,
    pub parent_map_key: Option<ObjectRef>,
    pub parent_field: Option<FieldRefOrStringOrInt>,
}

#[derive(Debug, PartialEq)]
pub struct RetainingPath {
    pub length: u32,
    pub gc_root_type: String,
    pub elements: Vec<RetainingObject>,
}

#[derive(Debug, PartialEq)]
pub struct Response {
    type_: String,
}

#[derive(Debug, PartialEq)]
pub struct Sentinel {
    pub type_: String,
    pub kind: SentinelKind,
    pub value_as_string: String,
}

#[derive(Debug, Clone, PartialEq)]
pub enum SentinelKind {
    Collected,
    Expired,
    NotInitialized,
    BeingInitialized,
    OptimizedOut,
    Free,
}

#[derive(Debug, PartialEq)]
pub struct ScriptRef {
    pub type_: String,
    pub id: String,
    pub fixed_id: Option<bool>,
    pub uri: String,
}

#[derive(Debug, PartialEq)]
pub struct Script {
    pub type_: String,
    pub id: String,
    pub fixed_id: Option<bool>,
    pub class: Option<Box<ClassRef>>,
    pub size: Option<u32>,
    pub uri: String,
    pub library: LibraryRef,
    pub line_offset: Option<u32>,
    pub column_offset: Option<u32>,
    pub source: Option<String>,
    pub token_pos_table: Option<Vec<Vec<u32>>>,
}

#[derive(Debug, PartialEq)]
pub struct ScriptList {
    pub type_: String,
    pub scripts: Vec<ScriptRef>,
}

#[derive(Debug, PartialEq)]
pub struct SourceLocation {
    pub type_: String,
    pub script: ScriptRef,
    pub token_pos: u32,
    pub end_token_pos: Option<u32>,
    pub line: Option<u32>,
    pub column: Option<u32>,
}

#[derive(Debug, PartialEq)]
pub struct SourceReport {
    pub type_: String,
    pub ranges: Vec<SourceReportRange>,
    pub scripts: Vec<ScriptRef>,
}

#[derive(Debug, PartialEq)]
pub struct SourceReportCoverage {
    pub hits: Vec<u32>,
    pub misses: Vec<u32>,
}

#[derive(Debug, Clone, PartialEq)]
pub enum SourceReportKind {
    Coverage,
    PossibleBreakpoints,
    BranchCoverage,
}

#[derive(Debug, PartialEq)]
pub struct SourceReportRange {
    pub script_index: u32,
    pub start_pos: u32,
    pub end_pos: u32,
    pub compiled: bool,
    pub error: Option<Error>,
    pub coverage: Option<SourceReportCoverage>,
    pub possible_breakpoints: Option<Vec<u32>>,
    pub branch_coverage: Option<SourceReportCoverage>,
}

#[derive(Debug, PartialEq)]
pub struct Stack {
    pub type_: String,
    pub frames: Vec<Frame>,
    pub async_causal_frames: Option<Vec<Frame>>,
    pub awaiter_frames: Option<Vec<Frame>>,
    pub messages: Vec<Message>,
    pub truncated: bool,
}

#[derive(Debug, Clone, PartialEq)]
pub enum ExceptionPauseMode {
    NoPause,
    Unhandled,
    All,
}

#[derive(Debug, Clone, PartialEq)]
pub enum StepOption {
    Into,
    Over,
    OverAsyncSuspension,
    Out,
    Rewind,
}

#[derive(Debug, PartialEq)]
pub struct Success {
    pub type_: String,
}

#[derive(Debug, PartialEq)]
pub struct TimelineFlags {
    pub type_: String,
    pub recorder_name: String,
    pub available_streams: Vec<String>,
    pub recorded_streams: Vec<String>,
}

#[derive(Debug, PartialEq)]
pub struct Timestamp {
    pub type_: String,
    pub timestamp: u32,
}

#[derive(Debug, PartialEq)]
pub struct TypeArgumentsRef {
    pub type_: String,
    pub id: String,
    pub fixed_id: Option<bool>,
    pub name: String,
}

#[derive(Debug, PartialEq)]
pub struct TypeArguments {
    pub type_: String,
    pub id: String,
    pub fixed_id: Option<bool>,
    pub class: Option<ClassRef>,
    pub size: Option<u32>,
    pub name: String,
    pub types: Vec<InstanceRef>,
}

#[derive(Debug, PartialEq)]
pub struct TypeParametersRef {
    pub type_: String,
    pub id: String,
    pub fixed_id: Option<bool>,
}

#[derive(Debug, PartialEq)]
pub struct TypeParameters {
    pub type_: String,
    pub id: String,
    pub fixed_id: Option<bool>,
    pub class: Option<ClassRef>,
    pub size: Option<u32>,
    pub names: InstanceRef,
    pub bounds: TypeArgumentsRef,
    pub defaults: TypeArgumentsRef,
}

#[derive(Debug, PartialEq)]
pub struct UnresolvedSouceLocation {
    pub type_: String,
    pub script: Option<ScriptRef>,
    pub script_uri: Option<String>,
    pub token_pos: Option<u32>,
    pub line: Option<u32>,
    pub column: Option<u32>,
}

#[derive(Debug, PartialEq)]
pub struct UriList {
    pub type_: String,
    pub uris: Vec<Option<String>>,
}

#[derive(Debug, PartialEq)]
pub struct Version {
    pub type_: String,
    pub major: u32,
    pub minor: u32,
}

#[derive(Debug, PartialEq)]
pub struct VMRef {
    pub type_: String,
    pub name: String,
}

#[derive(Debug, PartialEq)]
pub struct VM {
    pub type_: String,
    pub name: String,
    pub architecture_bits: u32,
    pub host_cpu: String,
    pub operating_system: String,
    pub target_cpu: String,
    pub version: String,
    pub pid: u32,
    pub start_time: u64,
    pub isolates: Vec<IsolateRef>,
    pub isolate_groups: Vec<IsolateGroupRef>,
    pub system_isolates: Vec<IsolateRef>,
    pub system_isolate_groups: Vec<IsolateGroupRef>,
}

#[derive(Debug, PartialEq)]
pub enum BreakpointOrSentinel {
    Breakpoint(Breakpoint),
    Sentinel(Sentinel),
}

#[derive(Debug, PartialEq)]
pub enum InstanceRefOrSentinel {
    InstanceRef(InstanceRef),
    Sentinel(Sentinel),
}

#[derive(Debug, PartialEq)]
pub enum InstanceRefOrSentinelOrErrorRef {
    InstanceRef(InstanceRef),
    Sentinel(Sentinel),
    ErrorRef(ErrorRef),
}

#[derive(Debug, PartialEq)]
pub enum LibraryRefOrClassRefOrFunctionRef {
    LibraryRef(LibraryRef),
    ClassRef(ClassRef),
    FunctionRef(FunctionRef),
}

#[derive(Debug, PartialEq)]
pub enum StringOrInt {
    String(String),
    Int(u32),
}

#[derive(Debug, PartialEq)]
pub enum SourceLocationOrUnresolvedSouceLocation {
    SourceLocation(SourceLocation),
    UnresolvedSouceLocation(UnresolvedSouceLocation),
}

#[derive(Debug, PartialEq)]
pub enum FieldRefOrStringOrInt {
    FieldRef(FieldRef),
    String(String),
    Int(u32),
}

#[derive(Debug, PartialEq)]
pub enum FunctionRefOrNativeFunction {
    FunctionRef(FunctionRef),
    NativeFunction(NativeFunction),
}

#[derive(Debug, PartialEq)]
pub enum ObjectRefOrNativeFunction {
    ObjectRef(ObjectRef),
    NativeFunction(NativeFunction),
}

#[derive(Debug, PartialEq)]
pub enum InstanceRefOrSentinelOrString {
    InstanceRef(InstanceRef),
    Sentinel(Sentinel),
    String(String),
}

#[derive(Debug, PartialEq)]
pub enum SuccessOrSentinel {
    Success(Success),
    Sentinel(Sentinel),
}

#[derive(Debug, PartialEq)]
pub enum AllocationProfileOrSentinel {
    AllocationProfile(AllocationProfile),
    Sentinel(Sentinel),
}

#[derive(Debug, PartialEq)]
pub enum ClassListOrSentinel {
    ClassList(ClassList),
    Sentinel(Sentinel),
}

#[derive(Debug, PartialEq)]
pub enum CpuSamplesOrSentinel {
    CpuSamples(CpuSamplesEvent),
    Sentinel(Sentinel),
}

#[derive(Debug, PartialEq)]
pub enum InboundReferencesOrSentinel {
    InboundReferences(InboundReferences),
    Sentinel(Sentinel),
}

#[derive(Debug, PartialEq)]
pub enum InstanceSetOrSentinel {
    InstanceSet(InstanceSet),
    Sentinel(Sentinel),
}

#[derive(Debug, PartialEq)]
pub enum IsolateGroupOrSentinel {
    IsolateGroup(IsolateGroup),
    Sentinel(Sentinel),
}

#[derive(Debug, PartialEq)]
pub enum MemoryUsageOrSentinel {
    MemoryUsage(MemoryUsage),
    Sentinel(Sentinel),
}

#[derive(Debug, PartialEq)]
pub enum ScriptListOrSentinel {
    ScriptList(ScriptList),
    Sentinel(Sentinel),
}

#[derive(Debug, PartialEq)]
pub enum ObjectOrSentinel {
    Object(Object),
    Sentinel(Sentinel),
}

#[derive(Debug, PartialEq)]
pub enum PerfettoCpuSamplesOrSentinel {
    PerfettoCpuSamples(PerfettoCpuSamples),
    Sentinel(Sentinel),
}

#[derive(Debug, PartialEq)]
pub enum RetainingPathOrSentinel {
    RetainingPath(RetainingPath),
    Sentinel(Sentinel),
}

#[derive(Debug, PartialEq)]
pub enum StackOrSentinel {
    Stack(Stack),
    Sentinel(Sentinel),
}

#[derive(Debug, PartialEq)]
pub enum SourceReportOrSentinel {
    SourceReport(SourceReport),
    Sentinel(Sentinel),
}

#[derive(Debug, PartialEq)]
pub enum ReloadReportOrSentinel {
    ReloadReport(ReloadReport),
    Sentinel(Sentinel),
}

#[derive(Debug, PartialEq)]
pub enum SuccessOrError {
    Success(Success),
    Error(Error),
}

/// An event of a stream. `extension_data` holds the JSON text of the
/// extension's data, and each timeline event is the JSON text of one event.
#[derive(Debug, PartialEq)]
pub struct Event {
    pub type_: String,
    pub kind: EventKind,
    pub isolate_group: Option<IsolateGroupRef>,
    pub isolate: Option<IsolateRef>,
    pub vm: Option<VMRef>,
    pub timestamp: u64,
    pub breakpoint: Option<Breakpoint>,
    pub pause_breakpoints: Option<Vec<Breakpoint>>,
    pub top_frame: Option<Frame>,
    pub exception: Option<InstanceRef>,
    pub bytes: Option<String>,
    pub inspectee: Option<InstanceRef>,
    pub gc_type: Option<String>,
    pub extension_rpc: Option<String>,
    pub extension_kind: Option<String>,
    pub extension_data: Option<String>,
    pub timeline_events: Option<Vec<String>>,
    pub updated_streams: Option<Vec<String>>,
    pub at_async_suspension: Option<bool>,
    pub status: Option<String>,
    pub log_record: Option<LogRecord>,
    pub service: Option<String>,
    pub method: Option<String>,
    pub alias: Option<String>,
    pub flag: Option<String>,
    pub new_value: Option<String>,
    pub last: Option<bool>,
    pub updated_tag: Option<String>,
    pub previous_tag: Option<String>,
    pub cpu_samples: Option<CpuSamplesEvent>,
}

#[derive(Debug, PartialEq)]
pub struct Isolate {
    pub type_: String,
    pub id: String,
    pub number: String,
    pub name: String,
    pub is_system_isolate: bool,
    pub isolate_group_id: String,
    pub isolate_flags: Vec<IsolateFlag>,
    pub start_time: u64,
    pub runnable: bool,
    pub live_ports: u32,
    pub pause_on_exit: bool,
    pub pause_event: Event,
}

/// A timeline; each trace event is the JSON text of one event.
#[derive(Debug, PartialEq)]
pub struct Timeline {
    pub type_: String,
    pub trace_events: Vec<String>,
    pub time_origin_micros: u32,
    pub time_extent_micros: u32,
}

#[derive(Debug, PartialEq)]
pub enum IsolateOrSentinel {
    Isolate(Isolate),
    Sentinel(Sentinel),
}

#[derive(Debug, PartialEq)]
pub enum EventOrSentinel {
    Event(Event),
    Sentinel(Sentinel),
}

} // verus!
