use vstd::prelude::*;

verus! {

/// How the execution environment was initialized.
pub enum InitType {
    OnDemand,
    ProvisionedConcurrency,
    SnapStart,
}

/// The phase in which initialization happened.
pub enum InitPhase {
    Init,
    Invoke,
}

/// One lifecycle or log record delivered by the host. Durations are carried as the
/// decimal text of their milliseconds; any kind of record the library does not
/// model arrives as `Unknown`, holding a textual dump of the record.
pub enum TelemetryRecord {
    FunctionLog(String),
    PlatformInitStart {
        init_type: InitType,
        phase: InitPhase,
        runtime_version: Option<String>,
        runtime_version_arn: Option<String>,
    },
    PlatformInitRuntimeDone { init_type: InitType, phase: Option<InitPhase> },
    PlatformInitReport { init_type: InitType, phase: InitPhase, duration_ms: String },
    PlatformStart { request_id: String },
    PlatformRuntimeDone { request_id: String, duration_ms: Option<String> },
    PlatformReport { request_id: String, duration_ms: String },
    Unknown(String),
}

pub open spec fn init_type_spec(t: InitType) -> Seq<char> {
    match t {
        InitType::OnDemand => "on-demand"@,
        InitType::ProvisionedConcurrency => "provisioned-concurrency"@,
        InitType::SnapStart => "snap-start"@,
    }
}

pub open spec fn init_phase_spec(p: InitPhase) -> Seq<char> {
    match p {
        InitPhase::Init => "init"@,
        InitPhase::Invoke => "invoke"@,
    }
}

/// An optional text renders as itself, or as nothing when absent.
pub open spec fn optional_text_spec(o: Option<String>) -> Seq<char> {
    match o {
        Some(s) => s@,
        None => Seq::empty(),
    }
}

pub open spec fn optional_phase_spec(p: Option<InitPhase>) -> Seq<char> {
    match p {
        Some(q) => init_phase_spec(q),
        None => Seq::empty(),
    }
}

/// The text of an initialization type, as the host names it.
pub fn init_type_text(t: &InitType) -> (r: String)
    ensures
        r@ == init_type_spec(*t),
{
    match t {
        InitType::OnDemand => "on-demand".to_string(),
        InitType::ProvisionedConcurrency => "provisioned-concurrency".to_string(),
        InitType::SnapStart => "snap-start".to_string(),
    }
}

/// The text of an initialization phase, as the host names it.
pub fn init_phase_text(p: &InitPhase) -> (r: String)
    ensures
        r@ == init_phase_spec(*p),
{
    match p {
        InitPhase::Init => "init".to_string(),
        InitPhase::Invoke => "invoke".to_string(),
    }
}

pub fn optional_text(o: &Option<String>) -> (r: String)
    ensures
        r@ == optional_text_spec(*o),
{
    match o {
        Some(s) => s.clone(),
        None => String::new(),
    }
}

pub fn optional_phase_text(p: &Option<InitPhase>) -> (r: String)
    ensures
        r@ == optional_phase_spec(*p),
{
    match p {
        Some(q) => init_phase_text(q),
        None => String::new(),
    }
}

} // verus!
