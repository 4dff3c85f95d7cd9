//! LoggerInit: selects exactly one logging/tracing backend for the build
//! target, before anything else emits log output.
//!
//! The target-specific branches are mutually exclusive at compile time in
//! the hosting binary; here the selection is an explicit tagged variant
//! resolved from a build-target value, so the selection table is ordinary
//! data-driven logic that can be stated and tested independently of the
//! platform. Installing the chosen backend (a global side effect of the
//! respective logging crate) is the hosting binary's job.

use vstd::prelude::*;

verus! {

/// The invocation platform a build was compiled for.
#[derive(Clone, Copy, Debug, PartialEq, Eq, Structural)]
pub enum BuildTarget {
    /// An embedding mobile shell owns the process.
    Mobile,
    /// A managed web runtime owns the process.
    Web,
    /// An ordinary native/desktop process.
    Native,
}

/// The mutually exclusive logging/tracing backends.
#[derive(Clone, Copy, Debug, PartialEq, Eq, Structural)]
pub enum LoggerBackend {
    /// Tags all output with a fixed component tag, caps verbosity, and
    /// suppresses known-noisy third-party subsystems.
    TaggedMobile,
    /// Forwards log records to the host console at a fixed verbosity;
    /// failure to install it is non-fatal (there is no lower sink to
    /// report to).
    HostConsole,
    /// A human-readable backend configured through the environment.
    EnvReadable,
}

/// Verbosity ceilings, most verbose first.
#[derive(Clone, Copy, Debug, PartialEq, Eq, Structural)]
pub enum Verbosity {
    Trace,
    Debug,
    Info,
    Warn,
    Error,
}

/// The selection guard of each backend: which build target it is installed
/// for. Mirrors the branch structure of the startup sequence.
pub open spec fn selects(target: BuildTarget, backend: LoggerBackend) -> bool {
    match backend {
        LoggerBackend::TaggedMobile => target is Mobile,
        LoggerBackend::HostConsole => target is Web,
        LoggerBackend::EnvReadable => target is Native,
    }
}

/// Everything the hosting binary needs to install the chosen backend.
pub struct LoggerPlan {
    /// The one backend selected for this build.
    pub backend: LoggerBackend,
    /// The fixed component tag stamped on every record (mobile only).
    pub tag: Option<String>,
    /// The verbosity ceiling the backend is installed with.
    pub max_level: Verbosity,
    /// Known-noisy third-party subsystems whose records are dropped
    /// (mobile only).
    pub suppressed: Vec<String>,
    /// Whether a failure to install the backend must abort startup; on the
    /// web target it only downgrades to "no structured logging available".
    pub install_failure_fatal: bool,
}

/// Select the logging backend for the build target, with the fixed
/// configuration each target requires: the mobile backend is tagged, fully
/// verbose and silences the two known-noisy subsystems; the web backend
/// forwards to the host console at debug verbosity and may fail harmlessly;
/// the native backend is environment-configurable and human-readable.
pub fn logger_plan(target: BuildTarget) -> (p: LoggerPlan)
    ensures
        selects(target, p.backend),
        target is Mobile ==> {
            &&& p.tag matches Some(t) && t@ == "CatgirlEngine"@
            &&& p.max_level is Trace
            &&& p.suppressed@.len() == 2
            &&& p.suppressed@[0]@ == "android_activity"@
            &&& p.suppressed@[1]@ == "winit"@
            &&& p.install_failure_fatal
        },
        target is Web ==> {
            &&& p.tag is None
            &&& p.max_level is Debug
            &&& p.suppressed@.len() == 0
            &&& !p.install_failure_fatal
        },
        target is Native ==> {
            &&& p.tag is None
            &&& p.max_level is Trace
            &&& p.suppressed@.len() == 0
            &&& p.install_failure_fatal
        },
{
    match target {
        BuildTarget::Mobile => {
            let mut suppressed: Vec<String> = Vec::new();
            suppressed.push(String::from_str("android_activity"));
            suppressed.push(String::from_str("winit"));
            LoggerPlan {
                backend: LoggerBackend::TaggedMobile,
                tag: Some(String::from_str("CatgirlEngine")),
                max_level: Verbosity::Trace,
                suppressed,
                install_failure_fatal: true,
            }
        },
        BuildTarget::Web => LoggerPlan {
            backend: LoggerBackend::HostConsole,
            tag: None,
            max_level: Verbosity::Debug,
            suppressed: Vec::new(),
            install_failure_fatal: false,
        },
        BuildTarget::Native => LoggerPlan {
            backend: LoggerBackend::EnvReadable,
            tag: None,
            max_level: Verbosity::Trace,
            suppressed: Vec::new(),
            install_failure_fatal: true,
        },
    }
}

/// Law: backend selection is mutually exclusive and total — every build
/// target selects a backend, and never more than one.
pub proof fn lemma_backend_selection_exclusive(target: BuildTarget)
    ensures
        exists|b: LoggerBackend| selects(target, b),
        forall|b1: LoggerBackend, b2: LoggerBackend|
            selects(target, b1) && selects(target, b2) ==> b1 == b2,
{
    let witness = match target {
        BuildTarget::Mobile => LoggerBackend::TaggedMobile,
        BuildTarget::Web => LoggerBackend::HostConsole,
        BuildTarget::Native => LoggerBackend::EnvReadable,
    };
    assert(selects(target, witness));
}

} // verus!
