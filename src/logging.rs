//! Install-once redirection of the engine's logs.
//!
//! The engine keeps one process-wide log sink. Installing the hooks is
//! idempotent: only the first installation registers anything, and later
//! ones are no-ops. The caller keeps the `LoggingHooks` value process-wide.
use vstd::prelude::*;

verus! {

/// Which of the two engine log sinks have been redirected.
#[derive(Debug, Clone, Copy, PartialEq, Eq, Structural)]
pub struct LoggingHooks {
    pub whisper_installed: bool,
    pub ggml_installed: bool,
}

/// The registrations that an installation must perform now.
#[derive(Debug, Clone, Copy, PartialEq, Eq, Structural)]
pub struct HookRegistrations {
    pub register_whisper: bool,
    pub register_ggml: bool,
}

impl LoggingHooks {
    /// Nothing redirected yet.
    pub fn new() -> (r: Self)
        ensures
            !r.whisper_installed,
            !r.ggml_installed,
    {
        LoggingHooks { whisper_installed: false, ggml_installed: false }
    }
}

/// The registrations due from `h`: those not done before.
pub open spec fn due_registrations(h: LoggingHooks) -> HookRegistrations {
    HookRegistrations { register_whisper: !h.whisper_installed, register_ggml: !h.ggml_installed }
}

/// Redirects the logs of both the engine and its tensor backend: returns the
/// registrations to perform, which are only those not done before, and marks
/// both as done.
pub fn install_logging_hooks(hooks: &mut LoggingHooks) -> (r: HookRegistrations)
    ensures
        r == due_registrations(*old(hooks)),
        final(hooks).whisper_installed,
        final(hooks).ggml_installed,
{
    let r = HookRegistrations {
        register_whisper: !hooks.whisper_installed,
        register_ggml: !hooks.ggml_installed,
    };
    hooks.whisper_installed = true;
    hooks.ggml_installed = true;
    r
}

/// Only the first installation takes effect: from a fresh process both sinks
/// are registered, and once an installation has run, any later one registers
/// nothing and leaves the record as it is.
pub proof fn lemma_install_once(h: LoggingHooks)
    requires
        h.whisper_installed,
        h.ggml_installed,
    ensures
        due_registrations(LoggingHooks { whisper_installed: false, ggml_installed: false })
            == (HookRegistrations { register_whisper: true, register_ggml: true }),
        due_registrations(h) == (HookRegistrations { register_whisper: false, register_ggml: false }),
        h == (LoggingHooks { whisper_installed: true, ggml_installed: true }),
{
}

/// Severity of a message from the tensor backend's log sink.
#[derive(Debug, Clone, Copy, PartialEq, Eq, Structural)]
pub enum GGMLLogLevel {
    /// A message that carries no level.
    NoLevel,
    Info,
    Warn,
    Error,
    Debug,
    /// Continuation of the previous message.
    Cont,
    Unknown(u32),
}

/// The level that the backend's numeric code names.
pub open spec fn level_of(code: u32) -> GGMLLogLevel {
    if code == 0 {
        GGMLLogLevel::NoLevel
    } else if code == 1 {
        GGMLLogLevel::Debug
    } else if code == 2 {
        GGMLLogLevel::Info
    } else if code == 3 {
        GGMLLogLevel::Warn
    } else if code == 4 {
        GGMLLogLevel::Error
    } else if code == 5 {
        GGMLLogLevel::Cont
    } else {
        GGMLLogLevel::Unknown(code)
    }
}

/// Severity under which a forwarded message is emitted.
#[derive(Debug, Clone, Copy, PartialEq, Eq, Structural)]
pub enum LogSeverity {
    Trace,
    Debug,
    Info,
    Warn,
    Error,
}

impl GGMLLogLevel {
    pub fn from_code(code: u32) -> (r: Self)
        ensures
            r == level_of(code),
    {
        if code == 0 {
            GGMLLogLevel::NoLevel
        } else if code == 1 {
            GGMLLogLevel::Debug
        } else if code == 2 {
            GGMLLogLevel::Info
        } else if code == 3 {
            GGMLLogLevel::Warn
        } else if code == 4 {
            GGMLLogLevel::Error
        } else if code == 5 {
            GGMLLogLevel::Cont
        } else {
            GGMLLogLevel::Unknown(code)
        }
    }

    /// Where a message of this level is forwarded: messages without a level
    /// and continuations go to trace, unknown levels to warn.
    pub fn severity(self) -> (r: LogSeverity)
        ensures
            r == (match self {
                GGMLLogLevel::NoLevel => LogSeverity::Trace,
                GGMLLogLevel::Info => LogSeverity::Info,
                GGMLLogLevel::Warn => LogSeverity::Warn,
                GGMLLogLevel::Error => LogSeverity::Error,
                GGMLLogLevel::Debug => LogSeverity::Debug,
                GGMLLogLevel::Cont => LogSeverity::Trace,
                GGMLLogLevel::Unknown(_) => LogSeverity::Warn,
            }),
    {
        match self {
            GGMLLogLevel::NoLevel => LogSeverity::Trace,
            GGMLLogLevel::Info => LogSeverity::Info,
            GGMLLogLevel::Warn => LogSeverity::Warn,
            GGMLLogLevel::Error => LogSeverity::Error,
            GGMLLogLevel::Debug => LogSeverity::Debug,
            GGMLLogLevel::Cont => LogSeverity::Trace,
            GGMLLogLevel::Unknown(_) => LogSeverity::Warn,
        }
    }
}

} // verus!
