//! Verified boundary layer for a native speech-recognition engine.
//!
//! The engine itself is an opaque collaborator. This library holds the
//! decisions that surround every call into it: local validation before the
//! call, classification of the status codes that come back, the configuration
//! records handed to it, and the dispatch of host callbacks invoked from it.
pub mod audio;
pub mod callbacks;
pub mod context;
pub mod context_params;
pub mod error;
pub mod grammar;
pub mod logging;
pub mod params;
pub mod session;
pub mod status;
pub mod system;
pub mod text;

pub use callbacks::{EngineEvent, Invocation};
pub use context::{WhisperContext, WhisperState};
pub use context_params::{DtwAhead, DtwMode, DtwModelPreset, DtwParameters, WhisperContextParameters};
pub use error::WhisperError;
pub use grammar::{WhisperGrammarElement, WhisperGrammarElementType};
pub use logging::{install_logging_hooks, GGMLLogLevel, LoggingHooks};
pub use params::{CallbackHandle, FullParams, RawF32, SamplingStrategy, SegmentCallbackData};
pub use session::{DecodePhase, DecodeTracker};
pub use system::{SystemInfo, VKVram};
