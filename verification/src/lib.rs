//! A concurrency-bounded proxy client for a remote text-translation service.
//!
//! The core of the library is an admission gate: a counting semaphore with a
//! fixed ceiling that bounds how many translation calls may be in flight at
//! once. Around it stand the pieces of a single call: interpreting the remote
//! service's response, parsing the configured concurrency ceiling, and a
//! per-call state machine that guarantees every admitted call gives its slot
//! back exactly once, on every exit path. The HTTP transport itself is
//! unverified plumbing that drives these pieces from outside.

pub mod config;
pub mod gate;
pub mod response;
pub mod session;

pub use config::ConfigError;
pub use config::DEFAULT_CEILING;

pub use gate::AdmissionGate;
pub use gate::GateOp;
pub use response::ApiResponse;
pub use response::TranslateError;
pub use response::SUCCESS_CODE;
pub use session::CallPhase;
pub use session::CallSession;
pub use session::FetchOutcome;
