//! Core pipeline for running the operating system's path-tracing tool
//! against a caller-supplied target: input validation, platform-specific
//! command selection, fallback coordination, and result normalization.
//!
//! The pipeline itself is pure: actually spawning the chosen executable,
//! with its wall-clock deadline, is the caller's job. The caller feeds
//! each [`ExecutionOutcome`] back into the coordinator until it reports
//! a final outcome, then normalizes it into the caller-facing result.

pub mod coordinate;
pub mod outcome;
pub mod pipeline;
pub mod platform;
pub mod validate;

pub use coordinate::advances;
pub use coordinate::attempts_made;
pub use coordinate::coordinate;
pub use coordinate::coordinator_step;
pub use coordinate::final_outcome;
pub use coordinate::lemma_fallback_policy;
pub use coordinate::lemma_single_candidate_terminal;
pub use outcome::ExecutionOutcome;
pub use outcome::failed_prefix;
pub use outcome::invalid_target_msg;
pub use outcome::normalize;
pub use outcome::normalized;
pub use outcome::result_model;
pub use outcome::spawn_failed_prefix;
pub use outcome::timeout_msg;
pub use pipeline::DEADLINE_SECS;
pub use pipeline::plan_invocation;
pub use pipeline::planned;
pub use platform::CandidateModel;
pub use platform::CommandCandidate;
pub use platform::OsId;
pub use platform::candidates_for;
pub use platform::candidates_spec;
pub use platform::model_of;
pub use validate::allowed_char;
pub use validate::is_valid_target;
pub use validate::target_ok;
