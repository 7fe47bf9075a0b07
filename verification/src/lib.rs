//! Migration of verified-source metadata between block explorers.
//!
//! The library holds the deterministic core of the migration: reshaping the
//! source explorer's metadata into the target explorer's verification request,
//! classifying the target's submission response, and the bounded submit/poll
//! state machine that turns a submission id into a terminal outcome. Network
//! transport, progress rendering and argument handling live outside the
//! library and drive it by handing in plain response values.

pub mod convert;
pub mod json;
pub mod model;
pub mod pipeline;
pub mod poll;
pub mod submit;
pub mod text;
pub mod version;

pub use convert::convert_metadata_to_verification_request;
pub use model::VerificationResult;
pub use version::normalize_compiler_version;
