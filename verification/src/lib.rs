//! Classify how a child process terminated.
//!
//! A [`status::ProcessExitStatus`] records whether a process succeeded, its
//! exit code (when it has one) and the signal that ended it (on platforms
//! that report one). The converters in [`status`] turn such a value into a
//! `Result`: success, or one structured [`status::ExecutionError`] naming
//! the cause.

pub mod decimal;
pub mod status;

pub use status::AsResult;
pub use status::ErrorModel;
pub use status::ExecutionError;
pub use status::IntoResult;
pub use status::MapResult;
pub use status::ProcessExitStatus;
pub use status::ProcessOutput;
