//! A process sandbox: policy model, mount planning, child setup order and
//! outcome classification, each with a verified contract.

pub mod child;
pub mod env;
pub mod error;
pub mod executor;
pub mod fs;
pub mod mount_plan;
pub mod outcome;
pub mod policy;
pub mod sandbox;
pub mod supervisor;


pub use error::{Error, ResultWithError};
pub use executor::Executor;
pub use outcome::{ExecutorResult, ExecutorResultStatus, WaitStatus};
pub use policy::{Limits, Mount, ResourceKind, SandboxPolicy, Seccomp, SeccompAction};
pub use sandbox::Sandbox;
