//! Project orchestration library: an environment-scoped configuration
//! resolver, a component registry, the decisions of a process executor
//! (dry-run, captured, streamed and batched runs), a confirmation gate, and
//! the plans of the build, test, dependency, deployment and diagnostic
//! commands as lists of external invocations. Spawning processes, prompting
//! and reading files are left to the caller, which hands the outcomes back.

pub mod error;
pub mod config;
pub mod text;
pub mod components;
pub mod executor;
pub mod gate;
pub mod flow;
pub mod deps;
pub mod dev;
pub mod deploy;
pub mod doctor;
pub mod environments;
