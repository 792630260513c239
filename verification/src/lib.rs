//! Orchestration core for an automated Fallout 4 precombine/previs build.
//!
//! The library holds the decision logic of the pipeline: the resumable
//! eight-step state machine, log-based classification of external tool runs,
//! the scoped disable/restore plan for interfering DLLs, the archive-backend
//! abstraction over two incompatible packing tools, and the overlay-filesystem
//! file collector.  Every function here is pure: it turns observed facts
//! (directory states, log contents, file listings) into decisions and action
//! plans, and the surrounding binary performs the actual filesystem and
//! process work.

pub mod ckpe_config;
pub mod config;
pub mod filesystem;
pub mod invoker;
pub mod mo2_helper;
pub mod registry;
pub mod strutil;
pub mod tools;
pub mod utils;
pub mod validation;
pub mod workflow;
