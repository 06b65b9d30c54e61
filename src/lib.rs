//! A small front end for a container runtime: it validates the image
//! reference given on the command line, generates container names, builds
//! the runtime's `pull` and `run` argument vectors and turns what the
//! runtime reported into a typed outcome.
//!
//! Spawning the runtime process is left to the caller; everything that
//! decides what to run and what its result means is verified here.
pub mod config;
pub mod naming;
pub mod runtime;

pub use config::Config;
pub use naming::{container_name, generate_random_name, NAME_SUFFIX_LEN};
pub use runtime::{outcome, runtime_program_name, Docker, ExecutionResult, Operation, RuntimeError};
