//! Benchmarks a program that a server in a container runs on request.
//!
//! The library holds every decision of the benchmark and leaves the work
//! outside to its caller: it says with which arguments to call the
//! container runtime's client and what to post to the server, and takes
//! what came back. `docker` reads the client's output, `run` carries one
//! invocation through its phases, `measure` carries a whole sweep over
//! runs and numbers of processors. `text`, `error` and `codec` serve them.

pub mod codec;
pub mod docker;
pub mod error;
pub mod measure;
pub mod run;
pub mod text;
