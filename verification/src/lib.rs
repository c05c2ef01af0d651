//! Bounded-concurrency engine that runs one invite workflow per identity.
//!
//! A worklist pairs identities with proxies. Each pair is one task: build
//! a client bound to the proxy, check that the proxy answers, have a
//! challenge solved by polling a solving service, and submit. The
//! dispatcher lets only so many tasks run at once; a task that fails ends
//! alone.
//!
//! Nothing here touches the network. The tasks and the dispatcher are
//! state machines that say what is to be done next and take in what came
//! of it; a driver outside this library does the sending, the sleeping
//! and the logging.

pub mod agent;
pub mod chance;
pub mod client;
pub mod dispatch;
pub mod dispatch_model;
pub mod errors;
pub mod events;
pub mod headers;
pub mod json;
pub mod outcome;
pub mod records;
pub mod replies;
pub mod session;
pub mod solver;
pub mod solver_runs;
pub mod task;
pub mod text;
pub mod worker;
pub mod worker_runs;
