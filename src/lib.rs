//! Deploys a built executable to a remote host and manages its system service.
//!
//! The library holds the logic of a deployment run: the service unit file and
//! its text form, the shell commands sent to the host and how their results are
//! classified, the state machine that orders the steps of a run, and the
//! version arithmetic of the package manifest. The transport itself (the
//! remote-shell connection, file transfer, local files) is driven from outside
//! and reports back to the state machine.
pub mod cargo_toml;
pub mod connection;
pub mod decimal;
pub mod deploy;
pub mod pwp_arguments;
pub mod remote;
pub mod service_file;
