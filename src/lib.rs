//! Keeps a remote development host's build credential fresh over one multiplexed SSH session.
//!
//! The library decides and builds; the program around it runs the processes. It holds the
//! socket policy, the command lines given to `ssh`, the session's teardown, the verdict of the
//! credential helper's probe and the choices of a sync run, each with a verified contract.

pub mod argv;
pub mod config;
pub mod probe;
pub mod ssh_mux;
pub mod sync;
pub mod user_socket;

pub use config::{infer_create_socket, resolve_create_socket};
pub use ssh_mux::{CreateSocket, SshMux, TempSocket};
pub use user_socket::has_user_socket;
