//! Mirrors alert-monitoring webhook payloads into a chat platform's
//! thread structure: the decision logic is verified here, while the
//! HTTP server and the remote chat client live outside the library.

pub mod dispatch;
pub mod locate;
pub mod model;
pub mod reconcile;
pub mod remote;
