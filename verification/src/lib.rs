//! Keeps a machine signed in to a captive-portal campus network: a connectivity
//! monitor, an automatic re-authentication controller with bounded retries, and
//! the pure rules of the portal client, the settings store and the log view.

pub mod backend;
pub mod frontend;
