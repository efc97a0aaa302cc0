//! Live-reload core of a document preview: which filesystem events count as an
//! edit, how a watched path is encoded into a notification, how sessions per
//! channel are started, restarted and stopped, and how pushed content from the
//! network listener is republished.

pub mod channel;
pub mod escape;
pub mod filter;
pub mod notification;
pub mod session;
pub mod supervisor;
pub mod ingest;
pub mod cli;
