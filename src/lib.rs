//! The front end of a plugin-extensible package manager: which command an
//! invocation names, where its plugin lives, what to suggest for a typo, and
//! what exit status to report.

pub mod discovery;
pub mod dispatch;
pub mod laws;
pub mod outcome;
pub mod pkgid;
pub mod registry;
pub mod suggest;
pub mod text;
pub mod transport;
