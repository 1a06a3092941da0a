//! Redirects the sub-repositories of a source tree to a mirror host.
//!
//! `policy` decides, URL by URL, whether an entry moves to the mirror and
//! under which name; `rewrite` applies it to the entries of a repository;
//! `update` chooses how an entry is brought up to date; `mirror` runs the
//! whole switch as a state machine whose actions the caller performs.
//! `package` and `session` hold the small decisions of installing a tool
//! and of starting a shell in an installation.
pub mod mirror;
pub mod package;
pub mod policy;
pub mod rewrite;
pub mod session;
pub mod update;
