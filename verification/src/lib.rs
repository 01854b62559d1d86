//! A forced-command gatekeeper for SSH logins: the command a remote user asked
//! for is held against an allowlist and is run, with its arguments possibly
//! replaced, or denied.

pub mod audit;
pub mod authorizer;
pub mod conf;
pub mod laws;
pub mod session;
pub mod startup;
pub mod text;
