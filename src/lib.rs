//! Verified core of a "now playing" media bridge: snapshot types, the
//! per-connection listener registry, the diff policy, the command router and
//! the session bridge state machine that ties them together.

pub mod media;
pub mod registry;
pub mod diff;
pub mod bridge;
pub mod artwork;
pub mod server;
