//! Rules of a release workflow built on a long-lived release branch: which of
//! the two paths a run takes, what it asks of the working copy and of the
//! hosting service at each point, and the names and texts it hands to them.

pub mod git;
pub mod github;
pub mod release;
pub mod text;
