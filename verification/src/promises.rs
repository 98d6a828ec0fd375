//! What the service promises to whoever calls it: laws on what calls return, and on how the
//! results of several calls belong together.

pub mod calls;
pub mod connections;
pub mod endpoints;
pub mod messages;
pub mod texts;
pub mod windows;
