//! The decisions of an HTTPS probe: which client options it asks for, what it
//! posts, how it judges the server's answer and what it reports on exit.

pub mod failure;
pub mod laws;
pub mod probe;
pub mod status;
