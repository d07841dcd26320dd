//! Following HTTP redirects: the rules by which a request is replayed along a
//! chain of redirect responses, stated and proved.
//!
//! The crate holds no transport. A caller performs the sends and the reads of
//! the body, and asks the types here what to do next.

pub mod body;
pub mod client;
pub mod error;
pub mod future;
pub mod headers;
pub mod laws;
pub mod machine;
pub mod uri;
