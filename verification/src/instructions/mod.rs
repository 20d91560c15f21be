//! The operations on the records, one module each. Every operation takes
//! the accounts it touches as one context, checks all it demands before it
//! changes anything, and either applies in full or leaves the context as it
//! was.

pub mod conclude;
pub mod initialize;
pub mod initialize_admin;
pub mod start;
pub mod submit;
