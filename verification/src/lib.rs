//! A small library for browser-style UI components that issue at most one
//! outstanding network request at a time.
//!
//! The heart of the library is a reducer: a pure transition function from a
//! component's model and one intent (a field edit, a triggered action, or a
//! request settlement) to the next model, together with a re-render flag and
//! a dispatch decision. The single-flight guard — a trigger while a request
//! is outstanding is swallowed — is proved, as are the bookkeeping rules for
//! responses and errors.

pub mod flight;
pub mod json;
pub mod ping;
pub mod request;
pub mod signup;
pub mod state;
