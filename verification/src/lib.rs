//! The decisions of a CORS proxy that fetches whatever its caller names.
//!
//! A page asks the proxy for a target, the proxy vets the target, fetches it
//! and hands the answer back with the headers that let the page read it. This
//! crate holds what the proxy decides along the way: which targets are refused
//! and why, which headers travel in either direction, and what a failure is
//! answered with. Sockets, name lookups and the HTTP server stay with the
//! caller, who performs what the functions here ask for and reports back.

pub mod address;
pub mod client;
pub mod error;
pub mod headers;
pub mod routes;
pub mod ssrf;
pub mod target;
