//! The endpoint layer of a small notification service: the records it
//! serves, the fixed feeds behind its read-only endpoints, the routes it
//! declares, and the order in which a server comes up.
//!
//! Everything here is plain data and decisions. Sockets, the database and
//! the JSON encoder live with the program that links this library.

pub mod feed;
pub mod greeting;
pub mod model;
pub mod routes;
pub mod startup;
