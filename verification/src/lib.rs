//! The decisions of a small manuscript service: which handler a request goes
//! to, what each handler answers, and the fixed settings the service runs with.
//!
//! Nothing here reads a socket or a clock. The transport hands in the method and
//! path of a request and the decoded payload, and carries out what comes back.

pub mod manuscript;
pub mod routes;
pub mod settings;
pub mod text;
