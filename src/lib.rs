//! Lifecycle of the process-wide xmlsec context and the table of
//! algorithm identifiers it resolves.
pub mod backend;
pub mod method;
pub mod xmlsec;
