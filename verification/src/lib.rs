//! Hands a terminal session over to a fresh shell that carries a newly chosen
//! AWS profile and region: the variable store, the process-table lookups and
//! the rules that order the steps of one session.

pub mod environment;
pub mod menu;
pub mod process;
pub mod session;
