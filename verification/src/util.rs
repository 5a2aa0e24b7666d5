//! Helpers shared by the protocol modules.

pub mod utf8;
