//! Host-facing instructions of an EVM interpreter: the suspend/resume
//! protocol between an instruction handler and its host, the gas rules of
//! the state-touching instructions, and the storage-write pricing.

pub mod gas;
pub mod host;
pub mod instructions;
pub mod laws;
pub mod logs;
pub mod protocol;
pub mod resumption;
pub mod revision;
pub mod state;
pub mod topics;
pub mod word;
