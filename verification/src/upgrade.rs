//! The upgrade admin: an operator-governed guard over a program's code
//! upgrades. The operator signs the keccak digest of the staged buffer's
//! contents together with the admin's nonce, binding the authorization to the
//! exact code being installed.

pub mod instruction;
pub mod processor;
pub mod state;
