//! Passforge: an encrypted password vault.
//!
//! The library holds the vault model, the rules by which the interactive
//! front end reads its menu answers, the password generators and the sealing
//! of a vault file with a password.

pub mod text;
pub mod entry;
pub mod vault;
pub mod crypto;
pub mod generator;
pub mod menu;
pub mod session;
pub mod flow;
