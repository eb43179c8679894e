//! Encrypted payloads for steganographic storage: key derivation, sealing and
//! opening of secrets, the index database's pure rules and the command model.

pub mod cli;
pub mod crypto;
pub mod db;
pub mod entry;
pub mod stego;
