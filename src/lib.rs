//! Encoding and encryption of attachments for a messaging network.
//!
//! Two attachment forms are built here: an inline attachment that carries its
//! bytes together with a MIME type and a file name, and a remote attachment
//! whose payload is sealed with AES-256-GCM under a key derived by
//! HKDF-SHA256 from a fresh random secret and salt.
pub mod cat;
pub mod content;
pub mod error;
pub mod hexstr;
pub mod kdf;
pub mod nonce;
pub mod random;
pub mod seal;
