//! Authenticated encryption with AES-GCM and AES-CCM over raw byte buffers.
//!
//! The cipher selector validates key, tag and nonce lengths against the
//! supported matrix before any cryptographic work; the executor runs the
//! selected primitive and shapes its output into ciphertext and tag, or
//! plaintext and an authenticity flag.
pub mod executor;
pub mod laws;
pub mod primitives;
pub mod selector;

pub use executor::{
    DecryptionResult, EncryptionResult, ccm_decrypt, ccm_encrypt, finish_decrypt, finish_encrypt,
    gcm_decrypt, gcm_encrypt, join_sealed,
};
pub use selector::{AeadError, CipherConfig, KeySize, Mode, select_ccm, select_gcm};
