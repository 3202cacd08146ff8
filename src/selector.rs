//! The cipher selector: turns runtime key, tag and nonce lengths into one of
//! the supported cipher configurations, or says which parameter is wrong.
use vstd::prelude::*;

verus! {

/// AES key sizes.
#[derive(Clone, Copy, Debug, PartialEq, Eq, Structural)]
pub enum KeySize {
    Aes128,
    Aes192,
    Aes256,
}

/// The two AEAD modes.
#[derive(Clone, Copy, Debug, PartialEq, Eq, Structural)]
pub enum Mode {
    Gcm,
    Ccm,
}

/// A supported cipher configuration.
#[derive(Clone, Copy, Debug, PartialEq, Eq, Structural)]
pub struct CipherConfig {
    pub mode: Mode,
    pub key_size: KeySize,
    /// Length of the authentication tag, in bytes.
    pub tag_len: u8,
    /// Length of the nonce, in bytes.
    pub iv_len: u8,
}

/// Why a call was refused. Authentication failure is not among these: it is
/// an ordinary outcome of decryption.
#[derive(Clone, Copy, Debug, PartialEq, Eq, Structural)]
pub enum AeadError {
    /// GCM was given a nonce of other than 12 bytes.
    InvalidIvLength { iv_len: usize },
    /// The key is not 16, 24 or 32 bytes long.
    InvalidKeyLength { key_len: usize },
    /// The CCM (key, tag, nonce) lengths are outside the supported matrix.
    UnsupportedParameterCombination { key_len: usize, tag_len: usize, iv_len: usize },
    /// The primitive itself failed while encrypting.
    EncryptionFailed,
}

impl KeySize {
    /// Key length in bytes.
    pub open spec fn bytes(self) -> nat {
        match self {
            KeySize::Aes128 => 16,
            KeySize::Aes192 => 24,
            KeySize::Aes256 => 32,
        }
    }

    /// Key length in bits.
    pub open spec fn bits(self) -> nat {
        8 * self.bytes()
    }
}

/// The AES variant for a key of `key_len` bytes, if there is one.
pub open spec fn key_size_for(key_len: nat) -> Option<KeySize> {
    if key_len == 16 {
        Some(KeySize::Aes128)
    } else if key_len == 24 {
        Some(KeySize::Aes192)
    } else if key_len == 32 {
        Some(KeySize::Aes256)
    } else {
        None
    }
}

/// Tag lengths that CCM supports: the even numbers from 4 to 16.
pub open spec fn is_ccm_tag_len(tag_len: nat) -> bool {
    4 <= tag_len <= 16 && tag_len % 2 == 0
}

/// Nonce lengths that CCM supports: 7 to 13.
pub open spec fn is_ccm_iv_len(iv_len: nat) -> bool {
    7 <= iv_len <= 13
}

impl CipherConfig {
    /// The configuration is one of the supported matrix.
    pub open spec fn wf(self) -> bool {
        match self.mode {
            Mode::Gcm => self.tag_len == 16 && self.iv_len == 12,
            Mode::Ccm => is_ccm_tag_len(self.tag_len as nat) && is_ccm_iv_len(self.iv_len as nat),
        }
    }
}

/// What selection for GCM yields: the nonce length is checked first, then the
/// key length.
pub open spec fn gcm_selection(key_len: usize, iv_len: usize) -> Result<CipherConfig, AeadError> {
    if iv_len != 12 {
        Err(AeadError::InvalidIvLength { iv_len })
    } else {
        match key_size_for(key_len as nat) {
            Some(k) => Ok(CipherConfig { mode: Mode::Gcm, key_size: k, tag_len: 16, iv_len: 12 }),
            None => Err(AeadError::InvalidKeyLength { key_len }),
        }
    }
}

/// What selection for CCM yields: the key length is checked first, then the
/// (tag, nonce) lengths against the supported matrix.
pub open spec fn ccm_selection(key_len: usize, tag_len: usize, iv_len: usize) -> Result<CipherConfig, AeadError> {
    match key_size_for(key_len as nat) {
        None => Err(AeadError::InvalidKeyLength { key_len }),
        Some(k) => if is_ccm_tag_len(tag_len as nat) && is_ccm_iv_len(iv_len as nat) {
            Ok(CipherConfig { mode: Mode::Ccm, key_size: k, tag_len: tag_len as u8, iv_len: iv_len as u8 })
        } else {
            Err(AeadError::UnsupportedParameterCombination { key_len, tag_len, iv_len })
        },
    }
}

/// The AES variant for a key of `key_len` bytes.
pub fn key_size_of(key_len: usize) -> (r: Option<KeySize>)
    ensures
        r == key_size_for(key_len as nat),
        r matches Some(k) ==> k.bytes() == key_len,
{
    if key_len == 16 {
        Some(KeySize::Aes128)
    } else if key_len == 24 {
        Some(KeySize::Aes192)
    } else if key_len == 32 {
        Some(KeySize::Aes256)
    } else {
        None
    }
}

/// Selects the GCM configuration for a key of `key_len` bytes and a nonce of
/// `iv_len` bytes.
pub fn select_gcm(key_len: usize, iv_len: usize) -> (r: Result<CipherConfig, AeadError>)
    ensures
        r == gcm_selection(key_len, iv_len),
        r matches Ok(c) ==> (c.wf() && c.key_size.bytes() == key_len && c.iv_len == iv_len),
{
    if iv_len != 12 {
        return Err(AeadError::InvalidIvLength { iv_len });
    }
    match key_size_of(key_len) {
        Some(k) => Ok(CipherConfig { mode: Mode::Gcm, key_size: k, tag_len: 16, iv_len: 12 }),
        None => Err(AeadError::InvalidKeyLength { key_len }),
    }
}

/// Selects the CCM configuration for a key of `key_len` bytes, a tag of
/// `tag_len` bytes and a nonce of `iv_len` bytes.
pub fn select_ccm(key_len: usize, tag_len: usize, iv_len: usize) -> (r: Result<CipherConfig, AeadError>)
    ensures
        r == ccm_selection(key_len, tag_len, iv_len),
        r matches Ok(c) ==> (c.wf() && c.mode == Mode::Ccm && c.key_size.bytes() == key_len
            && c.tag_len == tag_len && c.iv_len == iv_len),
{
    match key_size_of(key_len) {
        None => Err(AeadError::InvalidKeyLength { key_len }),
        Some(k) => {
            let tag_ok = 4 <= tag_len && tag_len <= 16 && tag_len % 2 == 0;
            let iv_ok = 7 <= iv_len && iv_len <= 13;
            if tag_ok && iv_ok {
                Ok(CipherConfig { mode: Mode::Ccm, key_size: k, tag_len: tag_len as u8, iv_len: iv_len as u8 })
            } else {
                Err(AeadError::UnsupportedParameterCombination { key_len, tag_len, iv_len })
            }
        },
    }
}

} // verus!
