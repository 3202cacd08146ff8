//! The AEAD executor: runs the selected primitive and shapes its output.
use vstd::prelude::*;
use aes::{Aes128, Aes192, Aes256};
use ccm::aead::generic_array::ArrayLength;
use ccm::consts::{U10, U11, U12, U13, U14, U16, U4, U6, U7, U8, U9};
use crate::primitives::{
    ByteWidth, GCM_MAX_LEN, ccm_open, ccm_opened, ccm_payload_limit, ccm_seal, ccm_sealed,
    gcm_open, gcm_opened, gcm_seal, gcm_sealed,
};
use crate::selector::{
    AeadError, CipherConfig, KeySize, Mode, ccm_selection, gcm_selection, is_ccm_iv_len,
    select_ccm, select_gcm,
};

verus! {

/// Ciphertext and authentication tag of one encryption.
pub struct EncryptionResult {
    pub ciphertext: Vec<u8>,
    pub auth_tag: Vec<u8>,
}

/// Outcome of one decryption. Where the tag does not verify, `auth_ok` is
/// false and `plaintext` is empty.
pub struct DecryptionResult {
    pub plaintext: Vec<u8>,
    pub auth_ok: bool,
}

impl View for EncryptionResult {
    type V = (Seq<u8>, Seq<u8>);

    open spec fn view(&self) -> (Seq<u8>, Seq<u8>) {
        (self.ciphertext@, self.auth_tag@)
    }
}

impl View for DecryptionResult {
    type V = (Seq<u8>, bool);

    open spec fn view(&self) -> (Seq<u8>, bool) {
        (self.plaintext@, self.auth_ok)
    }
}

pub open spec fn encryption_view(r: Result<EncryptionResult, AeadError>) -> Result<(Seq<u8>, Seq<u8>), AeadError> {
    match r {
        Ok(e) => Ok(e@),
        Err(e) => Err(e),
    }
}

pub open spec fn decryption_view(r: Result<DecryptionResult, AeadError>) -> Result<(Seq<u8>, bool), AeadError> {
    match r {
        Ok(d) => Ok(d@),
        Err(e) => Err(e),
    }
}

/// What a primitive returned: the bytes, or `None` where it failed.
pub open spec fn primitive_view(r: Result<Vec<u8>, ccm::aead::Error>) -> Option<Seq<u8>> {
    match r {
        Ok(v) => Some(v@),
        Err(_) => None,
    }
}

/// A combined buffer cut into the first `pt_len` bytes and the rest.
pub open spec fn split_sealed(sealed: Seq<u8>, pt_len: nat) -> (Seq<u8>, Seq<u8>) {
    (sealed.subrange(0, pt_len as int), sealed.subrange(pt_len as int, sealed.len() as int))
}

/// The encryption result for what the primitive returned: its output cut into
/// ciphertext and tag where it has the expected length, `EncryptionFailed`
/// where the primitive failed or returned anything else.
pub open spec fn split_outcome(sealed: Option<Seq<u8>>, pt_len: nat, tag_len: nat) -> Result<(Seq<u8>, Seq<u8>), AeadError> {
    match sealed {
        Some(s) => if s.len() == pt_len + tag_len {
            Ok(split_sealed(s, pt_len))
        } else {
            Err(AeadError::EncryptionFailed)
        },
        None => Err(AeadError::EncryptionFailed),
    }
}

/// The decryption result for what the primitive returned: the plaintext and
/// `true`, or nothing and `false`.
pub open spec fn open_outcome(opened: Option<Seq<u8>>) -> (Seq<u8>, bool) {
    match opened {
        Some(p) => (p, true),
        None => (Seq::empty(), false),
    }
}

pub open spec fn gcm_within_limits(pt_len: nat, aad_len: nat) -> bool {
    pt_len <= GCM_MAX_LEN && aad_len <= GCM_MAX_LEN
}

/// What `gcm_encrypt` returns.
pub open spec fn gcm_encryption(key: Seq<u8>, iv: Seq<u8>, pt: Seq<u8>, aad: Seq<u8>) -> Result<(Seq<u8>, Seq<u8>), AeadError> {
    match gcm_selection(key.len() as usize, iv.len() as usize) {
        Err(e) => Err(e),
        Ok(_) => split_outcome(
            if gcm_within_limits(pt.len(), aad.len()) { Some(gcm_sealed(key, iv, pt, aad)) } else { None },
            pt.len(),
            16,
        ),
    }
}

/// Everything `gcm_encrypt` states of its result `r`.
pub open spec fn gcm_encrypt_ensures(key: Seq<u8>, iv: Seq<u8>, pt: Seq<u8>, aad: Seq<u8>, r: Result<(Seq<u8>, Seq<u8>), AeadError>) -> bool {
    &&& r == gcm_encryption(key, iv, pt, aad)
    &&& (gcm_selection(key.len() as usize, iv.len() as usize) is Ok && gcm_within_limits(pt.len(), aad.len()))
        ==> gcm_sealed(key, iv, pt, aad).len() == pt.len() + 16
}

/// `p` is a message whose AES-GCM encryption is `sealed`, and the only one of
/// its length whose ciphertext is the first `p.len()` bytes of `sealed`.
pub open spec fn gcm_genuine(key: Seq<u8>, iv: Seq<u8>, aad: Seq<u8>, sealed: Seq<u8>, p: Seq<u8>) -> bool {
    &&& gcm_sealed(key, iv, p, aad) == sealed
    &&& forall|m: Seq<u8>|
        m.len() == p.len()
            && #[trigger] gcm_sealed(key, iv, m, aad).subrange(0, m.len() as int) == sealed.subrange(0, m.len() as int)
            ==> m == p
}

/// `p` is a message whose AES-CCM encryption with a `tag_len`-byte tag is
/// `sealed`, and the only one of its length whose ciphertext is the first
/// `p.len()` bytes of `sealed`.
pub open spec fn ccm_genuine(tag_len: nat, key: Seq<u8>, iv: Seq<u8>, aad: Seq<u8>, sealed: Seq<u8>, p: Seq<u8>) -> bool {
    &&& ccm_sealed(tag_len, key, iv, p, aad) == sealed
    &&& forall|m: Seq<u8>|
        m.len() == p.len()
            && #[trigger] ccm_sealed(tag_len, key, iv, m, aad).subrange(0, m.len() as int) == sealed.subrange(0, m.len() as int)
            ==> m == p
}

/// What `gcm_decrypt` returns.
pub open spec fn gcm_decryption(key: Seq<u8>, iv: Seq<u8>, ct: Seq<u8>, aad: Seq<u8>, tag: Seq<u8>) -> Result<(Seq<u8>, bool), AeadError> {
    match gcm_selection(key.len() as usize, iv.len() as usize) {
        Err(e) => Err(e),
        Ok(_) => Ok(open_outcome(gcm_opened(key, iv, ct + tag, aad))),
    }
}

/// Everything `gcm_decrypt` states of its result `r`: it is determined by the
/// arguments, it recovers any message whose encryption is `ct` and `tag`, and
/// what it accepts is genuine.
pub open spec fn gcm_decrypt_ensures(key: Seq<u8>, iv: Seq<u8>, ct: Seq<u8>, aad: Seq<u8>, tag: Seq<u8>, r: Result<(Seq<u8>, bool), AeadError>) -> bool {
    &&& r == gcm_decryption(key, iv, ct, aad, tag)
    &&& forall|m: Seq<u8>|
        gcm_selection(key.len() as usize, iv.len() as usize) is Ok && gcm_within_limits(m.len(), aad.len())
            && #[trigger] gcm_sealed(key, iv, m, aad) == ct + tag ==> r == Ok::<(Seq<u8>, bool), AeadError>((m, true))
    &&& (r is Ok && r->Ok_0.1) ==> r->Ok_0.0.len() + 16 == ct.len() + tag.len()
    &&& (r is Ok && r->Ok_0.1) ==> gcm_genuine(key, iv, aad, ct + tag, r->Ok_0.0)
}

/// What `ccm_encrypt` returns.
pub open spec fn ccm_encryption(key: Seq<u8>, iv: Seq<u8>, pt: Seq<u8>, aad: Seq<u8>, tag_len: u8) -> Result<(Seq<u8>, Seq<u8>), AeadError> {
    match ccm_selection(key.len() as usize, tag_len as usize, iv.len() as usize) {
        Err(e) => Err(e),
        Ok(_) => split_outcome(
            if pt.len() <= ccm_payload_limit(iv.len()) { Some(ccm_sealed(tag_len as nat, key, iv, pt, aad)) } else { None },
            pt.len(),
            tag_len as nat,
        ),
    }
}

/// Everything `ccm_encrypt` states of its result `r`.
pub open spec fn ccm_encrypt_ensures(key: Seq<u8>, iv: Seq<u8>, pt: Seq<u8>, aad: Seq<u8>, tag_len: u8, r: Result<(Seq<u8>, Seq<u8>), AeadError>) -> bool {
    &&& r == ccm_encryption(key, iv, pt, aad, tag_len)
    &&& (ccm_selection(key.len() as usize, tag_len as usize, iv.len() as usize) is Ok && pt.len() <= ccm_payload_limit(iv.len()))
        ==> ccm_sealed(tag_len as nat, key, iv, pt, aad).len() == pt.len() + tag_len
}

/// What `ccm_decrypt` returns; the tag length is that of `tag`. A ciphertext
/// longer than the nonce's length field allows never authenticates.
pub open spec fn ccm_decryption(key: Seq<u8>, iv: Seq<u8>, ct: Seq<u8>, aad: Seq<u8>, tag: Seq<u8>) -> Result<(Seq<u8>, bool), AeadError> {
    match ccm_selection(key.len() as usize, tag.len() as usize, iv.len() as usize) {
        Err(e) => Err(e),
        Ok(_) => if ct.len() > ccm_payload_limit(iv.len()) {
            Ok(open_outcome(None))
        } else {
            Ok(open_outcome(ccm_opened(tag.len(), key, iv, ct + tag, aad)))
        },
    }
}

/// Everything `ccm_decrypt` states of its result `r`: it is determined by the
/// arguments, it recovers any message whose encryption is `ct` and `tag`, and
/// what it accepts is genuine.
pub open spec fn ccm_decrypt_ensures(key: Seq<u8>, iv: Seq<u8>, ct: Seq<u8>, aad: Seq<u8>, tag: Seq<u8>, r: Result<(Seq<u8>, bool), AeadError>) -> bool {
    &&& r == ccm_decryption(key, iv, ct, aad, tag)
    &&& forall|m: Seq<u8>|
        ccm_selection(key.len() as usize, tag.len() as usize, iv.len() as usize) is Ok
            && m.len() <= ccm_payload_limit(iv.len()) && m.len() == ct.len()
            && #[trigger] ccm_sealed(tag.len(), key, iv, m, aad) == ct + tag ==> r == Ok::<(Seq<u8>, bool), AeadError>((m, true))
    &&& (r is Ok && r->Ok_0.1) ==> r->Ok_0.0.len() == ct.len()
    &&& (r is Ok && r->Ok_0.1) ==> ccm_genuine(tag.len(), key, iv, aad, ct + tag, r->Ok_0.0)
}

/// Cuts what the primitive returned into ciphertext and tag, or reports the
/// primitive's failure as `EncryptionFailed`.
pub fn finish_encrypt(sealed: Result<Vec<u8>, ccm::aead::Error>, pt_len: usize, tag_len: usize) -> (r: Result<EncryptionResult, AeadError>)
    ensures
        encryption_view(r) == split_outcome(primitive_view(sealed), pt_len as nat, tag_len as nat),
{
    match sealed {
        Ok(mut combined) => {
            if combined.len() >= pt_len && combined.len() - pt_len == tag_len {
                let tag = combined.split_off(pt_len);
                Ok(EncryptionResult { ciphertext: combined, auth_tag: tag })
            } else {
                Err(AeadError::EncryptionFailed)
            }
        },
        Err(_) => Err(AeadError::EncryptionFailed),
    }
}

/// Turns what the primitive returned into a decryption result; a failed
/// verification yields no bytes at all.
pub fn finish_decrypt(opened: Result<Vec<u8>, ccm::aead::Error>) -> (r: DecryptionResult)
    ensures
        r@ == open_outcome(primitive_view(opened)),
{
    match opened {
        Ok(plaintext) => DecryptionResult { plaintext, auth_ok: true },
        Err(_) => DecryptionResult { plaintext: Vec::new(), auth_ok: false },
    }
}

/// The ciphertext followed by the tag, as the primitives take it.
pub fn join_sealed(ciphertext: &[u8], auth_tag: &[u8]) -> (r: Vec<u8>)
    ensures
        r@ == ciphertext@ + auth_tag@,
{
    let mut r: Vec<u8> = Vec::new();
    for i in 0..ciphertext.len()
        invariant
            r@ == ciphertext@.subrange(0, i as int),
    {
        r.push(ciphertext[i]);
        assert(r@ =~= ciphertext@.subrange(0, i + 1));
    }
    assert(r@ =~= ciphertext@);
    for i in 0..auth_tag.len()
        invariant
            r@ == ciphertext@ + auth_tag@.subrange(0, i as int),
    {
        r.push(auth_tag[i]);
        assert(r@ =~= ciphertext@ + auth_tag@.subrange(0, i + 1));
    }
    assert(r@ =~= ciphertext@ + auth_tag@);
    r
}

/// Largest message, in bytes, that AES-CCM accepts with a nonce of `iv_len`
/// bytes.
fn ccm_payload_limit_of(iv_len: usize) -> (r: u64)
    requires
        is_ccm_iv_len(iv_len as nat),
    ensures
        r == ccm_payload_limit(iv_len as nat),
{
    match iv_len {
        13 => 0xffff,
        12 => 0xff_ffff,
        11 => 0xffff_ffff,
        10 => 0xff_ffff_ffff,
        9 => 0xffff_ffff_ffff,
        8 => 0xff_ffff_ffff_ffff,
        _ => 0xffff_ffff_ffff_ffff,
    }
}

/// AES-GCM encryption with the AES variant of `key_size`.
fn gcm_seal_with(key_size: KeySize, key: &[u8], iv: &[u8], pt: &[u8], aad: &[u8]) -> (r: Result<Vec<u8>, ccm::aead::Error>)
    requires
        key@.len() == key_size.bytes(),
        iv@.len() == 12,
    ensures
        r is Ok <==> gcm_within_limits(pt@.len(), aad@.len()),
        r is Ok ==> (r->Ok_0@ == gcm_sealed(key@, iv@, pt@, aad@) && r->Ok_0@.len() == pt@.len() + 16),
{
    match key_size {
        KeySize::Aes128 => gcm_seal::<Aes128>(key, iv, pt, aad),
        KeySize::Aes192 => gcm_seal::<Aes192>(key, iv, pt, aad),
        KeySize::Aes256 => gcm_seal::<Aes256>(key, iv, pt, aad),
    }
}

/// AES-GCM decryption with the AES variant of `key_size`.
fn gcm_open_with(key_size: KeySize, key: &[u8], iv: &[u8], sealed: &[u8], aad: &[u8]) -> (r: Result<Vec<u8>, ccm::aead::Error>)
    requires
        key@.len() == key_size.bytes(),
        iv@.len() == 12,
    ensures
        primitive_view(r) == gcm_opened(key@, iv@, sealed@, aad@),
        forall|m: Seq<u8>|
            gcm_within_limits(m.len(), aad@.len()) && #[trigger] gcm_sealed(key@, iv@, m, aad@) == sealed@
                ==> primitive_view(r) == Some(m),
        r is Ok ==> r->Ok_0@.len() + 16 == sealed@.len(),
        r is Ok ==> gcm_genuine(key@, iv@, aad@, sealed@, r->Ok_0@),
{
    match key_size {
        KeySize::Aes128 => gcm_open::<Aes128>(key, iv, sealed, aad),
        KeySize::Aes192 => gcm_open::<Aes192>(key, iv, sealed, aad),
        KeySize::Aes256 => gcm_open::<Aes256>(key, iv, sealed, aad),
    }
}

/// AES-CCM encryption with the AES variant of `key_size`.
fn ccm_seal_by_key<
    M: ArrayLength<u8> + ccm::TagSize + ByteWidth,
    N: ArrayLength<u8> + ccm::NonceSize + ByteWidth,
>(key_size: KeySize, key: &[u8], iv: &[u8], pt: &[u8], aad: &[u8]) -> (r: Result<Vec<u8>, ccm::aead::Error>)
    requires
        key@.len() == key_size.bytes(),
        iv@.len() == N::bytes(),
    ensures
        r is Ok <==> pt@.len() <= ccm_payload_limit(iv@.len()),
        r is Ok ==> (r->Ok_0@ == ccm_sealed(M::bytes(), key@, iv@, pt@, aad@) && r->Ok_0@.len() == pt@.len() + M::bytes()),
{
    match key_size {
        KeySize::Aes128 => ccm_seal::<Aes128, M, N>(key, iv, pt, aad),
        KeySize::Aes192 => ccm_seal::<Aes192, M, N>(key, iv, pt, aad),
        KeySize::Aes256 => ccm_seal::<Aes256, M, N>(key, iv, pt, aad),
    }
}

/// AES-CCM encryption with the nonce length of `iv`.
fn ccm_seal_by_nonce<M: ArrayLength<u8> + ccm::TagSize + ByteWidth>(key_size: KeySize, key: &[u8], iv: &[u8], pt: &[u8], aad: &[u8]) -> (r: Result<Vec<u8>, ccm::aead::Error>)
    requires
        key@.len() == key_size.bytes(),
        is_ccm_iv_len(iv@.len()),
    ensures
        r is Ok <==> pt@.len() <= ccm_payload_limit(iv@.len()),
        r is Ok ==> (r->Ok_0@ == ccm_sealed(M::bytes(), key@, iv@, pt@, aad@) && r->Ok_0@.len() == pt@.len() + M::bytes()),
{
    match iv.len() {
        7 => ccm_seal_by_key::<M, U7>(key_size, key, iv, pt, aad),
        8 => ccm_seal_by_key::<M, U8>(key_size, key, iv, pt, aad),
        9 => ccm_seal_by_key::<M, U9>(key_size, key, iv, pt, aad),
        10 => ccm_seal_by_key::<M, U10>(key_size, key, iv, pt, aad),
        11 => ccm_seal_by_key::<M, U11>(key_size, key, iv, pt, aad),
        12 => ccm_seal_by_key::<M, U12>(key_size, key, iv, pt, aad),
        _ => ccm_seal_by_key::<M, U13>(key_size, key, iv, pt, aad),
    }
}

/// AES-CCM encryption in the configuration `cfg`.
fn ccm_seal_with(cfg: CipherConfig, key: &[u8], iv: &[u8], pt: &[u8], aad: &[u8]) -> (r: Result<Vec<u8>, ccm::aead::Error>)
    requires
        cfg.wf(),
        cfg.mode == Mode::Ccm,
        key@.len() == cfg.key_size.bytes(),
        iv@.len() == cfg.iv_len,
    ensures
        r is Ok <==> pt@.len() <= ccm_payload_limit(iv@.len()),
        r is Ok ==> (r->Ok_0@ == ccm_sealed(cfg.tag_len as nat, key@, iv@, pt@, aad@) && r->Ok_0@.len() == pt@.len() + cfg.tag_len as nat),
{
    match cfg.tag_len {
        4 => ccm_seal_by_nonce::<U4>(cfg.key_size, key, iv, pt, aad),
        6 => ccm_seal_by_nonce::<U6>(cfg.key_size, key, iv, pt, aad),
        8 => ccm_seal_by_nonce::<U8>(cfg.key_size, key, iv, pt, aad),
        10 => ccm_seal_by_nonce::<U10>(cfg.key_size, key, iv, pt, aad),
        12 => ccm_seal_by_nonce::<U12>(cfg.key_size, key, iv, pt, aad),
        14 => ccm_seal_by_nonce::<U14>(cfg.key_size, key, iv, pt, aad),
        _ => ccm_seal_by_nonce::<U16>(cfg.key_size, key, iv, pt, aad),
    }
}

/// AES-CCM decryption with the AES variant of `key_size`.
fn ccm_open_by_key<
    M: ArrayLength<u8> + ccm::TagSize + ByteWidth,
    N: ArrayLength<u8> + ccm::NonceSize + ByteWidth,
>(key_size: KeySize, key: &[u8], iv: &[u8], sealed: &[u8], aad: &[u8]) -> (r: Result<Vec<u8>, ccm::aead::Error>)
    requires
        key@.len() == key_size.bytes(),
        iv@.len() == N::bytes(),
        sealed@.len() <= ccm_payload_limit(iv@.len()) + M::bytes(),
    ensures
        primitive_view(r) == ccm_opened(M::bytes(), key@, iv@, sealed@, aad@),
        forall|m: Seq<u8>|
            m.len() <= ccm_payload_limit(iv@.len()) && #[trigger] ccm_sealed(M::bytes(), key@, iv@, m, aad@) == sealed@
                ==> primitive_view(r) == Some(m),
        r is Ok ==> r->Ok_0@.len() + M::bytes() == sealed@.len(),
        r is Ok ==> ccm_genuine(M::bytes(), key@, iv@, aad@, sealed@, r->Ok_0@),
{
    match key_size {
        KeySize::Aes128 => ccm_open::<Aes128, M, N>(key, iv, sealed, aad),
        KeySize::Aes192 => ccm_open::<Aes192, M, N>(key, iv, sealed, aad),
        KeySize::Aes256 => ccm_open::<Aes256, M, N>(key, iv, sealed, aad),
    }
}

/// AES-CCM decryption with the nonce length of `iv`.
fn ccm_open_by_nonce<M: ArrayLength<u8> + ccm::TagSize + ByteWidth>(key_size: KeySize, key: &[u8], iv: &[u8], sealed: &[u8], aad: &[u8]) -> (r: Result<Vec<u8>, ccm::aead::Error>)
    requires
        key@.len() == key_size.bytes(),
        is_ccm_iv_len(iv@.len()),
        sealed@.len() <= ccm_payload_limit(iv@.len()) + M::bytes(),
    ensures
        primitive_view(r) == ccm_opened(M::bytes(), key@, iv@, sealed@, aad@),
        forall|m: Seq<u8>|
            m.len() <= ccm_payload_limit(iv@.len()) && #[trigger] ccm_sealed(M::bytes(), key@, iv@, m, aad@) == sealed@
                ==> primitive_view(r) == Some(m),
        r is Ok ==> r->Ok_0@.len() + M::bytes() == sealed@.len(),
        r is Ok ==> ccm_genuine(M::bytes(), key@, iv@, aad@, sealed@, r->Ok_0@),
{
    match iv.len() {
        7 => ccm_open_by_key::<M, U7>(key_size, key, iv, sealed, aad),
        8 => ccm_open_by_key::<M, U8>(key_size, key, iv, sealed, aad),
        9 => ccm_open_by_key::<M, U9>(key_size, key, iv, sealed, aad),
        10 => ccm_open_by_key::<M, U10>(key_size, key, iv, sealed, aad),
        11 => ccm_open_by_key::<M, U11>(key_size, key, iv, sealed, aad),
        12 => ccm_open_by_key::<M, U12>(key_size, key, iv, sealed, aad),
        _ => ccm_open_by_key::<M, U13>(key_size, key, iv, sealed, aad),
    }
}

/// AES-CCM decryption in the configuration `cfg`.
fn ccm_open_with(cfg: CipherConfig, key: &[u8], iv: &[u8], sealed: &[u8], aad: &[u8]) -> (r: Result<Vec<u8>, ccm::aead::Error>)
    requires
        cfg.wf(),
        cfg.mode == Mode::Ccm,
        key@.len() == cfg.key_size.bytes(),
        iv@.len() == cfg.iv_len,
        sealed@.len() <= ccm_payload_limit(iv@.len()) + cfg.tag_len,
    ensures
        primitive_view(r) == ccm_opened(cfg.tag_len as nat, key@, iv@, sealed@, aad@),
        forall|m: Seq<u8>|
            m.len() <= ccm_payload_limit(iv@.len()) && #[trigger] ccm_sealed(cfg.tag_len as nat, key@, iv@, m, aad@) == sealed@
                ==> primitive_view(r) == Some(m),
        r is Ok ==> r->Ok_0@.len() + cfg.tag_len as nat == sealed@.len(),
        r is Ok ==> ccm_genuine(cfg.tag_len as nat, key@, iv@, aad@, sealed@, r->Ok_0@),
{
    match cfg.tag_len {
        4 => ccm_open_by_nonce::<U4>(cfg.key_size, key, iv, sealed, aad),
        6 => ccm_open_by_nonce::<U6>(cfg.key_size, key, iv, sealed, aad),
        8 => ccm_open_by_nonce::<U8>(cfg.key_size, key, iv, sealed, aad),
        10 => ccm_open_by_nonce::<U10>(cfg.key_size, key, iv, sealed, aad),
        12 => ccm_open_by_nonce::<U12>(cfg.key_size, key, iv, sealed, aad),
        14 => ccm_open_by_nonce::<U14>(cfg.key_size, key, iv, sealed, aad),
        _ => ccm_open_by_nonce::<U16>(cfg.key_size, key, iv, sealed, aad),
    }
}

/// AES-GCM encryption with a 12-byte nonce and a 16-byte tag; the key length
/// picks AES-128, -192 or -256.
pub fn gcm_encrypt(key: &[u8], iv: &[u8], plaintext: &[u8], aad: &[u8]) -> (r: Result<EncryptionResult, AeadError>)
    ensures
        gcm_encrypt_ensures(key@, iv@, plaintext@, aad@, encryption_view(r)),
        r matches Ok(e) ==> (e.ciphertext@.len() == plaintext@.len() && e.auth_tag@.len() == 16),
{
    let cfg = match select_gcm(key.len(), iv.len()) {
        Ok(c) => c,
        Err(e) => return Err(e),
    };
    let sealed = gcm_seal_with(cfg.key_size, key, iv, plaintext, aad);
    finish_encrypt(sealed, plaintext.len(), 16)
}

/// AES-GCM decryption of `ciphertext` with the tag `auth_tag`.
pub fn gcm_decrypt(key: &[u8], iv: &[u8], ciphertext: &[u8], aad: &[u8], auth_tag: &[u8]) -> (r: Result<DecryptionResult, AeadError>)
    ensures
        gcm_decrypt_ensures(key@, iv@, ciphertext@, aad@, auth_tag@, decryption_view(r)),
        r matches Ok(d) ==> (!d.auth_ok ==> d.plaintext@.len() == 0),
{
    let cfg = match select_gcm(key.len(), iv.len()) {
        Ok(c) => c,
        Err(e) => return Err(e),
    };
    let sealed = join_sealed(ciphertext, auth_tag);
    let opened = gcm_open_with(cfg.key_size, key, iv, sealed.as_slice(), aad);
    Ok(finish_decrypt(opened))
}

/// AES-CCM encryption with a tag of `auth_tag_len` bytes; the key, tag and
/// nonce lengths must be one of the supported matrix.
pub fn ccm_encrypt(key: &[u8], iv: &[u8], plaintext: &[u8], aad: &[u8], auth_tag_len: u8) -> (r: Result<EncryptionResult, AeadError>)
    ensures
        ccm_encrypt_ensures(key@, iv@, plaintext@, aad@, auth_tag_len, encryption_view(r)),
        r matches Ok(e) ==> (e.ciphertext@.len() == plaintext@.len() && e.auth_tag@.len() == auth_tag_len),
{
    let cfg = match select_ccm(key.len(), auth_tag_len as usize, iv.len()) {
        Ok(c) => c,
        Err(e) => return Err(e),
    };
    let sealed = ccm_seal_with(cfg, key, iv, plaintext, aad);
    finish_encrypt(sealed, plaintext.len(), auth_tag_len as usize)
}

/// AES-CCM decryption of `ciphertext`; the tag length is that of `auth_tag`.
pub fn ccm_decrypt(key: &[u8], iv: &[u8], ciphertext: &[u8], aad: &[u8], auth_tag: &[u8]) -> (r: Result<DecryptionResult, AeadError>)
    ensures
        ccm_decrypt_ensures(key@, iv@, ciphertext@, aad@, auth_tag@, decryption_view(r)),
        r matches Ok(d) ==> (!d.auth_ok ==> d.plaintext@.len() == 0),
{
    let cfg = match select_ccm(key.len(), auth_tag.len(), iv.len()) {
        Ok(c) => c,
        Err(e) => return Err(e),
    };
    if ciphertext.len() as u64 > ccm_payload_limit_of(iv.len()) {
        return Ok(DecryptionResult { plaintext: Vec::new(), auth_ok: false });
    }
    let sealed = join_sealed(ciphertext, auth_tag);
    let opened = ccm_open_with(cfg, key, iv, sealed.as_slice(), aad);
    Ok(finish_decrypt(opened))
}

} // verus!
