//! Properties that relate several calls of the public operations, stated over
//! what each operation's contract says of its result.
use vstd::prelude::*;
use crate::executor::{
    ccm_decrypt_ensures, ccm_encrypt_ensures, gcm_decrypt_ensures, gcm_encrypt_ensures,
    gcm_within_limits,
};
use crate::primitives::{ccm_payload_limit, ccm_sealed, gcm_sealed};
use crate::selector::{AeadError, is_ccm_iv_len, is_ccm_tag_len, key_size_for};

verus! {

/// For every supported GCM configuration and every plaintext and associated
/// data within the length limits, encryption succeeds, and decrypting its
/// ciphertext and tag under the same key, nonce and associated data gives back
/// the plaintext with `auth_ok` set.
pub proof fn gcm_round_trip(
    key: Seq<u8>,
    iv: Seq<u8>,
    pt: Seq<u8>,
    aad: Seq<u8>,
    enc: Result<(Seq<u8>, Seq<u8>), AeadError>,
    dec: Result<(Seq<u8>, bool), AeadError>,
)
    requires
        key_size_for(key.len()) is Some,
        iv.len() == 12,
        gcm_within_limits(pt.len(), aad.len()),
        gcm_encrypt_ensures(key, iv, pt, aad, enc),
        gcm_decrypt_ensures(key, iv, enc->Ok_0.0, aad, enc->Ok_0.1, dec),
    ensures
        enc is Ok,
        dec == Ok::<(Seq<u8>, bool), AeadError>((pt, true)),
{
    let sealed = gcm_sealed(key, iv, pt, aad);
    assert(enc->Ok_0.0 + enc->Ok_0.1 =~= sealed);
}

/// For every supported CCM configuration and every plaintext that fits the
/// nonce's length field, encryption succeeds, and decrypting its ciphertext
/// and tag under the same key, nonce and associated data gives back the
/// plaintext with `auth_ok` set.
pub proof fn ccm_round_trip(
    key: Seq<u8>,
    iv: Seq<u8>,
    pt: Seq<u8>,
    aad: Seq<u8>,
    tag_len: u8,
    enc: Result<(Seq<u8>, Seq<u8>), AeadError>,
    dec: Result<(Seq<u8>, bool), AeadError>,
)
    requires
        key_size_for(key.len()) is Some,
        is_ccm_tag_len(tag_len as nat),
        is_ccm_iv_len(iv.len()),
        pt.len() <= ccm_payload_limit(iv.len()),
        ccm_encrypt_ensures(key, iv, pt, aad, tag_len, enc),
        ccm_decrypt_ensures(key, iv, enc->Ok_0.0, aad, enc->Ok_0.1, dec),
    ensures
        enc is Ok,
        dec == Ok::<(Seq<u8>, bool), AeadError>((pt, true)),
{
    let sealed = ccm_sealed(tag_len as nat, key, iv, pt, aad);
    assert(enc->Ok_0.1.len() == tag_len);
    assert(enc->Ok_0.0 + enc->Ok_0.1 =~= sealed);
}

/// GCM encryption is deterministic: two calls with the same key, nonce,
/// plaintext and associated data give the same ciphertext and tag, or the
/// same error.
pub proof fn gcm_encrypt_deterministic(
    key: Seq<u8>,
    iv: Seq<u8>,
    pt: Seq<u8>,
    aad: Seq<u8>,
    r1: Result<(Seq<u8>, Seq<u8>), AeadError>,
    r2: Result<(Seq<u8>, Seq<u8>), AeadError>,
)
    requires
        gcm_encrypt_ensures(key, iv, pt, aad, r1),
        gcm_encrypt_ensures(key, iv, pt, aad, r2),
    ensures
        r1 == r2,
{
}

/// CCM encryption is deterministic: two calls with the same key, nonce,
/// plaintext, associated data and tag length give the same ciphertext and
/// tag, or the same error.
pub proof fn ccm_encrypt_deterministic(
    key: Seq<u8>,
    iv: Seq<u8>,
    pt: Seq<u8>,
    aad: Seq<u8>,
    tag_len: u8,
    r1: Result<(Seq<u8>, Seq<u8>), AeadError>,
    r2: Result<(Seq<u8>, Seq<u8>), AeadError>,
)
    requires
        ccm_encrypt_ensures(key, iv, pt, aad, tag_len, r1),
        ccm_encrypt_ensures(key, iv, pt, aad, tag_len, r2),
    ensures
        r1 == r2,
{
}

/// Only the genuine tag authenticates under GCM: decrypting an encryption's
/// ciphertext with any other tag of the same length (one bit flipped, say)
/// reports `auth_ok == false` with an empty plaintext.
pub proof fn gcm_changed_tag_rejected(
    key: Seq<u8>,
    iv: Seq<u8>,
    pt: Seq<u8>,
    aad: Seq<u8>,
    other_tag: Seq<u8>,
    enc: Result<(Seq<u8>, Seq<u8>), AeadError>,
    dec: Result<(Seq<u8>, bool), AeadError>,
)
    requires
        key_size_for(key.len()) is Some,
        iv.len() == 12,
        gcm_within_limits(pt.len(), aad.len()),
        gcm_encrypt_ensures(key, iv, pt, aad, enc),
        other_tag.len() == 16,
        other_tag != enc->Ok_0.1,
        gcm_decrypt_ensures(key, iv, enc->Ok_0.0, aad, other_tag, dec),
    ensures
        dec == Ok::<(Seq<u8>, bool), AeadError>((Seq::empty(), false)),
{
    let sealed = gcm_sealed(key, iv, pt, aad);
    let ct = enc->Ok_0.0;
    let tag = enc->Ok_0.1;
    assert(ct + tag =~= sealed);
    if dec->Ok_0.1 {
        let p = dec->Ok_0.0;
        assert(sealed.subrange(0, pt.len() as int) =~= (ct + other_tag).subrange(0, pt.len() as int));
        assert(pt == p);
        assert((ct + tag).subrange(ct.len() as int, sealed.len() as int) =~= tag);
        assert((ct + other_tag).subrange(ct.len() as int, sealed.len() as int) =~= other_tag);
    }
}

/// Only the genuine tag authenticates under CCM: decrypting an encryption's
/// ciphertext with any other tag of the same length (one bit flipped, say)
/// reports `auth_ok == false` with an empty plaintext.
pub proof fn ccm_changed_tag_rejected(
    key: Seq<u8>,
    iv: Seq<u8>,
    pt: Seq<u8>,
    aad: Seq<u8>,
    tag_len: u8,
    other_tag: Seq<u8>,
    enc: Result<(Seq<u8>, Seq<u8>), AeadError>,
    dec: Result<(Seq<u8>, bool), AeadError>,
)
    requires
        key_size_for(key.len()) is Some,
        is_ccm_tag_len(tag_len as nat),
        is_ccm_iv_len(iv.len()),
        pt.len() <= ccm_payload_limit(iv.len()),
        ccm_encrypt_ensures(key, iv, pt, aad, tag_len, enc),
        other_tag.len() == tag_len,
        other_tag != enc->Ok_0.1,
        ccm_decrypt_ensures(key, iv, enc->Ok_0.0, aad, other_tag, dec),
    ensures
        dec == Ok::<(Seq<u8>, bool), AeadError>((Seq::empty(), false)),
{
    let sealed = ccm_sealed(tag_len as nat, key, iv, pt, aad);
    let ct = enc->Ok_0.0;
    let tag = enc->Ok_0.1;
    assert(ct + tag =~= sealed);
    if dec->Ok_0.1 {
        let p = dec->Ok_0.0;
        assert(sealed.subrange(0, pt.len() as int) =~= (ct + other_tag).subrange(0, pt.len() as int));
        assert(pt == p);
        assert((ct + tag).subrange(ct.len() as int, sealed.len() as int) =~= tag);
        assert((ct + other_tag).subrange(ct.len() as int, sealed.len() as int) =~= other_tag);
    }
}

} // verus!
