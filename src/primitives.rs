//! The AES-GCM and AES-CCM primitives of the `aes-gcm` and `ccm` crates, and
//! what this library assumes of them.
//!
//! Both crates pick the block cipher, the tag length and the nonce length by
//! type parameters. The wrappers below are generic over those parameters, and
//! the `ByteWidth` trait ties each parameter type to the number of bytes it
//! stands for, so that contracts can speak of plain lengths.
use vstd::prelude::*;
use aes::cipher::{BlockCipher, BlockEncrypt, BlockSizeUser};
use aes::{Aes128, Aes192, Aes256};
use ccm::aead::generic_array::typenum::{UInt, UTerm, B0, B1};
use ccm::aead::generic_array::{ArrayLength, GenericArray};
use ccm::aead::{Aead, KeyInit, Payload};
use ccm::consts::{U10, U11, U12, U13, U14, U16, U4, U6, U7, U8, U9};

verus! {

#[verifier::external_type_specification]
#[verifier::external_body]
pub struct ExAes128(Aes128);

#[verifier::external_type_specification]
#[verifier::external_body]
pub struct ExAes192(Aes192);

#[verifier::external_type_specification]
#[verifier::external_body]
pub struct ExAes256(Aes256);

#[verifier::external_type_specification]
#[verifier::external_body]
pub struct ExUTerm(UTerm);

#[verifier::external_type_specification]
#[verifier::external_body]
pub struct ExB0(B0);

#[verifier::external_type_specification]
#[verifier::external_body]
pub struct ExB1(B1);

#[verifier::external_type_specification]
#[verifier::external_body]
#[verifier::reject_recursive_types(U)]
#[verifier::reject_recursive_types(B)]
pub struct ExUInt<U, B>(UInt<U, B>);

/// The error of the `aead` traits: a unit value that says only that the
/// operation failed.
#[verifier::external_type_specification]
#[verifier::external_body]
pub struct ExAeadError(ccm::aead::Error);

/// The number of bytes that a type parameter of the cipher crates stands for:
/// the key length of a block cipher, or the value of a type-level integer.
pub trait ByteWidth {
    spec fn bytes() -> nat;
}

impl ByteWidth for Aes128 {
    open spec fn bytes() -> nat {
        16
    }
}

impl ByteWidth for Aes192 {
    open spec fn bytes() -> nat {
        24
    }
}

impl ByteWidth for Aes256 {
    open spec fn bytes() -> nat {
        32
    }
}

impl ByteWidth for U4 {
    open spec fn bytes() -> nat {
        4
    }
}

impl ByteWidth for U6 {
    open spec fn bytes() -> nat {
        6
    }
}

impl ByteWidth for U7 {
    open spec fn bytes() -> nat {
        7
    }
}

impl ByteWidth for U8 {
    open spec fn bytes() -> nat {
        8
    }
}

impl ByteWidth for U9 {
    open spec fn bytes() -> nat {
        9
    }
}

impl ByteWidth for U10 {
    open spec fn bytes() -> nat {
        10
    }
}

impl ByteWidth for U11 {
    open spec fn bytes() -> nat {
        11
    }
}

impl ByteWidth for U12 {
    open spec fn bytes() -> nat {
        12
    }
}

impl ByteWidth for U13 {
    open spec fn bytes() -> nat {
        13
    }
}

impl ByteWidth for U14 {
    open spec fn bytes() -> nat {
        14
    }
}

impl ByteWidth for U16 {
    open spec fn bytes() -> nat {
        16
    }
}

/// Largest plaintext and associated data, in bytes, that AES-GCM accepts.
pub const GCM_MAX_LEN: u64 = 68719476736;

/// Largest message, in bytes, that AES-CCM accepts with a nonce of `iv_len`
/// bytes: the length field has `15 - iv_len` bytes.
pub open spec fn ccm_payload_limit(iv_len: nat) -> nat {
    if iv_len == 13 {
        0xffff
    } else if iv_len == 12 {
        0xff_ffff
    } else if iv_len == 11 {
        0xffff_ffff
    } else if iv_len == 10 {
        0xff_ffff_ffff
    } else if iv_len == 9 {
        0xffff_ffff_ffff
    } else if iv_len == 8 {
        0xff_ffff_ffff_ffff
    } else {
        0xffff_ffff_ffff_ffff
    }
}

/// The ciphertext followed by the 16-byte tag that AES-GCM produces under
/// `key` (its length picks AES-128, -192 or -256) and the 12-byte nonce `iv`.
pub uninterp spec fn gcm_sealed(key: Seq<u8>, iv: Seq<u8>, plaintext: Seq<u8>, aad: Seq<u8>) -> Seq<u8>;

/// What AES-GCM decryption of `sealed` (ciphertext followed by tag) yields:
/// `None` where the tag does not verify.
pub uninterp spec fn gcm_opened(key: Seq<u8>, iv: Seq<u8>, sealed: Seq<u8>, aad: Seq<u8>) -> Option<Seq<u8>>;

/// The ciphertext followed by the `tag_len`-byte tag that AES-CCM produces.
pub uninterp spec fn ccm_sealed(tag_len: nat, key: Seq<u8>, iv: Seq<u8>, plaintext: Seq<u8>, aad: Seq<u8>) -> Seq<u8>;

/// What AES-CCM decryption with a `tag_len`-byte tag of `sealed` yields:
/// `None` where the tag does not verify.
pub uninterp spec fn ccm_opened(tag_len: nat, key: Seq<u8>, iv: Seq<u8>, sealed: Seq<u8>, aad: Seq<u8>) -> Option<Seq<u8>>;

/// Relies on `AesGcm::<C, U12>::new` and `Aead::encrypt` of `aes-gcm`: the
/// result is the ciphertext, as long as the plaintext, followed by the 16-byte
/// tag; it fails only where the plaintext or the associated data is longer
/// than 2^36 bytes.
#[verifier::external_body]
pub(crate) fn gcm_seal<C: BlockCipher + BlockSizeUser<BlockSize = U16> + BlockEncrypt + KeyInit + ByteWidth>(key: &[u8], iv: &[u8], plaintext: &[u8], aad: &[u8]) -> (r: Result<Vec<u8>, ccm::aead::Error>)
    requires
        key@.len() == C::bytes(),
        iv@.len() == 12,
    ensures
        r is Ok <==> (plaintext@.len() <= GCM_MAX_LEN && aad@.len() <= GCM_MAX_LEN),
        r is Ok ==> r->Ok_0@ == gcm_sealed(key@, iv@, plaintext@, aad@),
        r is Ok ==> r->Ok_0@.len() == plaintext@.len() + 16,
{
    let cipher = aes_gcm::AesGcm::<C, U12>::new(GenericArray::from_slice(key));
    cipher.encrypt(GenericArray::from_slice(iv), Payload { msg: plaintext, aad })
}

/// Relies on `AesGcm::<C, U12>::new` and `Aead::decrypt` of `aes-gcm`: the
/// result depends on the arguments alone; it is the plaintext, 16 bytes
/// shorter than `sealed`; decryption undoes encryption under the same key,
/// nonce and associated data; it succeeds only where `sealed` is the encryption
/// of what it returns; and, the keystream being fixed by key and nonce, no other
/// message of that length has the same ciphertext.
#[verifier::external_body]
pub(crate) fn gcm_open<C: BlockCipher + BlockSizeUser<BlockSize = U16> + BlockEncrypt + KeyInit + ByteWidth>(key: &[u8], iv: &[u8], sealed: &[u8], aad: &[u8]) -> (r: Result<Vec<u8>, ccm::aead::Error>)
    requires
        key@.len() == C::bytes(),
        iv@.len() == 12,
    ensures
        r is Ok <==> gcm_opened(key@, iv@, sealed@, aad@) is Some,
        r is Ok ==> r->Ok_0@ == gcm_opened(key@, iv@, sealed@, aad@)->Some_0,
        r is Ok ==> r->Ok_0@.len() + 16 == sealed@.len(),
        forall|m: Seq<u8>|
            m.len() <= GCM_MAX_LEN && aad@.len() <= GCM_MAX_LEN && #[trigger] gcm_sealed(key@, iv@, m, aad@) == sealed@
                ==> r is Ok && r->Ok_0@ == m,
        r is Ok ==> gcm_sealed(key@, iv@, r->Ok_0@, aad@) == sealed@,
        r is Ok ==> (forall|m: Seq<u8>|
            m.len() == r->Ok_0@.len()
                && #[trigger] gcm_sealed(key@, iv@, m, aad@).subrange(0, m.len() as int) == sealed@.subrange(0, m.len() as int)
                ==> m == r->Ok_0@),
{
    let cipher = aes_gcm::AesGcm::<C, U12>::new(GenericArray::from_slice(key));
    cipher.decrypt(GenericArray::from_slice(iv), Payload { msg: sealed, aad })
}

/// Relies on `Ccm::<C, M, N>::new` and `Aead::encrypt` of `ccm`: the result is
/// the ciphertext, as long as the plaintext, followed by the `M`-byte tag; it
/// fails only where the plaintext does not fit the length field that an
/// `N`-byte nonce leaves.
#[verifier::external_body]
pub(crate) fn ccm_seal<
    C: BlockCipher + BlockSizeUser<BlockSize = U16> + BlockEncrypt + KeyInit + ByteWidth,
    M: ArrayLength<u8> + ccm::TagSize + ByteWidth,
    N: ArrayLength<u8> + ccm::NonceSize + ByteWidth,
>(key: &[u8], iv: &[u8], plaintext: &[u8], aad: &[u8]) -> (r: Result<Vec<u8>, ccm::aead::Error>)
    requires
        key@.len() == C::bytes(),
        iv@.len() == N::bytes(),
    ensures
        r is Ok <==> plaintext@.len() <= ccm_payload_limit(N::bytes()),
        r is Ok ==> r->Ok_0@ == ccm_sealed(M::bytes(), key@, iv@, plaintext@, aad@),
        r is Ok ==> r->Ok_0@.len() == plaintext@.len() + M::bytes(),
{
    let cipher = ccm::Ccm::<C, M, N>::new(GenericArray::from_slice(key));
    cipher.encrypt(GenericArray::from_slice(iv), Payload { msg: plaintext, aad })
}

/// Relies on `Ccm::<C, M, N>::new` and `Aead::decrypt` of `ccm`: the result
/// depends on the arguments alone; it is the plaintext, `M` bytes shorter than
/// `sealed`; decryption undoes encryption under the same key, nonce and
/// associated data; it succeeds only where `sealed` is the encryption of what it
/// returns; and, the keystream being fixed by key and nonce, no other message of
/// that length has the same ciphertext. The message part of `sealed` must fit
/// the nonce's length field: the keystream is applied before the length is
/// checked, and with a 32-bit counter a longer one panics.
#[verifier::external_body]
pub(crate) fn ccm_open<
    C: BlockCipher + BlockSizeUser<BlockSize = U16> + BlockEncrypt + KeyInit + ByteWidth,
    M: ArrayLength<u8> + ccm::TagSize + ByteWidth,
    N: ArrayLength<u8> + ccm::NonceSize + ByteWidth,
>(key: &[u8], iv: &[u8], sealed: &[u8], aad: &[u8]) -> (r: Result<Vec<u8>, ccm::aead::Error>)
    requires
        key@.len() == C::bytes(),
        iv@.len() == N::bytes(),
        sealed@.len() <= ccm_payload_limit(N::bytes()) + M::bytes(),
    ensures
        r is Ok <==> ccm_opened(M::bytes(), key@, iv@, sealed@, aad@) is Some,
        r is Ok ==> r->Ok_0@ == ccm_opened(M::bytes(), key@, iv@, sealed@, aad@)->Some_0,
        r is Ok ==> r->Ok_0@.len() + M::bytes() == sealed@.len(),
        forall|m: Seq<u8>|
            m.len() <= ccm_payload_limit(N::bytes()) && #[trigger] ccm_sealed(M::bytes(), key@, iv@, m, aad@) == sealed@
                ==> r is Ok && r->Ok_0@ == m,
        r is Ok ==> ccm_sealed(M::bytes(), key@, iv@, r->Ok_0@, aad@) == sealed@,
        r is Ok ==> (forall|m: Seq<u8>|
            m.len() == r->Ok_0@.len()
                && #[trigger] ccm_sealed(M::bytes(), key@, iv@, m, aad@).subrange(0, m.len() as int) == sealed@.subrange(0, m.len() as int)
                ==> m == r->Ok_0@),
{
    let cipher = ccm::Ccm::<C, M, N>::new(GenericArray::from_slice(key));
    cipher.decrypt(GenericArray::from_slice(iv), Payload { msg: sealed, aad })
}

} // verus!
