use aead_native::{
    ccm_decrypt, ccm_encrypt, finish_decrypt, finish_encrypt, gcm_decrypt, gcm_encrypt,
    join_sealed, select_ccm, select_gcm, AeadError, CipherConfig, KeySize, Mode,
};

fn hex(s: &str) -> Vec<u8> {
    let s: Vec<u8> = s.bytes().filter(|b| !b.is_ascii_whitespace()).collect();
    s.chunks(2)
        .map(|p| u8::from_str_radix(std::str::from_utf8(p).unwrap(), 16).unwrap())
        .collect()
}

fn pattern(len: usize, seed: u8) -> Vec<u8> {
    (0..len).map(|i| (i as u8).wrapping_mul(31).wrapping_add(seed)).collect()
}

const KEY_LENS: [usize; 3] = [16, 24, 32];
const TAG_LENS: [u8; 7] = [4, 6, 8, 10, 12, 14, 16];

#[test]
fn gcm_rejects_bad_iv_lengths() {
    let key = [0u8; 16];
    for iv_len in [0usize, 11, 13, 16] {
        let iv = vec![0u8; iv_len];
        let r = gcm_encrypt(&key, &iv, b"hello", b"");
        assert_eq!(r.err(), Some(AeadError::InvalidIvLength { iv_len }));
        let d = gcm_decrypt(&key, &iv, b"hello", b"", &[0u8; 16]);
        assert_eq!(d.err(), Some(AeadError::InvalidIvLength { iv_len }));
    }
}

#[test]
fn gcm_iv_checked_before_key() {
    let r = gcm_encrypt(&[0u8; 5], &[0u8; 11], b"x", b"");
    assert_eq!(r.err(), Some(AeadError::InvalidIvLength { iv_len: 11 }));
}

#[test]
fn gcm_rejects_bad_key_lengths() {
    // 64, 96, 120 and 384 bits
    for key_len in [8usize, 12, 15, 48] {
        let key = vec![0u8; key_len];
        let r = gcm_encrypt(&key, &[0u8; 12], b"hello", b"");
        assert_eq!(r.err(), Some(AeadError::InvalidKeyLength { key_len }));
        let d = gcm_decrypt(&key, &[0u8; 12], b"hello", b"", &[0u8; 16]);
        assert_eq!(d.err(), Some(AeadError::InvalidKeyLength { key_len }));
    }
}

#[test]
fn ccm_matrix_boundary() {
    let key = [7u8; 16];
    assert_eq!(
        select_ccm(16, 4, 7),
        Ok(CipherConfig { mode: Mode::Ccm, key_size: KeySize::Aes128, tag_len: 4, iv_len: 7 })
    );
    let ok = ccm_encrypt(&key, &[1u8; 7], b"payload", b"aad", 4).unwrap();
    assert_eq!(ok.auth_tag.len(), 4);

    let r = ccm_encrypt(&key, &[1u8; 7], b"payload", b"aad", 5);
    assert_eq!(
        r.err(),
        Some(AeadError::UnsupportedParameterCombination { key_len: 16, tag_len: 5, iv_len: 7 })
    );
    let r = ccm_encrypt(&key, &[1u8; 14], b"payload", b"aad", 4);
    assert_eq!(
        r.err(),
        Some(AeadError::UnsupportedParameterCombination { key_len: 16, tag_len: 4, iv_len: 14 })
    );
    let r = ccm_encrypt(&key, &[1u8; 6], b"payload", b"aad", 4);
    assert!(matches!(r, Err(AeadError::UnsupportedParameterCombination { .. })));
    let r = ccm_encrypt(&key, &[1u8; 7], b"payload", b"aad", 18);
    assert!(matches!(r, Err(AeadError::UnsupportedParameterCombination { .. })));
}

#[test]
fn ccm_rejects_bad_key_length() {
    let r = ccm_encrypt(&[0u8; 20], &[0u8; 7], b"x", b"", 4);
    assert_eq!(r.err(), Some(AeadError::InvalidKeyLength { key_len: 20 }));
    let d = ccm_decrypt(&[0u8; 20], &[0u8; 7], b"x", b"", &[0u8; 4]);
    assert_eq!(d.err(), Some(AeadError::InvalidKeyLength { key_len: 20 }));
}

#[test]
fn ccm_decrypt_infers_tag_length() {
    let key = [3u8; 24];
    let d = ccm_decrypt(&key, &[0u8; 10], b"abc", b"", &[0u8; 5]);
    assert_eq!(
        d.err(),
        Some(AeadError::UnsupportedParameterCombination { key_len: 24, tag_len: 5, iv_len: 10 })
    );
}

#[test]
fn selector_accepts_exactly_the_matrix() {
    let mut accepted = 0;
    for key_len in 0usize..40 {
        for tag_len in 0usize..20 {
            for iv_len in 0usize..20 {
                if let Ok(c) = select_ccm(key_len, tag_len, iv_len) {
                    accepted += 1;
                    assert_eq!(c.mode, Mode::Ccm);
                    assert_eq!(c.tag_len as usize, tag_len);
                    assert_eq!(c.iv_len as usize, iv_len);
                }
            }
        }
    }
    assert_eq!(accepted, 147);
    let mut gcm = 0;
    for key_len in 0usize..40 {
        for iv_len in 0usize..20 {
            if let Ok(c) = select_gcm(key_len, iv_len) {
                gcm += 1;
                assert_eq!((c.mode, c.tag_len, c.iv_len), (Mode::Gcm, 16, 12));
            }
        }
    }
    assert_eq!(gcm, 3);
    assert_eq!(select_gcm(32, 12).unwrap().key_size, KeySize::Aes256);
    assert_eq!(select_gcm(24, 12).unwrap().key_size, KeySize::Aes192);
}

#[test]
fn gcm_hello_scenario() {
    let key = [0u8; 16];
    let iv = [0u8; 12];
    let enc = gcm_encrypt(&key, &iv, b"hello", b"").unwrap();
    assert_eq!(enc.ciphertext.len(), 5);
    assert_eq!(enc.auth_tag.len(), 16);
    assert_ne!(enc.ciphertext, b"hello".to_vec());

    let dec = gcm_decrypt(&key, &iv, &enc.ciphertext, b"", &enc.auth_tag).unwrap();
    assert!(dec.auth_ok);
    assert_eq!(dec.plaintext, b"hello".to_vec());

    let mut bad_tag = enc.auth_tag.clone();
    bad_tag[15] ^= 0xff;
    let dec = gcm_decrypt(&key, &iv, &enc.ciphertext, b"", &bad_tag).unwrap();
    assert!(!dec.auth_ok);
    assert!(dec.plaintext.is_empty());
}

#[test]
fn gcm_known_answer_empty() {
    let enc = gcm_encrypt(&[0u8; 16], &[0u8; 12], b"", b"").unwrap();
    assert!(enc.ciphertext.is_empty());
    assert_eq!(enc.auth_tag, hex("58e2fccefa7e3061367f1d57a4e7455a"));
}

#[test]
fn gcm_known_answer_one_block() {
    let enc = gcm_encrypt(&[0u8; 16], &[0u8; 12], &[0u8; 16], b"").unwrap();
    assert_eq!(enc.ciphertext, hex("0388dace60b6a392f328c2b971b2fe78"));
    assert_eq!(enc.auth_tag, hex("ab6e47d42cec13bdf53a67b21257bddf"));
    let dec = gcm_decrypt(&[0u8; 16], &[0u8; 12], &enc.ciphertext, b"", &enc.auth_tag).unwrap();
    assert!(dec.auth_ok);
    assert_eq!(dec.plaintext, vec![0u8; 16]);
}

#[test]
fn ccm_known_answer_packet_one() {
    let key = hex("c0c1c2c3c4c5c6c7c8c9cacbcccdcecf");
    let iv = hex("00000003020100a0a1a2a3a4a5");
    let aad = hex("0001020304050607");
    let pt = hex("08090a0b0c0d0e0f101112131415161718191a1b1c1d1e");
    let enc = ccm_encrypt(&key, &iv, &pt, &aad, 8).unwrap();
    assert_eq!(enc.ciphertext, hex("588c979a61c663d2f066d0c2c0f989806d5f6b61dac384"));
    assert_eq!(enc.auth_tag, hex("17e8d12cfdf926e0"));
    let dec = ccm_decrypt(&key, &iv, &enc.ciphertext, &aad, &enc.auth_tag).unwrap();
    assert!(dec.auth_ok);
    assert_eq!(dec.plaintext, pt);
}

#[test]
fn gcm_round_trip_all_key_sizes() {
    for key_len in KEY_LENS {
        for pt_len in [0usize, 1, 15, 16, 17, 100] {
            let key = pattern(key_len, 1);
            let iv = pattern(12, 2);
            let pt = pattern(pt_len, 3);
            let aad = pattern(pt_len / 2, 4);
            let enc = gcm_encrypt(&key, &iv, &pt, &aad).unwrap();
            assert_eq!(enc.ciphertext.len(), pt.len());
            assert_eq!(enc.auth_tag.len(), 16);
            let dec = gcm_decrypt(&key, &iv, &enc.ciphertext, &aad, &enc.auth_tag).unwrap();
            assert!(dec.auth_ok);
            assert_eq!(dec.plaintext, pt);
        }
    }
}

#[test]
fn ccm_round_trip_whole_matrix() {
    for key_len in KEY_LENS {
        for tag_len in TAG_LENS {
            for iv_len in 7usize..=13 {
                let key = pattern(key_len, 5);
                let iv = pattern(iv_len, 6);
                let pt = pattern(33, 7);
                let aad = pattern(9, 8);
                let enc = ccm_encrypt(&key, &iv, &pt, &aad, tag_len).unwrap();
                assert_eq!(enc.ciphertext.len(), pt.len());
                assert_eq!(enc.auth_tag.len(), tag_len as usize);
                let dec = ccm_decrypt(&key, &iv, &enc.ciphertext, &aad, &enc.auth_tag).unwrap();
                assert!(dec.auth_ok);
                assert_eq!(dec.plaintext, pt);
            }
        }
    }
}

#[test]
fn ccm_round_trip_empty_inputs() {
    let key = [9u8; 32];
    let iv = [1u8; 13];
    let enc = ccm_encrypt(&key, &iv, b"", b"", 16).unwrap();
    assert!(enc.ciphertext.is_empty());
    assert_eq!(enc.auth_tag.len(), 16);
    let dec = ccm_decrypt(&key, &iv, &enc.ciphertext, b"", &enc.auth_tag).unwrap();
    assert!(dec.auth_ok);
    assert!(dec.plaintext.is_empty());
}

fn flip_each_bit(data: &[u8]) -> Vec<Vec<u8>> {
    let mut out = Vec::new();
    for i in 0..data.len() {
        for b in 0..8 {
            let mut d = data.to_vec();
            d[i] ^= 1 << b;
            out.push(d);
        }
    }
    out
}

#[test]
fn gcm_tampering_is_detected() {
    let key = pattern(32, 11);
    let iv = pattern(12, 12);
    let aad = pattern(5, 13);
    let enc = gcm_encrypt(&key, &iv, b"attack at dawn", &aad).unwrap();
    for ct in flip_each_bit(&enc.ciphertext) {
        let d = gcm_decrypt(&key, &iv, &ct, &aad, &enc.auth_tag).unwrap();
        assert!(!d.auth_ok);
        assert!(d.plaintext.is_empty());
    }
    for tag in flip_each_bit(&enc.auth_tag) {
        let d = gcm_decrypt(&key, &iv, &enc.ciphertext, &aad, &tag).unwrap();
        assert!(!d.auth_ok);
        assert!(d.plaintext.is_empty());
    }
    for a in flip_each_bit(&aad) {
        let d = gcm_decrypt(&key, &iv, &enc.ciphertext, &a, &enc.auth_tag).unwrap();
        assert!(!d.auth_ok);
        assert!(d.plaintext.is_empty());
    }
}

#[test]
fn ccm_tampering_is_detected() {
    let key = pattern(16, 21);
    let iv = pattern(11, 22);
    let aad = pattern(4, 23);
    let enc = ccm_encrypt(&key, &iv, b"attack at dawn", &aad, 12).unwrap();
    for ct in flip_each_bit(&enc.ciphertext) {
        let d = ccm_decrypt(&key, &iv, &ct, &aad, &enc.auth_tag).unwrap();
        assert!(!d.auth_ok);
        assert!(d.plaintext.is_empty());
    }
    for tag in flip_each_bit(&enc.auth_tag) {
        let d = ccm_decrypt(&key, &iv, &enc.ciphertext, &aad, &tag).unwrap();
        assert!(!d.auth_ok);
        assert!(d.plaintext.is_empty());
    }
    for a in flip_each_bit(&aad) {
        let d = ccm_decrypt(&key, &iv, &enc.ciphertext, &a, &enc.auth_tag).unwrap();
        assert!(!d.auth_ok);
        assert!(d.plaintext.is_empty());
    }
}

#[test]
fn gcm_wrong_key_or_iv_fails_authentication() {
    let enc = gcm_encrypt(&[1u8; 16], &[2u8; 12], b"secret", b"").unwrap();
    let d = gcm_decrypt(&[1u8; 24], &[2u8; 12], &enc.ciphertext, b"", &enc.auth_tag).unwrap();
    assert!(!d.auth_ok);
    let d = gcm_decrypt(&[1u8; 16], &[3u8; 12], &enc.ciphertext, b"", &enc.auth_tag).unwrap();
    assert!(!d.auth_ok);
    assert!(d.plaintext.is_empty());
}

#[test]
fn encryption_is_deterministic() {
    let key = pattern(24, 31);
    let iv = pattern(12, 32);
    let a = gcm_encrypt(&key, &iv, b"same input", b"ad").unwrap();
    let b = gcm_encrypt(&key, &iv, b"same input", b"ad").unwrap();
    assert_eq!(a.ciphertext, b.ciphertext);
    assert_eq!(a.auth_tag, b.auth_tag);
    let iv = pattern(9, 33);
    let a = ccm_encrypt(&key, &iv, b"same input", b"ad", 10).unwrap();
    let b = ccm_encrypt(&key, &iv, b"same input", b"ad", 10).unwrap();
    assert_eq!(a.ciphertext, b.ciphertext);
    assert_eq!(a.auth_tag, b.auth_tag);
}

#[test]
fn ccm_message_too_long_for_nonce_fails() {
    let key = [4u8; 16];
    let iv = [5u8; 13];
    let pt = vec![0u8; 0x1_0000];
    let r = ccm_encrypt(&key, &iv, &pt, b"", 8);
    assert_eq!(r.err(), Some(AeadError::EncryptionFailed));
    let fits = vec![0u8; 0xffff];
    let enc = ccm_encrypt(&key, &iv, &fits, b"", 8).unwrap();
    assert_eq!(enc.ciphertext.len(), 0xffff);
    let d = ccm_decrypt(&key, &iv, &enc.ciphertext, b"", &enc.auth_tag).unwrap();
    assert!(d.auth_ok);
    assert_eq!(d.plaintext, fits);
}

#[test]
fn finish_encrypt_splits_at_plaintext_length() {
    let r = finish_encrypt(Ok(vec![1, 2, 3, 4, 5]), 2, 3).unwrap();
    assert_eq!(r.ciphertext, vec![1, 2]);
    assert_eq!(r.auth_tag, vec![3, 4, 5]);
    let r = finish_encrypt(Ok(vec![9, 8]), 0, 2).unwrap();
    assert!(r.ciphertext.is_empty());
    assert_eq!(r.auth_tag, vec![9, 8]);
}

#[test]
fn finish_encrypt_surfaces_failures() {
    let r = finish_encrypt(Err(ccm::aead::Error), 2, 3);
    assert_eq!(r.err(), Some(AeadError::EncryptionFailed));
    let r = finish_encrypt(Ok(vec![1, 2, 3]), 2, 3);
    assert_eq!(r.err(), Some(AeadError::EncryptionFailed));
}

#[test]
fn finish_decrypt_reports_authenticity() {
    let d = finish_decrypt(Ok(vec![7, 7]));
    assert!(d.auth_ok);
    assert_eq!(d.plaintext, vec![7, 7]);
    let d = finish_decrypt(Err(ccm::aead::Error));
    assert!(!d.auth_ok);
    assert!(d.plaintext.is_empty());
}

#[test]
fn join_sealed_concatenates() {
    assert_eq!(join_sealed(&[1, 2], &[3]), vec![1, 2, 3]);
    assert_eq!(join_sealed(&[], &[4, 5]), vec![4, 5]);
    assert!(join_sealed(&[], &[]).is_empty());
}

#[test]
fn ccm_decrypt_of_overlong_ciphertext_fails_authentication() {
    let key = [4u8; 16];
    let iv = [5u8; 13];
    let ct = vec![0u8; 0x1_0000];
    let d = ccm_decrypt(&key, &iv, &ct, b"", &[0u8; 8]).unwrap();
    assert!(!d.auth_ok);
    assert!(d.plaintext.is_empty());
}
