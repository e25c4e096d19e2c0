use aes_wasm::adapter::{combine, split, TAG_LEN};
use aes_wasm::block::ciphertext_len;
use aes_wasm::{
    aes128cbc, aes128ctr, aes128gcm, aes128ocb, aes256cbc, aes256ctr, aes256gcm, aes256ocb,
    cmac_aes128, Error,
};

fn hex(s: &str) -> Vec<u8> {
    (0..s.len())
        .step_by(2)
        .map(|i| u8::from_str_radix(&s[i..i + 2], 16).unwrap())
        .collect()
}

fn arr16(s: &str) -> [u8; 16] {
    hex(s).try_into().unwrap()
}

const MSGS: [&[u8]; 5] = [b"", b"a", b"hello world", b"exactly16bytes!!", b"a message longer than one block of sixteen"];

#[test]
fn round_trip_every_algorithm() {
    for m in MSGS {
        let ad = b"header";
        let c = aes128gcm::encrypt(m, ad, &[1; 16], [2; 12]);
        assert_eq!(aes128gcm::decrypt(&c, ad, &[1; 16], [2; 12]).unwrap(), m);
        let c = aes256gcm::encrypt(m, ad, &[1; 32], [2; 12]);
        assert_eq!(aes256gcm::decrypt(&c, ad, &[1; 32], [2; 12]).unwrap(), m);
        let c = aes128ocb::encrypt(m, ad, &[1; 16], [2; 12]);
        assert_eq!(aes128ocb::decrypt(&c, ad, &[1; 16], [2; 12]).unwrap(), m);
        let c = aes256ocb::encrypt(m, ad, &[1; 32], [2; 12]);
        assert_eq!(aes256ocb::decrypt(&c, ad, &[1; 32], [2; 12]).unwrap(), m);
        let c = aes128ctr::encrypt(m, &[1; 16], [2; 16]);
        assert_eq!(aes128ctr::decrypt(&c, &[1; 16], [2; 16]), m);
        let c = aes256ctr::encrypt(m, &[1; 32], [2; 16]);
        assert_eq!(aes256ctr::decrypt(&c, &[1; 32], [2; 16]), m);
        let c = aes128cbc::encrypt(m, &[1; 16], [2; 16]);
        assert_eq!(aes128cbc::decrypt(&c, &[1; 16], [2; 16]).unwrap(), m);
        let c = aes256cbc::encrypt(m, &[1; 32], [2; 16]);
        assert_eq!(aes256cbc::decrypt(&c, &[1; 32], [2; 16]).unwrap(), m);
    }
}

#[test]
fn tampering_fails_verification() {
    let key = [7u8; 16];
    let nonce = [9u8; 12];
    let m = b"attack at dawn";
    let ad = b"header";
    let c = aes128gcm::encrypt(m, ad, &key, nonce);
    for i in 0..c.len() * 8 {
        let mut t = c.clone();
        t[i / 8] ^= 1 << (i % 8);
        assert_eq!(aes128gcm::decrypt(&t, ad, &key, nonce), Err(Error::VerificationFailed));
    }
    for i in 0..ad.len() * 8 {
        let mut a = ad.to_vec();
        a[i / 8] ^= 1 << (i % 8);
        assert_eq!(aes128gcm::decrypt(&c, &a, &key, nonce), Err(Error::VerificationFailed));
    }
    let c = aes128ocb::encrypt(m, ad, &key, nonce);
    for i in 0..c.len() * 8 {
        let mut t = c.clone();
        t[i / 8] ^= 1 << (i % 8);
        assert_eq!(aes128ocb::decrypt(&t, ad, &key, nonce), Err(Error::VerificationFailed));
    }
    let (ct, mut tag) = aes256gcm::encrypt_detached(m, ad, &[7; 32], nonce);
    tag[0] ^= 0x80;
    assert_eq!(aes256gcm::decrypt_detached(&ct, &tag, ad, &[7; 32], nonce), Err(Error::VerificationFailed));
}

#[test]
fn ciphertext_lengths() {
    for m in MSGS {
        assert_eq!(aes128gcm::encrypt(m, b"", &[0; 16], [0; 12]).len(), m.len() + 16);
        assert_eq!(aes256ocb::encrypt_detached(m, b"", &[0; 32], [0; 12]).0.len(), m.len());
        assert_eq!(aes128ctr::encrypt(m, &[0; 16], [0; 16]).len(), m.len());
        assert_eq!(aes128cbc::encrypt(m, &[0; 16], [0; 16]).len(), (m.len() + 16) & !15);
        assert_eq!(aes256cbc::encrypt(m, &[0; 32], [0; 16]).len(), (m.len() + 16) & !15);
    }
}

#[test]
fn padded_length_formula() {
    assert_eq!(ciphertext_len(0), 16);
    assert_eq!(ciphertext_len(11), 16);
    assert_eq!(ciphertext_len(15), 16);
    assert_eq!(ciphertext_len(16), 32);
    assert_eq!(ciphertext_len(17), 32);
    assert_eq!(ciphertext_len(100), 112);
}

#[test]
fn combined_matches_detached() {
    let key = [3u8; 32];
    let nonce = [4u8; 12];
    for m in MSGS {
        let (ct, tag) = aes256gcm::encrypt_detached(m, b"ad", &key, nonce);
        let combined = aes256gcm::encrypt(m, b"ad", &key, nonce);
        assert_eq!(combined, [ct.clone(), tag.to_vec()].concat());
        assert_eq!(
            aes256gcm::decrypt_detached(&ct, &tag, b"ad", &key, nonce),
            aes256gcm::decrypt(&combined, b"ad", &key, nonce)
        );
        let (ct, tag) = aes128ocb::encrypt_detached(m, b"ad", &[3; 16], nonce);
        let combined = aes128ocb::encrypt(m, b"ad", &[3; 16], nonce);
        assert_eq!(
            aes128ocb::decrypt_detached(&ct, &tag, b"ad", &[3; 16], nonce),
            aes128ocb::decrypt(&combined, b"ad", &[3; 16], nonce)
        );
    }
}

#[test]
fn short_combined_input_is_rejected() {
    for n in 0..TAG_LEN {
        let c = vec![0u8; n];
        assert_eq!(aes128gcm::decrypt(&c, b"", &[0; 16], [0; 12]), Err(Error::VerificationFailed));
        assert_eq!(aes256gcm::decrypt(&c, b"", &[0; 32], [0; 12]), Err(Error::VerificationFailed));
        assert_eq!(aes128ocb::decrypt(&c, b"", &[0; 16], [0; 12]), Err(Error::VerificationFailed));
        assert_eq!(aes256ocb::decrypt(&c, b"", &[0; 32], [0; 12]), Err(Error::VerificationFailed));
    }
    assert_eq!(aes256gcm::decrypt(b"invalid", b"ad", &[0; 32], [0; 12]), Err(Error::VerificationFailed));
}

#[test]
fn gcm128_hello_world_scenario() {
    let key = [0u8; 16];
    let nonce = [0u8; 12];
    let m = b"hello world";
    let a = b"additional data";
    let mut c = aes128gcm::encrypt(m, a, &key, nonce);
    assert_eq!(aes128gcm::decrypt(&c, a, &key, nonce).unwrap(), m);
    let last = c.len() - 1;
    c[last] ^= 1;
    assert_eq!(aes128gcm::decrypt(&c, a, &key, nonce), Err(Error::VerificationFailed));
}

#[test]
fn cbc_empty_message() {
    let c = aes128cbc::encrypt(b"", &[5; 16], [6; 16]);
    assert_eq!(c.len(), 16);
    assert_eq!(aes128cbc::decrypt(&c, &[5; 16], [6; 16]).unwrap(), Vec::<u8>::new());
    let c = aes256cbc::encrypt(b"", &[5; 32], [6; 16]);
    assert_eq!(c.len(), 16);
    assert_eq!(aes256cbc::decrypt(&c, &[5; 32], [6; 16]).unwrap(), Vec::<u8>::new());
}

#[test]
fn cbc_malformed_ciphertext() {
    assert_eq!(aes128cbc::decrypt(b"", &[0; 16], [0; 16]), Err(Error::VerificationFailed));
    assert_eq!(aes256cbc::decrypt(b"", &[0; 32], [0; 16]), Err(Error::VerificationFailed));
    assert_eq!(aes128cbc::decrypt(&[1u8; 15], &[0; 16], [0; 16]), Err(Error::VerificationFailed));
    let mut c = aes128cbc::encrypt(b"hello", &[0; 16], [0; 16]);
    c.push(0);
    assert_eq!(aes128cbc::decrypt(&c, &[0; 16], [0; 16]), Err(Error::VerificationFailed));
}

#[test]
fn gcm128_known_answers() {
    let key = [0u8; 16];
    let nonce = [0u8; 12];
    let c = aes128gcm::encrypt(b"", b"", &key, nonce);
    assert_eq!(c, hex("58e2fccefa7e3061367f1d57a4e7455a"));
    let (ct, tag) = aes128gcm::encrypt_detached(&[0u8; 16], b"", &key, nonce);
    assert_eq!(ct, hex("0388dace60b6a392f328c2b971b2fe78"));
    assert_eq!(tag.to_vec(), hex("ab6e47d42cec13bdf53a67b21257bddf"));
}

#[test]
fn ctr128_known_answer() {
    let key = arr16("2b7e151628aed2a6abf7158809cf4f3c");
    let iv = arr16("f0f1f2f3f4f5f6f7f8f9fafbfcfdfeff");
    let c = aes128ctr::encrypt(&hex("6bc1bee22e409f96e93d7e117393172a"), &key, iv);
    assert_eq!(c, hex("874d6191b620e3261bef6864990db6ce"));
}

#[test]
fn cbc128_known_answer() {
    let key = arr16("2b7e151628aed2a6abf7158809cf4f3c");
    let iv = arr16("000102030405060708090a0b0c0d0e0f");
    let c = aes128cbc::encrypt(&hex("6bc1bee22e409f96e93d7e117393172a"), &key, iv);
    assert_eq!(c.len(), 32);
    assert_eq!(c[..16].to_vec(), hex("7649abac8119b246cee98e9b12e9197d"));
}

#[test]
fn cmac128_known_answers() {
    let key = arr16("2b7e151628aed2a6abf7158809cf4f3c");
    assert_eq!(cmac_aes128::mac(b"", &key).to_vec(), hex("bb1d6929e95937287fa37d129b756746"));
    assert_eq!(
        cmac_aes128::mac(&hex("6bc1bee22e409f96e93d7e117393172a"), &key).to_vec(),
        hex("070a16b46b4d4144f79bdd9dd04a287c")
    );
}

#[test]
fn adapter_combine_and_split() {
    let tag = [9u8; 16];
    let c = combine(vec![1, 2, 3], &tag);
    assert_eq!(c.len(), 19);
    let (ct, t) = split(&c).unwrap();
    assert_eq!(ct, &[1, 2, 3]);
    assert_eq!(t, &tag);
    assert!(split(&[0u8; 15]).is_none());
    let (ct, t) = split(&[0u8; 16]).unwrap();
    assert!(ct.is_empty());
    assert_eq!(t.len(), 16);
}

#[test]
fn error_message() {
    assert_eq!(Error::VerificationFailed.message(), "Verification failed");
}

#[test]
fn ciphertext_differs_from_message() {
    let m = b"sixteen byte msg and then some more";
    let differs = |c: &[u8]| c[..16] != m[..16];
    assert!(differs(&aes128gcm::encrypt(m, b"", &[1; 16], [2; 12])));
    assert!(differs(&aes256gcm::encrypt(m, b"", &[1; 32], [2; 12])));
    assert!(differs(&aes128ocb::encrypt(m, b"", &[1; 16], [2; 12])));
    assert!(differs(&aes256ocb::encrypt(m, b"", &[1; 32], [2; 12])));
    assert!(differs(&aes128ctr::encrypt(m, &[1; 16], [2; 16])));
    assert!(differs(&aes256ctr::encrypt(m, &[1; 32], [2; 16])));
    assert!(differs(&aes128cbc::encrypt(m, &[1; 16], [2; 16])));
    assert!(differs(&aes256cbc::encrypt(m, &[1; 32], [2; 16])));
    assert_ne!(cmac_aes128::mac(m, &[1; 16]), cmac_aes128::mac(b"other", &[1; 16]));
}

#[test]
fn decrypted_plaintext_encrypts_back() {
    let c = aes128ocb::encrypt(b"hello world", b"ad", &[8; 16], [1; 12]);
    let p = aes128ocb::decrypt(&c, b"ad", &[8; 16], [1; 12]).unwrap();
    assert_eq!(p.len(), c.len() - 16);
    assert_eq!(aes128ocb::encrypt(&p, b"ad", &[8; 16], [1; 12]), c);
    let c = aes256cbc::encrypt(b"sixteen byte msg", &[8; 32], [1; 16]);
    let p = aes256cbc::decrypt(&c, &[8; 32], [1; 16]).unwrap();
    assert!(p.len() <= c.len() - 1);
    assert_eq!(aes256cbc::encrypt(&p, &[8; 32], [1; 16]), c);
}
