use aes_wasm::{aegis128l, aegis128x2, aegis128x4, aegis256, aegis256x2, aegis256x4, Error};

fn hex(s: &str) -> Vec<u8> {
    (0..s.len())
        .step_by(2)
        .map(|i| u8::from_str_radix(&s[i..i + 2], 16).unwrap())
        .collect()
}

const MSGS: [&[u8]; 4] = [b"", b"x", b"hello world", &[0x5a; 100]];

#[test]
fn aegis_round_trips() {
    for m in MSGS {
        let ad = b"additional data";
        let c = aegis128l::encrypt(m, ad, &[1; 16], [2; 16]);
        assert_eq!(c.len(), m.len() + 16);
        assert_eq!(aegis128l::decrypt(&c, ad, &[1; 16], [2; 16]).unwrap(), m);
        let c = aegis128x2::encrypt(m, ad, &[1; 16], [2; 16]);
        assert_eq!(aegis128x2::decrypt(&c, ad, &[1; 16], [2; 16]).unwrap(), m);
        let c = aegis128x4::encrypt(m, ad, &[1; 16], [2; 16]);
        assert_eq!(aegis128x4::decrypt(&c, ad, &[1; 16], [2; 16]).unwrap(), m);
        let c = aegis256::encrypt(m, ad, &[1; 32], [2; 32]);
        assert_eq!(aegis256::decrypt(&c, ad, &[1; 32], [2; 32]).unwrap(), m);
        let c = aegis256x2::encrypt(m, ad, &[1; 32], [2; 32]);
        assert_eq!(aegis256x2::decrypt(&c, ad, &[1; 32], [2; 32]).unwrap(), m);
        let c = aegis256x4::encrypt(m, ad, &[1; 32], [2; 32]);
        assert_eq!(aegis256x4::decrypt(&c, ad, &[1; 32], [2; 32]).unwrap(), m);
        let (ct, tag) = aegis256::encrypt_detached(m, ad, &[1; 32], [2; 32]);
        assert_eq!(ct.len(), m.len());
        assert_eq!(aegis256::decrypt_detached(&ct, &tag, ad, &[1; 32], [2; 32]).unwrap(), m);
    }
}

#[test]
fn aegis_tampering_fails() {
    let c = aegis128l::encrypt(b"hello world", b"ad", &[3; 16], [4; 16]);
    for i in 0..c.len() * 8 {
        let mut t = c.clone();
        t[i / 8] ^= 1 << (i % 8);
        assert_eq!(aegis128l::decrypt(&t, b"ad", &[3; 16], [4; 16]), Err(Error::VerificationFailed));
    }
    assert_eq!(aegis128l::decrypt(&c, b"aD", &[3; 16], [4; 16]), Err(Error::VerificationFailed));
    assert_eq!(aegis256x2::decrypt(&[0; 15], b"", &[0; 32], [0; 32]), Err(Error::VerificationFailed));
}

#[test]
fn aegis128l_test_vectors() {
    let key: [u8; 16] = hex("10010000000000000000000000000000").try_into().unwrap();
    let nonce: [u8; 16] = hex("10000200000000000000000000000000").try_into().unwrap();
    let (ct, tag) = aegis128l::encrypt_detached(&[0; 16], b"", &key, nonce);
    assert_eq!(ct, hex("c1c0e58bd913006feba00f4b3cc3594e"));
    assert_eq!(tag.to_vec(), hex("abe0ece80c24868a226a35d16bdae37a"));
    let c = aegis128l::encrypt(b"", b"", &key, nonce);
    assert_eq!(c, hex("c2b879a67def9d74e6c14f708bbcc9b4"));
}

#[test]
fn aegis256_test_vector() {
    let key: [u8; 32] = hex("1001000000000000000000000000000000000000000000000000000000000000").try_into().unwrap();
    let nonce: [u8; 32] = hex("1000020000000000000000000000000000000000000000000000000000000000").try_into().unwrap();
    let m = hex("000102030405060708090a0b0c0d0e0f101112131415161718191a1b1c1d1e1f");
    let (ct, tag) = aegis256::encrypt_detached(&m, &hex("0001020304050607"), &key, nonce);
    assert_eq!(ct, hex("f373079ed84b2709faee373584585d60accd191db310ef5d8b11833df9dec711"));
    assert_eq!(tag.to_vec(), hex("8d86f91ee606e9ff26a01b64ccbdd91d"));
}

#[test]
fn aegis128x2_test_vector() {
    let key: [u8; 16] = hex("000102030405060708090a0b0c0d0e0f").try_into().unwrap();
    let nonce: [u8; 16] = hex("101112131415161718191a1b1c1d1e1f").try_into().unwrap();
    let c = aegis128x2::encrypt(b"", b"", &key, nonce);
    assert_eq!(c, hex("63117dc57756e402819a82e13eca8379"));
}

#[test]
fn aegis_ciphertext_differs_from_message() {
    let m = b"sixteen byte msg and then some more";
    let differs = |c: &[u8]| c[..16] != m[..16];
    assert!(differs(&aegis128x4::encrypt(m, b"", &[1; 16], [2; 16])));
    assert!(differs(&aegis256x2::encrypt(m, b"", &[1; 32], [2; 32])));
    assert!(differs(&aegis256x4::encrypt(m, b"", &[1; 32], [2; 32])));
    assert!(differs(&aegis128l::encrypt(m, b"", &[1; 16], [2; 16])));
}
