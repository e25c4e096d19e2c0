use aes_wasm::{aes128cbc, aes128ctr, aes128ocb, aes256cbc, aes256gcm, cmac_aes128};

#[test]
fn aes128cbc() {
    let key = aes128cbc::Key::default();
    let iv = aes128cbc::IV::default();
    let msg = b"Hello world";
    let ciphertext = aes128cbc::encrypt(msg, &key, iv);
    let plaintext = aes128cbc::decrypt(&ciphertext, &key, iv).unwrap();
    assert_eq!(plaintext, msg);
}

#[test]
fn aes128ctr() {
    let key = aes128ctr::Key::default();
    let iv = aes128ctr::IV::default();
    let msg = b"hello world";
    let ciphertext = aes128ctr::encrypt(msg, &key, iv);
    let plaintext = aes128ctr::decrypt(&ciphertext, &key, iv);
    assert_eq!(plaintext, msg);
}

#[test]
fn aes128ocb() {
    let key = aes128ocb::Key::default();
    let nonce = aes128ocb::Nonce::default();
    let msg = b"hello world";
    let ad = b"additional data";
    let (ciphertext, tag) = aes128ocb::encrypt_detached(msg, ad, &key, nonce);
    let plaintext = aes128ocb::decrypt_detached(&ciphertext, &tag, ad, &key, nonce).unwrap();
    assert_eq!(plaintext, msg);
    let ciphertext_and_tag = aes128ocb::encrypt(msg, ad, &key, nonce);
    let plaintext = aes128ocb::decrypt(&ciphertext_and_tag, ad, &key, nonce).unwrap();
    assert_eq!(plaintext, msg);
}

#[test]
fn aes256cbc() {
    let key = aes256cbc::Key::default();
    let iv = aes256cbc::IV::default();
    let msg = b"Hello world";
    let ciphertext = aes256cbc::encrypt(msg, &key, iv);
    let plaintext = aes256cbc::decrypt(&ciphertext, &key, iv).unwrap();
    assert_eq!(plaintext, msg);
}

#[test]
fn aes256gcm() {
    let key = aes256gcm::Key::default();
    let nonce = aes256gcm::Nonce::default();
    let msg = b"hello world";
    let ad = b"additional data";
    let (ciphertext, tag) = aes256gcm::encrypt_detached(msg, ad, &key, nonce);
    let plaintext = aes256gcm::decrypt_detached(&ciphertext, &tag, ad, &key, nonce).unwrap();
    assert_eq!(plaintext, msg);
    let ciphertext_and_tag = aes256gcm::encrypt(msg, ad, &key, nonce);
    let plaintext = aes256gcm::decrypt(&ciphertext_and_tag, ad, &key, nonce).unwrap();
    assert_eq!(plaintext, msg);
}

#[test]
fn cmac_aes128() {
    let key = cmac_aes128::Key::default();
    let msg = b"hello world";
    _ = cmac_aes128::mac(msg, &key);
}
