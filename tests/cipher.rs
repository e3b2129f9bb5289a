use encrypted_ref::cipher::generate_key_and_iv;
use encrypted_ref::{decrypt, encrypt, is_dangling};

#[test]
fn decrypt_inverts_encrypt() {
    let (key, iv) = generate_key_and_iv();
    for a in [0usize, 1, 255, 256, 65_537, usize::MAX - 1, usize::MAX] {
        let ct = encrypt(a, &key, &iv);
        assert_eq!(ct.len(), 16);
        assert_eq!(decrypt(&ct, &key, &iv), Some(a));
    }
}

#[test]
fn ciphertext_is_not_the_plain_address() {
    let key = [7u8; 16];
    let iv = [9u8; 16];
    let ct = encrypt(0x0102_0304usize, &key, &iv);
    assert_ne!(&ct[..8], &0x0102_0304u64.to_le_bytes()[..]);
    let again = encrypt(0x0102_0304usize, &key, &iv);
    assert_eq!(ct, again);
    let other_iv = [10u8; 16];
    assert_ne!(ct, encrypt(0x0102_0304usize, &key, &other_iv));
}

#[test]
fn malformed_ciphertext_is_refused() {
    let key = [1u8; 16];
    let iv = [2u8; 16];
    assert_eq!(decrypt(&vec![0u8; 5], &key, &iv), None);
    assert_eq!(decrypt(&Vec::new(), &key, &iv), None);
}

#[test]
fn fresh_keys_differ() {
    let (k1, i1) = generate_key_and_iv();
    let (k2, i2) = generate_key_and_iv();
    assert_ne!(k1, k2);
    assert_ne!(i1, i2);
    assert_ne!(k1, i1);
}

#[test]
fn sentinel_is_the_largest_address() {
    assert!(is_dangling(usize::MAX));
    assert!(!is_dangling(0));
    assert!(!is_dangling(usize::MAX - 1));
}
