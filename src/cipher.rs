//! The address cipher: a slot index, written as eight little-endian bytes,
//! encrypted with AES-128 in CBC mode under PKCS#7 padding.
use vstd::prelude::*;
use aes::cipher::block_padding::Pkcs7;
use aes::cipher::{BlockDecryptMut, BlockEncryptMut, KeyIvInit};
use rand::RngCore;

verus! {

/// An AES-128 key.
pub type AesKey = [u8; 16];

/// A CBC initialisation vector.
pub type AesIv = [u8; 16];

/// What AES-128-CBC with PKCS#7 padding makes of `msg` under `key` and `iv`.
pub uninterp spec fn aes_cbc_encrypt_of(key: Seq<u8>, iv: Seq<u8>, msg: Seq<u8>) -> Seq<u8>;

/// Byte `i` of `x` in little-endian order.
pub open spec fn byte_at(x: u64, i: int) -> u8 {
    ((x >> ((8 * i) as u64)) & 0xffu64) as u8
}

/// The eight little-endian bytes of `x`.
pub open spec fn le_bytes(x: u64) -> Seq<u8> {
    Seq::new(8, |i: int| byte_at(x, i))
}

/// The number whose little-endian bytes are the first eight of `s`.
pub open spec fn from_le(s: Seq<u8>) -> u64 {
    (s[0] as u64) | ((s[1] as u64) << 8u64) | ((s[2] as u64) << 16u64) | ((s[3] as u64)
        << 24u64) | ((s[4] as u64) << 32u64) | ((s[5] as u64) << 40u64) | ((s[6] as u64)
        << 48u64) | ((s[7] as u64) << 56u64)
}

/// The ciphertext that stands for `address` under `key` and `iv`.
pub open spec fn address_cipher_text(key: Seq<u8>, iv: Seq<u8>, address: usize) -> Seq<u8> {
    aes_cbc_encrypt_of(key, iv, le_bytes(address as u64))
}

/// Reading back the little-endian bytes of a number gives the number.
pub proof fn lemma_le_round_trip(x: u64)
    ensures
        from_le(le_bytes(x)) == x,
{
    let s = le_bytes(x);
    assert(s[0] == ((x >> 0u64) & 0xffu64) as u8);
    assert(s[1] == ((x >> 8u64) & 0xffu64) as u8);
    assert(s[2] == ((x >> 16u64) & 0xffu64) as u8);
    assert(s[3] == ((x >> 24u64) & 0xffu64) as u8);
    assert(s[4] == ((x >> 32u64) & 0xffu64) as u8);
    assert(s[5] == ((x >> 40u64) & 0xffu64) as u8);
    assert(s[6] == ((x >> 48u64) & 0xffu64) as u8);
    assert(s[7] == ((x >> 56u64) & 0xffu64) as u8);
    assert(((((x >> 0u64) & 0xffu64) as u8) as u64) | (((((x >> 8u64) & 0xffu64) as u8) as u64)
        << 8u64) | (((((x >> 16u64) & 0xffu64) as u8) as u64) << 16u64) | (((((x >> 24u64)
        & 0xffu64) as u8) as u64) << 24u64) | (((((x >> 32u64) & 0xffu64) as u8) as u64)
        << 32u64) | (((((x >> 40u64) & 0xffu64) as u8) as u64) << 40u64) | (((((x >> 48u64)
        & 0xffu64) as u8) as u64) << 48u64) | (((((x >> 56u64) & 0xffu64) as u8) as u64)
        << 56u64) == x) by (bit_vector);
}

/// Relies on `cbc::Encryptor::<Aes128>::encrypt_padded_vec_mut::<Pkcs7>`:
/// the ciphertext is a function of key, IV and message alone.
#[verifier::external_body]
fn aes_cbc_encrypt(key: &AesKey, iv: &AesIv, msg: &[u8]) -> (r: Vec<u8>)
    ensures
        r@ == aes_cbc_encrypt_of(key@, iv@, msg@),
{
    cbc::Encryptor::<aes::Aes128>::new(&(*key).into(), &(*iv).into())
        .encrypt_padded_vec_mut::<Pkcs7>(msg)
}

/// Relies on `cbc::Decryptor::<Aes128>::decrypt_padded_vec_mut::<Pkcs7>`:
/// under the same key and IV it inverts the matching encryption, so a
/// ciphertext made by `aes_cbc_encrypt` always decrypts to its message.
#[verifier::external_body]
fn aes_cbc_decrypt(key: &AesKey, iv: &AesIv, ct: &[u8]) -> (r: Option<Vec<u8>>)
    ensures
        forall|m: Seq<u8>|
            ct@ == #[trigger] aes_cbc_encrypt_of(key@, iv@, m) ==> r.is_some() && r.unwrap()@
                == m,
{
    cbc::Decryptor::<aes::Aes128>::new(&(*key).into(), &(*iv).into())
        .decrypt_padded_vec_mut::<Pkcs7>(ct)
        .ok()
}

/// Relies on `rand::thread_rng` and `RngCore::fill_bytes`: sixteen bytes from
/// the thread's cryptographically secure generator. Nothing is known of them.
#[verifier::external_body]
fn random_block() -> (r: [u8; 16]) {
    let mut block = [0u8; 16];
    rand::thread_rng().fill_bytes(&mut block);
    block
}

/// Draws a fresh key and IV for one handle value.
pub fn generate_key_and_iv() -> (r: (AesKey, AesIv)) {
    let key = random_block();
    let iv = random_block();
    (key, iv)
}

/// The eight little-endian bytes of `x`.
fn to_le_bytes(x: u64) -> (r: Vec<u8>)
    ensures
        r@ == le_bytes(x),
{
    let mut r: Vec<u8> = Vec::new();
    r.push((x & 0xffu64) as u8);
    r.push(((x >> 8u64) & 0xffu64) as u8);
    r.push(((x >> 16u64) & 0xffu64) as u8);
    r.push(((x >> 24u64) & 0xffu64) as u8);
    r.push(((x >> 32u64) & 0xffu64) as u8);
    r.push(((x >> 40u64) & 0xffu64) as u8);
    r.push(((x >> 48u64) & 0xffu64) as u8);
    r.push(((x >> 56u64) & 0xffu64) as u8);
    assert(x >> 0u64 == x) by (bit_vector);
    assert(r@ =~= le_bytes(x));
    r
}

/// The number whose little-endian bytes are the first eight of `s`.
fn read_le(s: &Vec<u8>) -> (r: u64)
    requires
        s@.len() >= 8,
    ensures
        r == from_le(s@),
{
    (s[0] as u64) | ((s[1] as u64) << 8u64) | ((s[2] as u64) << 16u64) | ((s[3] as u64)
        << 24u64) | ((s[4] as u64) << 32u64) | ((s[5] as u64) << 40u64) | ((s[6] as u64)
        << 48u64) | ((s[7] as u64) << 56u64)
}

/// The bytes of a handle: key, then IV, then ciphertext.
pub fn key_material(key: &AesKey, iv: &AesIv, ct: &Vec<u8>) -> (r: Vec<u8>)
    ensures
        r@ == key@ + iv@ + ct@,
{
    let mut r: Vec<u8> = Vec::new();
    let mut i: usize = 0;
    while i < 16
        invariant
            0 <= i <= 16,
            r@ == key@.take(i as int),
        decreases 16 - i,
    {
        r.push(key[i]);
        i = i + 1;
    }
    i = 0;
    while i < 16
        invariant
            0 <= i <= 16,
            r@ == key@ + iv@.take(i as int),
        decreases 16 - i,
    {
        r.push(iv[i]);
        i = i + 1;
    }
    i = 0;
    while i < ct.len()
        invariant
            0 <= i <= ct@.len(),
            r@ == key@ + iv@ + ct@.take(i as int),
        decreases ct@.len() - i,
    {
        r.push(ct[i]);
        i = i + 1;
    }
    r
}

/// Encrypts `address` under `key` and `iv`.
pub fn encrypt(address: usize, key: &AesKey, iv: &AesIv) -> (r: Vec<u8>)
    ensures
        r@ == address_cipher_text(key@, iv@, address),
{
    let msg = to_le_bytes(address as u64);
    aes_cbc_encrypt(key, iv, msg.as_slice())
}

/// Decrypts a ciphertext made by [`encrypt`] under the same `key` and `iv`.
/// It gives back the address that was encrypted; `None` only for a
/// ciphertext that `encrypt` cannot have made.
pub fn decrypt(ct: &Vec<u8>, key: &AesKey, iv: &AesIv) -> (r: Option<usize>)
    ensures
        forall|a: usize|
            ct@ == #[trigger] address_cipher_text(key@, iv@, a) ==> r == Some(a),
{
    let plain = aes_cbc_decrypt(key, iv, ct.as_slice());
    match plain {
        Some(bytes) => {
            if bytes.len() != 8 {
                proof {
                    assert forall|a: usize|
                        ct@ == #[trigger] address_cipher_text(key@, iv@, a) implies false by {
                        assert(bytes@ == le_bytes(a as u64));
                    }
                }
                return None;
            }
            let x = read_le(&bytes);
            if x > usize::MAX as u64 {
                proof {
                    assert forall|a: usize|
                        ct@ == #[trigger] address_cipher_text(key@, iv@, a) implies false by {
                        assert(bytes@ == le_bytes(a as u64));
                        lemma_le_round_trip(a as u64);
                    }
                }
                return None;
            }
            proof {
                assert forall|a: usize|
                    ct@ == #[trigger] address_cipher_text(key@, iv@, a) implies x == a as u64 by {
                    assert(bytes@ == le_bytes(a as u64));
                    lemma_le_round_trip(a as u64);
                }
            }
            Some(x as usize)
        },
        None => None,
    }
}

} // verus!
