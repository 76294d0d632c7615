//! The validated compute cores on plain byte values, and a cross-check of
//! each against the cryptographic crates called directly.

use aes_gcm::aead::{Aead, Payload};
use aes_gcm::KeyInit;
use hmac::Mac;

use sandbox_crypto::aead::{aead_decrypt, aead_encrypt};
use sandbox_crypto::kdf::derive_key_bytes;
use sandbox_crypto::mac::keyed_hash;
use sandbox_crypto::status::Status;
use sandbox_crypto::subtracao;

#[test]
fn test_byte_round_trip() {
    let key = vec![0x11u8; 32];
    let nonce = vec![0x22u8; 12];
    let plaintext: Vec<u8> = b"hello world!".to_vec();
    let aad: Vec<u8> = b"testaad".to_vec();
    let ciphertext = aead_encrypt(&key, &nonce, &plaintext, &aad, 28).unwrap();
    assert_eq!(ciphertext.len(), 28);
    let recovered = aead_decrypt(&key, &nonce, &ciphertext, &aad, 12).unwrap();
    assert_eq!(recovered, plaintext);
}

#[test]
fn test_byte_round_trip_empty_aad() {
    let key = vec![0x42u8; 32];
    let nonce = vec![0x07u8; 12];
    let plaintext: Vec<u8> = b"a longer message, spanning more than one block of the cipher".to_vec();
    let aad: Vec<u8> = Vec::new();
    let ciphertext = aead_encrypt(&key, &nonce, &plaintext, &aad, 4096).unwrap();
    assert_eq!(ciphertext.len(), plaintext.len() + 16);
    let recovered = aead_decrypt(&key, &nonce, &ciphertext, &aad, 4096).unwrap();
    assert_eq!(recovered, plaintext);
}

#[test]
fn test_encrypt_capacity_boundary() {
    let key = vec![0x11u8; 32];
    let nonce = vec![0x22u8; 12];
    let plaintext: Vec<u8> = b"hello world!".to_vec();
    let aad: Vec<u8> = Vec::new();
    // One byte short of plaintext length plus tag: refused before any
    // cryptography runs.
    let r = aead_encrypt(&key, &nonce, &plaintext, &aad, plaintext.len() + 15);
    assert_eq!(r.unwrap_err(), Status::InvalidArgument);
    assert_eq!(Status::InvalidArgument.code(), 2);
    // Exactly plaintext length plus tag: accepted.
    let r = aead_encrypt(&key, &nonce, &plaintext, &aad, plaintext.len() + 16);
    assert!(r.is_ok());
}

#[test]
fn test_encrypt_empty_plaintext_refused() {
    let key = vec![0x11u8; 32];
    let nonce = vec![0x22u8; 12];
    let r = aead_encrypt(&key, &nonce, &Vec::new(), &Vec::new(), 64);
    assert_eq!(r.unwrap_err(), Status::InvalidArgument);
}

#[test]
fn test_wrong_key_or_nonce_size() {
    let short_key = vec![0x11u8; 31];
    let key = vec![0x11u8; 32];
    let long_nonce = vec![0x22u8; 13];
    let nonce = vec![0x22u8; 12];
    let plaintext: Vec<u8> = b"data".to_vec();
    let r = aead_encrypt(&short_key, &nonce, &plaintext, &Vec::new(), 64);
    assert_eq!(r.unwrap_err(), Status::BadParameters);
    assert_eq!(Status::BadParameters.code(), 3);
    let r = aead_encrypt(&key, &long_nonce, &plaintext, &Vec::new(), 64);
    assert_eq!(r.unwrap_err(), Status::BadParameters);
    let ct = vec![0u8; 20];
    let r = aead_decrypt(&short_key, &nonce, &ct, &Vec::new(), 64);
    assert_eq!(r.unwrap_err(), Status::BadParameters);
}

#[test]
fn test_decrypt_short_ciphertext() {
    let key = vec![0x11u8; 32];
    let nonce = vec![0x22u8; 12];
    // Shorter than the 16-byte tag: no ciphertext at all.
    let ct = vec![0u8; 15];
    let r = aead_decrypt(&key, &nonce, &ct, &Vec::new(), 64);
    assert_eq!(r.unwrap_err(), Status::InvalidArgument);
}

#[test]
fn test_decrypt_garbage_fails_operation() {
    let key = vec![0x11u8; 32];
    let nonce = vec![0x22u8; 12];
    let ct = vec![0u8; 20];
    let r = aead_decrypt(&key, &nonce, &ct, &Vec::new(), 64);
    assert_eq!(r.unwrap_err(), Status::OperationFailed);
    assert_eq!(Status::OperationFailed.code(), 6);
}

#[test]
fn test_encrypt_matches_crate() {
    // The library's ciphertext is exactly what the cipher crate produces
    // when called directly with the same key, nonce, plaintext and
    // associated data.
    let key = vec![0x5au8; 32];
    let nonce = vec![0xa5u8; 12];
    let plaintext: Vec<u8> = b"cross-checked payload".to_vec();
    let aad: Vec<u8> = b"context".to_vec();
    let ours = aead_encrypt(&key, &nonce, &plaintext, &aad, 4096).unwrap();
    let cipher = aes_gcm::Aes256Gcm::new_from_slice(&key).unwrap();
    let theirs = cipher
        .encrypt(
            aes_gcm::aead::generic_array::GenericArray::from_slice(&nonce),
            Payload { msg: &plaintext, aad: &aad },
        )
        .unwrap();
    assert_eq!(ours, theirs);
}

#[test]
fn test_keyed_hash_scenario() {
    // An empty key is refused with code 2.
    let r = keyed_hash(&Vec::new(), &b"message to sign".to_vec());
    assert_eq!(r.unwrap_err(), Status::InvalidArgument);
    assert_eq!(Status::InvalidArgument.code(), 2);
    // A fixed key and message give a fixed, reproducible 32-byte digest.
    let key: Vec<u8> = b"supersecretkey".to_vec();
    let message: Vec<u8> = b"message to sign".to_vec();
    let d1 = keyed_hash(&key, &message).unwrap();
    let d2 = keyed_hash(&key, &message).unwrap();
    assert_eq!(d1.len(), 32);
    assert_eq!(d1, d2);
    // The digest is not the message, and it depends on the key.
    assert_ne!(d1, message);
    let other = keyed_hash(&b"othersecretkey".to_vec(), &message).unwrap();
    assert_ne!(d1, other);
}

#[test]
fn test_keyed_hash_matches_crate() {
    let key: Vec<u8> = b"supersecretkey".to_vec();
    let message: Vec<u8> = b"message to sign".to_vec();
    let ours = keyed_hash(&key, &message).unwrap();
    let mut mac = <hmac::Hmac<sha2::Sha256> as Mac>::new_from_slice(&key).unwrap();
    mac.update(&message);
    let theirs = mac.finalize().into_bytes().to_vec();
    assert_eq!(ours, theirs);
}

#[test]
fn test_keyed_hash_empty_message() {
    // An empty message is not an error.
    let key: Vec<u8> = b"k".to_vec();
    let d = keyed_hash(&key, &Vec::new()).unwrap();
    assert_eq!(d.len(), 32);
}

#[test]
fn test_salt_boundary() {
    let password: Vec<u8> = b"password".to_vec();
    // A salt of exactly 8 bytes is accepted.
    let r = derive_key_bytes(&password, &b"12345678".to_vec(), 1, 1024, 1);
    assert_eq!(r.unwrap().len(), 32);
    // A salt of 7 bytes is rejected with code 2.
    let r = derive_key_bytes(&password, &b"1234567".to_vec(), 1, 1024, 1);
    assert_eq!(r.unwrap_err(), Status::InvalidArgument);
}

#[test]
fn test_derive_domain_checks() {
    let password: Vec<u8> = b"password".to_vec();
    let salt: Vec<u8> = b"12345678".to_vec();
    // Empty password.
    let r = derive_key_bytes(&Vec::new(), &salt, 1, 1024, 1);
    assert_eq!(r.unwrap_err(), Status::InvalidArgument);
    // Zero time cost.
    let r = derive_key_bytes(&password, &salt, 0, 1024, 1);
    assert_eq!(r.unwrap_err(), Status::InvalidArgument);
    // Memory cost below 1024 KiB.
    let r = derive_key_bytes(&password, &salt, 1, 1023, 1);
    assert_eq!(r.unwrap_err(), Status::InvalidArgument);
    // Zero parallelism.
    let r = derive_key_bytes(&password, &salt, 1, 1024, 0);
    assert_eq!(r.unwrap_err(), Status::InvalidArgument);
    // Memory cost below eight blocks per lane: the parameter object is
    // refused with code 3.
    let r = derive_key_bytes(&password, &salt, 1, 1024, 129);
    assert_eq!(r.unwrap_err(), Status::BadParameters);
}

#[test]
fn test_derive_deterministic_bytes() {
    let password: Vec<u8> = b"password".to_vec();
    let salt: Vec<u8> = b"saltsalt".to_vec();
    let a = derive_key_bytes(&password, &salt, 1, 1024, 1).unwrap();
    let b = derive_key_bytes(&password, &salt, 1, 1024, 1).unwrap();
    assert_eq!(a, b);
    // The key is not the password handed back.
    assert_ne!(a, password);
    let c = derive_key_bytes(&password, &b"saltsalz".to_vec(), 1, 1024, 1).unwrap();
    assert_ne!(a, c);
}

#[test]
fn test_status_codes_stable() {
    assert_eq!(Status::Success.code(), 0);
    assert_eq!(Status::NullArgument.code(), 1);
    assert_eq!(Status::InvalidArgument.code(), 2);
    assert_eq!(Status::BadParameters.code(), 3);
    assert_eq!(Status::PrimitiveFailure.code(), 4);
    assert_eq!(Status::CapacityError.code(), 5);
    assert_eq!(Status::OperationFailed.code(), 6);
}

#[test]
fn test_subtracao() {
    assert_eq!(subtracao(8, 5), 3);
    assert_eq!(subtracao(5, 5), 0);
    assert_eq!(subtracao(255, 0), 255);
}
