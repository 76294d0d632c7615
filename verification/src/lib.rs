//! A cryptographic module for a sandboxed, memory-isolated instance.
//!
//! The embedding host talks to the module only through raw addresses and byte
//! lengths into one linear memory region.  Every exported operation validates
//! the untyped (address, length) pairs it is given before touching them, never
//! reads or writes outside the caller-declared bounds, fails closed on
//! authentication failure, and reports its outcome as a stable integer status
//! code, since no exception can cross the sandbox boundary.
//!
//! * [`memory`] — the linear memory region, its bump allocator, and the single
//!   chokepoint that turns an (address, length) pair into a checked byte view.
//! * [`status`] — the closed registry of integer status codes.
//! * [`kdf`] — password-based key derivation (Argon2id).
//! * [`aead`] — authenticated encryption and decryption (AES-256-GCM).
//! * [`mac`] — keyed hashing (HMAC-SHA-256).

use vstd::prelude::*;

pub mod aead;
pub mod kdf;
pub mod mac;
pub mod memory;
pub mod status;

verus! {

/// Difference of two bytes, exposed to hosts as a plain value-in, value-out
/// call.  The caller must not ask for a difference below zero.
pub fn subtracao(numero_a: u8, numero_b: u8) -> (r: u8)
    requires
        numero_b <= numero_a,
    ensures
        r == numero_a - numero_b,
{
    numero_a - numero_b
}

} // verus!
