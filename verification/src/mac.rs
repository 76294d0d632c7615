//! Keyed hashing (HMAC-SHA-256).
//!
//! `keyed_hash` is the validated compute core on plain byte values;
//! `hmac_sha256` is the call-boundary form that reads its inputs from the
//! linear memory and writes the 32-byte digest back into it.

use vstd::prelude::*;

use crate::memory::{buffer_bytes, buffer_in_bounds, bytes_written, LinearMemory};
use crate::status::Status;

verus! {

/// Length of every digest, in bytes.
pub const DIGEST_LEN: u32 = 32;

/// The 32-byte HMAC-SHA-256 digest of `message` under `key`.  The digest is
/// a function of its arguments alone: identical inputs give identical
/// digests.
pub uninterp spec fn hmac_sha256_digest(key: Seq<u8>, message: Seq<u8>) -> Seq<u8>;

/// Relies on hmac: `Hmac::<sha2::Sha256>::new_from_slice`, `Mac::update`,
/// `Mac::finalize`.  HMAC accepts a key of any length, padding or hashing
/// it as the construction requires, so building the authenticator cannot
/// fail; the finalized output is exactly 32 bytes for SHA-256.
#[verifier::external_body]
fn hmac_sha256_tag(key: &Vec<u8>, message: &Vec<u8>) -> (r: Vec<u8>)
    ensures
        r@ == hmac_sha256_digest(key@, message@),
        r@.len() == DIGEST_LEN,
{
    let mut mac = <hmac::Hmac<sha2::Sha256> as hmac::Mac>::new_from_slice(key.as_slice()).unwrap();
    hmac::Mac::update(&mut mac, message.as_slice());
    hmac::Mac::finalize(mac).into_bytes().to_vec()
}

/// Compute the keyed digest of `message` under `key`.  An empty key is
/// refused; an empty message is not an error.
pub fn keyed_hash(key: &Vec<u8>, message: &Vec<u8>) -> (r: Result<Vec<u8>, Status>)
    ensures
        r is Ok <==> key@.len() > 0,
        (r matches Ok(d) ==> d@ == hmac_sha256_digest(key@, message@) && d@.len() == DIGEST_LEN),
        (r matches Err(s) ==> s == Status::InvalidArgument),
{
    if key.len() == 0 {
        return Err(Status::InvalidArgument);
    }
    Ok(hmac_sha256_tag(key, message))
}

/// The status `hmac_sha256` owes on these inputs: null addresses first,
/// then bounds and the empty-key check; every remaining input is digested.
pub open spec fn hmac_sha256_status(
    mem: Seq<u8>,
    key_ptr: u32,
    key_len: u32,
    message_ptr: u32,
    message_len: u32,
    out_ptr: u32,
) -> int {
    if (key_ptr == 0 && key_len > 0) || (message_ptr == 0 && message_len > 0) || out_ptr == 0 {
        1
    } else if !buffer_in_bounds(mem.len() as int, key_ptr, key_len) || !buffer_in_bounds(
        mem.len() as int,
        message_ptr,
        message_len,
    ) || !buffer_in_bounds(mem.len() as int, out_ptr, DIGEST_LEN) || key_len == 0 {
        2
    } else {
        0
    }
}

/// The digest the call-boundary form writes on success: computed over the
/// key and message bytes read out of the linear memory.
pub open spec fn digest_at(
    mem: Seq<u8>,
    key_ptr: u32,
    key_len: u32,
    message_ptr: u32,
    message_len: u32,
) -> Seq<u8> {
    hmac_sha256_digest(
        buffer_bytes(mem, key_ptr as int, key_len as int),
        buffer_bytes(mem, message_ptr as int, message_len as int),
    )
}

/// Keyed hashing across the call boundary: inputs are (address, length)
/// pairs into the linear memory, the outcome is a status code, and exactly
/// 32 bytes appear at `out_ptr` when and only when the status is 0.  On any
/// nonzero status the memory is untouched.
pub fn hmac_sha256(
    mem: &mut LinearMemory,
    key_ptr: u32,
    key_len: u32,
    message_ptr: u32,
    message_len: u32,
    out_ptr: u32,
) -> (status: i32)
    ensures
        status == hmac_sha256_status(old(mem)@, key_ptr, key_len, message_ptr, message_len, out_ptr),
        final(mem).alloc_mark() == old(mem).alloc_mark(),
        final(mem)@.len() == old(mem)@.len(),
        status != 0 ==> final(mem)@ == old(mem)@,
        status == 0 ==> bytes_written(
            old(mem)@,
            final(mem)@,
            out_ptr as int,
            digest_at(old(mem)@, key_ptr, key_len, message_ptr, message_len),
        ) && digest_at(old(mem)@, key_ptr, key_len, message_ptr, message_len).len() == DIGEST_LEN,
{
    if (key_ptr == 0 && key_len > 0) || (message_ptr == 0 && message_len > 0) || out_ptr == 0 {
        return 1;
    }
    let key = match mem.view_buffer(key_ptr, key_len) {
        Ok(v) => v,
        Err(_) => return 2,
    };
    let message = match mem.view_buffer(message_ptr, message_len) {
        Ok(v) => v,
        Err(_) => return 2,
    };
    let mem_len = mem.size();
    if (out_ptr as u64) + (DIGEST_LEN as u64) > (mem_len as u64) {
        return 2;
    }
    if key_len == 0 {
        return 2;
    }
    match keyed_hash(&key, &message) {
        Ok(digest) => {
            mem.write_bytes(out_ptr, &digest);
            0
        },
        Err(s) => s.code(),
    }
}

} // verus!
