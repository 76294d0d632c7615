//! Authenticated encryption with associated data (AES-256-GCM).
//!
//! `aead_encrypt` and `aead_decrypt` are the validated compute cores on
//! plain byte values; `aes_gcm_encrypt` and `aes_gcm_decrypt` are the
//! call-boundary forms that read their inputs from the linear memory and
//! write the result back into it.  Decryption fails closed: on any nonzero
//! status not one byte of the output buffer is written.

use vstd::prelude::*;

use crate::memory::{
    buffer_bytes, buffer_in_bounds, bytes_written, lemma_frame_preserved, region_disjoint,
    LinearMemory,
};
use crate::status::Status;

verus! {

/// Length of a key, in bytes.
pub const KEY_LEN: u32 = 32;

/// Length of a nonce, in bytes.
pub const NONCE_LEN: u32 = 12;

/// Length of the authentication tag that trails every ciphertext, in bytes.
pub const TAG_LEN: u32 = 16;

/// Largest plaintext the cipher will seal, in bytes.
pub const GCM_P_MAX: u64 = 0x1000000000;

/// Largest associated data the cipher will bind, in bytes.
pub const GCM_A_MAX: u64 = 0x1000000000;

/// The ciphertext-with-tag AES-256-GCM produces when sealing `plaintext`
/// under `key` and `nonce`, binding `aad` into the tag.  Sealing is a
/// function of its arguments alone.
pub uninterp spec fn gcm_seal(key: Seq<u8>, nonce: Seq<u8>, plaintext: Seq<u8>, aad: Seq<u8>) -> Seq<
    u8,
>;

/// Some plaintext of admissible size seals to this ciphertext under the
/// given key, nonce and associated data; equivalently, its trailing tag
/// authenticates.
pub open spec fn gcm_openable(key: Seq<u8>, nonce: Seq<u8>, ciphertext: Seq<u8>, aad: Seq<u8>) -> bool {
    exists|p: Seq<u8>| p.len() <= GCM_P_MAX && ciphertext == #[trigger] gcm_seal(key, nonce, p, aad)
}

/// Round trip, first half: whatever an admissible plaintext seals to under
/// a key, nonce and associated data is openable under the same three, so
/// decryption owes it status 0.  That the plaintext recovered is exactly
/// the one sealed is stated by `aead_decrypt`'s last `ensures` clause.
pub proof fn lemma_seal_round_trip(key: Seq<u8>, nonce: Seq<u8>, plaintext: Seq<u8>, aad: Seq<u8>)
    requires
        plaintext.len() <= GCM_P_MAX,
    ensures
        gcm_openable(key, nonce, gcm_seal(key, nonce, plaintext, aad), aad),
{
}

/// Relies on aes_gcm: `Aes256Gcm::new_from_slice` on the 32-byte key (which
/// then cannot fail), and `Aead::encrypt` with the plaintext and associated
/// data as the payload.  The crate refuses only a plaintext above 2^36
/// bytes or associated data above 2^36 bytes; the ciphertext it returns is
/// the plaintext's length plus the 16-byte tag.
#[verifier::external_body]
fn aes256gcm_seal(key: &Vec<u8>, nonce: &Vec<u8>, plaintext: &Vec<u8>, aad: &Vec<u8>) -> (r: Option<
    Vec<u8>,
>)
    requires
        key@.len() == KEY_LEN,
        nonce@.len() == NONCE_LEN,
    ensures
        (r matches Some(c) ==> c@ == gcm_seal(key@, nonce@, plaintext@, aad@) && c@.len()
            == plaintext@.len() + TAG_LEN),
        plaintext@.len() <= GCM_P_MAX && aad@.len() <= GCM_A_MAX ==> r is Some,
{
    let cipher = match <aes_gcm::Aes256Gcm as aes_gcm::KeyInit>::new_from_slice(key.as_slice()) {
        Ok(c) => c,
        Err(_) => return None,
    };
    let nonce_arr = aes_gcm::aead::generic_array::GenericArray::from_slice(nonce.as_slice());
    let payload = aes_gcm::aead::Payload { msg: plaintext.as_slice(), aad: aad.as_slice() };
    match aes_gcm::aead::Aead::encrypt(&cipher, nonce_arr, payload) {
        Ok(c) => Some(c),
        Err(_) => None,
    }
}

/// Relies on aes_gcm: `Aes256Gcm::new_from_slice` on the 32-byte key (which
/// then cannot fail), and `Aead::decrypt` with the ciphertext and
/// associated data as the payload.  Decryption succeeds exactly on a
/// ciphertext whose trailing tag authenticates under this key, nonce and
/// associated data, and then returns the plaintext that was sealed --- the
/// documented round trip of the AEAD interface.  Any other input, a too
/// short ciphertext included, is refused.
#[verifier::external_body]
fn aes256gcm_open(key: &Vec<u8>, nonce: &Vec<u8>, ciphertext: &Vec<u8>, aad: &Vec<u8>) -> (r: Option<
    Vec<u8>,
>)
    requires
        key@.len() == KEY_LEN,
        nonce@.len() == NONCE_LEN,
    ensures
        (r matches Some(p) ==> p@.len() + TAG_LEN == ciphertext@.len() && ciphertext@ == gcm_seal(
            key@,
            nonce@,
            p@,
            aad@,
        )),
        forall|p: Seq<u8>|
            p.len() <= GCM_P_MAX && aad@.len() <= GCM_A_MAX && ciphertext@ == #[trigger] gcm_seal(
                key@,
                nonce@,
                p,
                aad@,
            ) ==> r is Some && r.unwrap()@ == p,
{
    let cipher = match <aes_gcm::Aes256Gcm as aes_gcm::KeyInit>::new_from_slice(key.as_slice()) {
        Ok(c) => c,
        Err(_) => return None,
    };
    let nonce_arr = aes_gcm::aead::generic_array::GenericArray::from_slice(nonce.as_slice());
    let payload = aes_gcm::aead::Payload { msg: ciphertext.as_slice(), aad: aad.as_slice() };
    match aes_gcm::aead::Aead::decrypt(&cipher, nonce_arr, payload) {
        Ok(p) => Some(p),
        Err(_) => None,
    }
}

/// The status `aead_encrypt` owes on these inputs, decided in the fixed
/// validation order: lengths and capacity first, then key and nonce size,
/// then the cipher's own input limits.
pub open spec fn aead_encrypt_status(
    key: Seq<u8>,
    nonce: Seq<u8>,
    plaintext: Seq<u8>,
    aad: Seq<u8>,
    out_len: int,
) -> Status {
    if plaintext.len() == 0 || out_len < plaintext.len() + TAG_LEN {
        Status::InvalidArgument
    } else if key.len() != KEY_LEN || nonce.len() != NONCE_LEN {
        Status::BadParameters
    } else if plaintext.len() > GCM_P_MAX || aad.len() > GCM_A_MAX {
        Status::OperationFailed
    } else {
        Status::Success
    }
}

/// Seal `plaintext` under `key` and `nonce`, binding `aad`, for an output
/// buffer of `out_len` bytes.  The ciphertext is the plaintext followed by
/// the 16-byte authentication tag.
pub fn aead_encrypt(
    key: &Vec<u8>,
    nonce: &Vec<u8>,
    plaintext: &Vec<u8>,
    aad: &Vec<u8>,
    out_len: usize,
) -> (r: Result<Vec<u8>, Status>)
    ensures
        (match r {
            Ok(c) => aead_encrypt_status(key@, nonce@, plaintext@, aad@, out_len as int) is Success
                && c@ == gcm_seal(key@, nonce@, plaintext@, aad@) && c@.len() == plaintext@.len()
                + TAG_LEN && c@.len() <= out_len,
            Err(s) => s == aead_encrypt_status(key@, nonce@, plaintext@, aad@, out_len as int) && !(s
                is Success),
        }),
{
    if plaintext.len() == 0 || out_len < (TAG_LEN as usize) || (out_len - (TAG_LEN as usize))
        < plaintext.len() {
        return Err(Status::InvalidArgument);
    }
    if key.len() != KEY_LEN as usize || nonce.len() != NONCE_LEN as usize {
        return Err(Status::BadParameters);
    }
    if (plaintext.len() as u64) > GCM_P_MAX || (aad.len() as u64) > GCM_A_MAX {
        return Err(Status::OperationFailed);
    }
    match aes256gcm_seal(key, nonce, plaintext, aad) {
        Some(c) => Ok(c),
        None => Err(Status::OperationFailed),
    }
}

/// The argument checks `aead_decrypt` makes before any cryptography runs:
/// lengths and capacity first, then key and nonce size.
pub open spec fn aead_decrypt_check(key: Seq<u8>, nonce: Seq<u8>, ciphertext: Seq<u8>, out_len: int) -> Status {
    if ciphertext.len() < TAG_LEN || out_len < ciphertext.len() - TAG_LEN {
        Status::InvalidArgument
    } else if key.len() != KEY_LEN || nonce.len() != NONCE_LEN {
        Status::BadParameters
    } else {
        Status::Success
    }
}

/// Open a ciphertext sealed under `key` and `nonce` with associated data
/// `aad`, for an output buffer of `out_len` bytes.  Success is owed exactly
/// on a ciphertext that seals some admissible plaintext, and then returns
/// that plaintext; everything else is refused, an authentication failure
/// among it.
pub fn aead_decrypt(
    key: &Vec<u8>,
    nonce: &Vec<u8>,
    ciphertext: &Vec<u8>,
    aad: &Vec<u8>,
    out_len: usize,
) -> (r: Result<Vec<u8>, Status>)
    ensures
        (match r {
            Ok(p) => aead_decrypt_check(key@, nonce@, ciphertext@, out_len as int) is Success
                && p@.len() + TAG_LEN == ciphertext@.len() && ciphertext@ == gcm_seal(
                key@,
                nonce@,
                p@,
                aad@,
            ),
            Err(s) => !(s is Success) && (if !(aead_decrypt_check(
                key@,
                nonce@,
                ciphertext@,
                out_len as int,
            ) is Success) {
                s == aead_decrypt_check(key@, nonce@, ciphertext@, out_len as int)
            } else {
                s == Status::OperationFailed
            }),
        }),
        (aead_decrypt_check(key@, nonce@, ciphertext@, out_len as int) is Success && aad@.len()
            <= GCM_A_MAX ==> forall|p: Seq<u8>|
            p.len() <= GCM_P_MAX && ciphertext@ == #[trigger] gcm_seal(key@, nonce@, p, aad@)
                ==> r is Ok && r.unwrap()@ == p),
{
    if ciphertext.len() < TAG_LEN as usize || out_len < ciphertext.len() - TAG_LEN as usize {
        return Err(Status::InvalidArgument);
    }
    if key.len() != KEY_LEN as usize || nonce.len() != NONCE_LEN as usize {
        return Err(Status::BadParameters);
    }
    match aes256gcm_open(key, nonce, ciphertext, aad) {
        Some(p) => Ok(p),
        None => Err(Status::OperationFailed),
    }
}

/// A required address of the encryption or decryption boundary is null
/// while its declared length is nonzero.  The key and nonce have fixed
/// nonzero lengths; the associated data is optional and never required.
pub open spec fn aead_null_fault(
    key_ptr: u32,
    nonce_ptr: u32,
    msg_ptr: u32,
    msg_len: u32,
    out_ptr: u32,
    out_len: u32,
) -> bool {
    key_ptr == 0 || nonce_ptr == 0 || (msg_ptr == 0 && msg_len > 0) || (out_ptr == 0 && out_len > 0)
}

/// The associated data named by an (address, length) pair: absent --- a
/// null address or zero length --- means empty, not an error.
pub open spec fn aad_bytes(mem: Seq<u8>, aad_ptr: u32, aad_len: u32) -> Seq<u8> {
    if aad_ptr == 0 || aad_len == 0 {
        Seq::empty()
    } else {
        mem.subrange(aad_ptr as int, aad_ptr + aad_len)
    }
}

/// The associated data pair is absent or lies inside the linear memory.
pub open spec fn aad_in_bounds(mem_len: int, aad_ptr: u32, aad_len: u32) -> bool {
    aad_ptr == 0 || aad_len == 0 || aad_ptr + aad_len <= mem_len
}

/// Every buffer of the encryption or decryption boundary lies inside the
/// linear memory.
pub open spec fn aead_bounds_ok(
    mem_len: int,
    key_ptr: u32,
    nonce_ptr: u32,
    msg_ptr: u32,
    msg_len: u32,
    aad_ptr: u32,
    aad_len: u32,
    out_ptr: u32,
    out_len: u32,
) -> bool {
    &&& buffer_in_bounds(mem_len, key_ptr, KEY_LEN)
    &&& buffer_in_bounds(mem_len, nonce_ptr, NONCE_LEN)
    &&& buffer_in_bounds(mem_len, msg_ptr, msg_len)
    &&& buffer_in_bounds(mem_len, out_ptr, out_len)
    &&& aad_in_bounds(mem_len, aad_ptr, aad_len)
}

/// The ciphertext the encryption boundary writes on success: the sealing of
/// the plaintext bytes read out of the linear memory, under the key and
/// nonce bytes read out of it.
pub open spec fn sealed_at(
    mem: Seq<u8>,
    key_ptr: u32,
    nonce_ptr: u32,
    plaintext_ptr: u32,
    plaintext_len: u32,
    aad_ptr: u32,
    aad_len: u32,
) -> Seq<u8> {
    gcm_seal(
        buffer_bytes(mem, key_ptr as int, KEY_LEN as int),
        buffer_bytes(mem, nonce_ptr as int, NONCE_LEN as int),
        buffer_bytes(mem, plaintext_ptr as int, plaintext_len as int),
        aad_bytes(mem, aad_ptr, aad_len),
    )
}

/// The status `aes_gcm_encrypt` owes on these inputs: null addresses first,
/// then bounds, the empty-plaintext check and the output capacity.  With
/// 32-bit lengths the cipher's own input limits can never be exceeded, so
/// every remaining input encrypts.
pub open spec fn aes_gcm_encrypt_status(
    mem: Seq<u8>,
    key_ptr: u32,
    nonce_ptr: u32,
    plaintext_ptr: u32,
    plaintext_len: u32,
    aad_ptr: u32,
    aad_len: u32,
    out_ptr: u32,
    out_len: u32,
) -> int {
    if aead_null_fault(key_ptr, nonce_ptr, plaintext_ptr, plaintext_len, out_ptr, out_len) {
        1
    } else if !aead_bounds_ok(
        mem.len() as int,
        key_ptr,
        nonce_ptr,
        plaintext_ptr,
        plaintext_len,
        aad_ptr,
        aad_len,
        out_ptr,
        out_len,
    ) || plaintext_len == 0 || out_len < plaintext_len + TAG_LEN {
        2
    } else {
        0
    }
}

/// Encrypt across the call boundary: inputs are (address, length) pairs
/// into the linear memory, the outcome is a status code, and exactly
/// `plaintext_len + 16` bytes appear at `out_ptr` when and only when the
/// status is 0.  Bytes of the output buffer beyond that length, and all of
/// memory on a nonzero status, are untouched.
pub fn aes_gcm_encrypt(
    mem: &mut LinearMemory,
    key_ptr: u32,
    nonce_ptr: u32,
    plaintext_ptr: u32,
    plaintext_len: u32,
    aad_ptr: u32,
    aad_len: u32,
    out_ptr: u32,
    out_len: u32,
) -> (status: i32)
    ensures
        status == aes_gcm_encrypt_status(
            old(mem)@,
            key_ptr,
            nonce_ptr,
            plaintext_ptr,
            plaintext_len,
            aad_ptr,
            aad_len,
            out_ptr,
            out_len,
        ),
        final(mem).alloc_mark() == old(mem).alloc_mark(),
        final(mem)@.len() == old(mem)@.len(),
        status != 0 ==> final(mem)@ == old(mem)@,
        status == 0 ==> bytes_written(
            old(mem)@,
            final(mem)@,
            out_ptr as int,
            sealed_at(old(mem)@, key_ptr, nonce_ptr, plaintext_ptr, plaintext_len, aad_ptr, aad_len),
        ) && sealed_at(
            old(mem)@,
            key_ptr,
            nonce_ptr,
            plaintext_ptr,
            plaintext_len,
            aad_ptr,
            aad_len,
        ).len() == plaintext_len + TAG_LEN,
{
    if key_ptr == 0 || nonce_ptr == 0 || (plaintext_ptr == 0 && plaintext_len > 0) || (out_ptr == 0
        && out_len > 0) {
        return 1;
    }
    let key = match mem.view_buffer(key_ptr, KEY_LEN) {
        Ok(v) => v,
        Err(_) => return 2,
    };
    let nonce = match mem.view_buffer(nonce_ptr, NONCE_LEN) {
        Ok(v) => v,
        Err(_) => return 2,
    };
    let plaintext = match mem.view_buffer(plaintext_ptr, plaintext_len) {
        Ok(v) => v,
        Err(_) => return 2,
    };
    let aad = if aad_ptr == 0 || aad_len == 0 {
        Vec::new()
    } else {
        match mem.view_buffer(aad_ptr, aad_len) {
            Ok(v) => v,
            Err(_) => return 2,
        }
    };
    let mem_len = mem.size();
    if (out_ptr as u64) + (out_len as u64) > (mem_len as u64) {
        return 2;
    }
    if plaintext_len == 0 || (out_len as u64) < (plaintext_len as u64) + (TAG_LEN as u64) {
        return 2;
    }
    match aead_encrypt(&key, &nonce, &plaintext, &aad, out_len as usize) {
        Ok(ciphertext) => {
            mem.write_bytes(out_ptr, &ciphertext);
            0
        },
        Err(s) => s.code(),
    }
}

/// The status `aes_gcm_decrypt` owes on these inputs: null addresses first,
/// then bounds, the minimum ciphertext length and the output capacity, then
/// authentication itself: a ciphertext that seals no plaintext under this
/// key, nonce and associated data is refused with code 6.
pub open spec fn aes_gcm_decrypt_status(
    mem: Seq<u8>,
    key_ptr: u32,
    nonce_ptr: u32,
    ciphertext_ptr: u32,
    ciphertext_len: u32,
    aad_ptr: u32,
    aad_len: u32,
    out_ptr: u32,
    out_len: u32,
) -> int {
    if aead_null_fault(key_ptr, nonce_ptr, ciphertext_ptr, ciphertext_len, out_ptr, out_len) {
        1
    } else if !aead_bounds_ok(
        mem.len() as int,
        key_ptr,
        nonce_ptr,
        ciphertext_ptr,
        ciphertext_len,
        aad_ptr,
        aad_len,
        out_ptr,
        out_len,
    ) || ciphertext_len < TAG_LEN || out_len < ciphertext_len - TAG_LEN {
        2
    } else if !gcm_openable(
        buffer_bytes(mem, key_ptr as int, KEY_LEN as int),
        buffer_bytes(mem, nonce_ptr as int, NONCE_LEN as int),
        buffer_bytes(mem, ciphertext_ptr as int, ciphertext_len as int),
        aad_bytes(mem, aad_ptr, aad_len),
    ) {
        6
    } else {
        0
    }
}

/// Decrypt across the call boundary: inputs are (address, length) pairs
/// into the linear memory and the outcome is a status code.  When and only
/// when the status is 0, exactly `ciphertext_len - 16` bytes appear at
/// `out_ptr`, and they are the plaintext whose sealing under the given key,
/// nonce and associated data is the ciphertext.  On any nonzero status ---
/// an authentication failure among them --- not one byte of memory is
/// written: decryption fails closed.
pub fn aes_gcm_decrypt(
    mem: &mut LinearMemory,
    key_ptr: u32,
    nonce_ptr: u32,
    ciphertext_ptr: u32,
    ciphertext_len: u32,
    aad_ptr: u32,
    aad_len: u32,
    out_ptr: u32,
    out_len: u32,
) -> (status: i32)
    ensures
        status == aes_gcm_decrypt_status(
            old(mem)@,
            key_ptr,
            nonce_ptr,
            ciphertext_ptr,
            ciphertext_len,
            aad_ptr,
            aad_len,
            out_ptr,
            out_len,
        ),
        final(mem).alloc_mark() == old(mem).alloc_mark(),
        final(mem)@.len() == old(mem)@.len(),
        status != 0 ==> final(mem)@ == old(mem)@,
        status == 0 ==> ciphertext_len >= TAG_LEN && bytes_written(
            old(mem)@,
            final(mem)@,
            out_ptr as int,
            buffer_bytes(final(mem)@, out_ptr as int, ciphertext_len - TAG_LEN),
        ) && buffer_bytes(old(mem)@, ciphertext_ptr as int, ciphertext_len as int) == gcm_seal(
            buffer_bytes(old(mem)@, key_ptr as int, KEY_LEN as int),
            buffer_bytes(old(mem)@, nonce_ptr as int, NONCE_LEN as int),
            buffer_bytes(final(mem)@, out_ptr as int, ciphertext_len - TAG_LEN),
            aad_bytes(old(mem)@, aad_ptr, aad_len),
        ),
        status == 0 ==> forall|p: Seq<u8>|
            p.len() <= GCM_P_MAX && buffer_bytes(old(mem)@, ciphertext_ptr as int, ciphertext_len as int)
                == #[trigger] gcm_seal(
                buffer_bytes(old(mem)@, key_ptr as int, KEY_LEN as int),
                buffer_bytes(old(mem)@, nonce_ptr as int, NONCE_LEN as int),
                p,
                aad_bytes(old(mem)@, aad_ptr, aad_len),
            ) ==> buffer_bytes(final(mem)@, out_ptr as int, ciphertext_len - TAG_LEN) == p,
{
    if key_ptr == 0 || nonce_ptr == 0 || (ciphertext_ptr == 0 && ciphertext_len > 0) || (out_ptr
        == 0 && out_len > 0) {
        return 1;
    }
    let key = match mem.view_buffer(key_ptr, KEY_LEN) {
        Ok(v) => v,
        Err(_) => return 2,
    };
    let nonce = match mem.view_buffer(nonce_ptr, NONCE_LEN) {
        Ok(v) => v,
        Err(_) => return 2,
    };
    let ciphertext = match mem.view_buffer(ciphertext_ptr, ciphertext_len) {
        Ok(v) => v,
        Err(_) => return 2,
    };
    let aad = if aad_ptr == 0 || aad_len == 0 {
        Vec::new()
    } else {
        match mem.view_buffer(aad_ptr, aad_len) {
            Ok(v) => v,
            Err(_) => return 2,
        }
    };
    let mem_len = mem.size();
    if out_len > 0 && (out_ptr as u64) + (out_len as u64) > (mem_len as u64) {
        return 2;
    }
    if ciphertext_len < TAG_LEN || out_len < ciphertext_len - TAG_LEN {
        return 2;
    }
    match aead_decrypt(&key, &nonce, &ciphertext, &aad, out_len as usize) {
        Ok(plaintext) => {
            mem.write_bytes(out_ptr, &plaintext);
            proof {
                assert(buffer_bytes(mem@, out_ptr as int, ciphertext_len - TAG_LEN)
                    =~= plaintext@);
            }
            0
        },
        Err(_) => 6,
    }
}

/// Round trip, second half, across the call boundary.  After a successful
/// encryption wrote its ciphertext block, a decryption of that block under
/// the same key, nonce and associated data is owed status 0 --- provided
/// the ciphertext block did not overwrite the key, nonce or associated
/// data, and the decryption's own output buffer is non-null, in bounds and
/// large enough.  Which bytes that decryption then writes is pinned by
/// `aes_gcm_decrypt`'s own `ensures`: exactly the plaintext that was
/// sealed.
pub proof fn lemma_bridge_round_trip(
    pre: Seq<u8>,
    post: Seq<u8>,
    key_ptr: u32,
    nonce_ptr: u32,
    plaintext_ptr: u32,
    plaintext_len: u32,
    aad_ptr: u32,
    aad_len: u32,
    ct_ptr: u32,
    ct_out_len: u32,
    ciphertext_len: u32,
    pt_out_ptr: u32,
    pt_out_len: u32,
)
    requires
        aes_gcm_encrypt_status(
            pre,
            key_ptr,
            nonce_ptr,
            plaintext_ptr,
            plaintext_len,
            aad_ptr,
            aad_len,
            ct_ptr,
            ct_out_len,
        ) == 0,
        bytes_written(
            pre,
            post,
            ct_ptr as int,
            sealed_at(pre, key_ptr, nonce_ptr, plaintext_ptr, plaintext_len, aad_ptr, aad_len),
        ),
        sealed_at(pre, key_ptr, nonce_ptr, plaintext_ptr, plaintext_len, aad_ptr, aad_len).len()
            == plaintext_len + TAG_LEN,
        ciphertext_len == plaintext_len + TAG_LEN,
        region_disjoint(key_ptr as int, KEY_LEN as int, ct_ptr as int, ciphertext_len as int),
        region_disjoint(nonce_ptr as int, NONCE_LEN as int, ct_ptr as int, ciphertext_len as int),
        aad_ptr != 0 && aad_len > 0 ==> region_disjoint(
            aad_ptr as int,
            aad_len as int,
            ct_ptr as int,
            ciphertext_len as int,
        ),
        pt_out_ptr != 0,
        buffer_in_bounds(pre.len() as int, pt_out_ptr, pt_out_len),
        pt_out_len >= plaintext_len,
    ensures
        aes_gcm_decrypt_status(
            post,
            key_ptr,
            nonce_ptr,
            ct_ptr,
            ciphertext_len,
            aad_ptr,
            aad_len,
            pt_out_ptr,
            pt_out_len,
        ) == 0,
        buffer_bytes(post, key_ptr as int, KEY_LEN as int) == buffer_bytes(
            pre,
            key_ptr as int,
            KEY_LEN as int,
        ),
        buffer_bytes(post, nonce_ptr as int, NONCE_LEN as int) == buffer_bytes(
            pre,
            nonce_ptr as int,
            NONCE_LEN as int,
        ),
        aad_bytes(post, aad_ptr, aad_len) == aad_bytes(pre, aad_ptr, aad_len),
        buffer_bytes(post, ct_ptr as int, ciphertext_len as int) == gcm_seal(
            buffer_bytes(post, key_ptr as int, KEY_LEN as int),
            buffer_bytes(post, nonce_ptr as int, NONCE_LEN as int),
            buffer_bytes(pre, plaintext_ptr as int, plaintext_len as int),
            aad_bytes(post, aad_ptr, aad_len),
        ),
{
    let sealed = sealed_at(pre, key_ptr, nonce_ptr, plaintext_ptr, plaintext_len, aad_ptr, aad_len);
    lemma_frame_preserved(
        pre,
        post,
        ct_ptr as int,
        sealed,
        key_ptr as int,
        KEY_LEN as int,
    );
    lemma_frame_preserved(
        pre,
        post,
        ct_ptr as int,
        sealed,
        nonce_ptr as int,
        NONCE_LEN as int,
    );
    if aad_ptr != 0 && aad_len > 0 {
        lemma_frame_preserved(
            pre,
            post,
            ct_ptr as int,
            sealed,
            aad_ptr as int,
            aad_len as int,
        );
    }
    assert(aad_bytes(post, aad_ptr, aad_len) == aad_bytes(pre, aad_ptr, aad_len));
    assert(buffer_bytes(post, ct_ptr as int, ciphertext_len as int) =~= sealed);
    let p = buffer_bytes(pre, plaintext_ptr as int, plaintext_len as int);
    assert(p.len() <= GCM_P_MAX);
    assert(buffer_bytes(post, ct_ptr as int, ciphertext_len as int) == gcm_seal(
        buffer_bytes(post, key_ptr as int, KEY_LEN as int),
        buffer_bytes(post, nonce_ptr as int, NONCE_LEN as int),
        p,
        aad_bytes(post, aad_ptr, aad_len),
    ));
    assert(gcm_openable(
        buffer_bytes(post, key_ptr as int, KEY_LEN as int),
        buffer_bytes(post, nonce_ptr as int, NONCE_LEN as int),
        buffer_bytes(post, ct_ptr as int, ciphertext_len as int),
        aad_bytes(post, aad_ptr, aad_len),
    ));
}

} // verus!
