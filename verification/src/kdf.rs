//! Password-based key derivation (Argon2id).
//!
//! `derive_key_bytes` is the validated compute core on plain byte values;
//! `derive_key` is the call-boundary form that reads its inputs from the
//! linear memory and writes the derived key back into it.

use vstd::prelude::*;

use crate::memory::{buffer_bytes, buffer_in_bounds, bytes_written, LinearMemory};
use crate::status::Status;

verus! {

/// Length of every derived key, in bytes; not configurable.
pub const DERIVED_KEY_LEN: u32 = 32;

/// Smallest accepted salt, in bytes.
pub const SALT_MIN_LEN: u32 = 8;

/// Smallest accepted memory cost, in KiB.
pub const MEMORY_COST_MIN: u32 = 1024;

/// Largest degree of parallelism the derivation primitive accepts.
pub const PARALLELISM_MAX: u32 = 0xFFFFFF;

/// Largest password or salt the derivation primitive accepts, in bytes.
pub const KDF_INPUT_MAX: usize = 0xFFFFFFFF;

/// The 32 bytes Argon2id derives from these inputs.  The derivation is a
/// function of its arguments alone: identical inputs give identical keys.
pub uninterp spec fn argon2id_key(
    password: Seq<u8>,
    salt: Seq<u8>,
    time_cost: u32,
    memory_cost: u32,
    parallelism: u32,
) -> Seq<u8>;

/// How one call of the derivation primitive ended.
enum KdfOutcome {
    /// The derived key, 32 bytes.
    Derived(Vec<u8>),
    /// The parameter object was refused before any derivation ran.
    BadParams,
    /// The parameters stood but the derivation itself refused its inputs.
    Failed,
}

/// Relies on argon2: `Params::new(memory_cost, time_cost, parallelism,
/// Some(32))`, then `Argon2::new(Algorithm::Argon2id, Version::V0x13, ..)`
/// and `Argon2::hash_password_into`.  With the costs already in the ranges
/// required below, `Params::new` fails exactly when the memory cost is
/// below eight blocks per lane, and the derivation itself fails exactly
/// when the salt is shorter than 8 bytes or the salt or password is longer
/// than 2^32 - 1 bytes.  The derivation allocates `memory_cost` KiB; if the
/// machine cannot provide it, the whole instance aborts, as the module's
/// allocator contract says.
#[verifier::external_body]
fn argon2id_derive(
    password: &Vec<u8>,
    salt: &Vec<u8>,
    time_cost: u32,
    memory_cost: u32,
    parallelism: u32,
) -> (r: KdfOutcome)
    requires
        time_cost >= 1,
        memory_cost >= 8,
        1 <= parallelism <= PARALLELISM_MAX,
    ensures
        (match r {
            KdfOutcome::Derived(k) => k@ == argon2id_key(
                password@,
                salt@,
                time_cost,
                memory_cost,
                parallelism,
            ) && k@.len() == DERIVED_KEY_LEN && memory_cost >= 8 * (parallelism as int)
                && SALT_MIN_LEN <= salt@.len() <= KDF_INPUT_MAX && password@.len() <= KDF_INPUT_MAX,
            KdfOutcome::BadParams => memory_cost < 8 * (parallelism as int),
            KdfOutcome::Failed => memory_cost >= 8 * (parallelism as int) && (salt@.len()
                < SALT_MIN_LEN || salt@.len() > KDF_INPUT_MAX || password@.len() > KDF_INPUT_MAX),
        }),
{
    let params = match argon2::Params::new(memory_cost, time_cost, parallelism, Some(32)) {
        Ok(p) => p,
        Err(_) => return KdfOutcome::BadParams,
    };
    let ctx = argon2::Argon2::new(argon2::Algorithm::Argon2id, argon2::Version::V0x13, params);
    let mut out = [0u8; 32];
    match ctx.hash_password_into(password.as_slice(), salt.as_slice(), &mut out) {
        Ok(_) => KdfOutcome::Derived(out.to_vec()),
        Err(_) => KdfOutcome::Failed,
    }
}

/// The status `derive_key_bytes` owes on these inputs, decided in the fixed
/// validation order: domain first, then parameter construction, then the
/// derivation primitive's own input limits.
pub open spec fn derive_key_bytes_status(
    password: Seq<u8>,
    salt: Seq<u8>,
    time_cost: u32,
    memory_cost: u32,
    parallelism: u32,
) -> Status {
    if password.len() == 0 || salt.len() < SALT_MIN_LEN || time_cost < 1 || memory_cost
        < MEMORY_COST_MIN || parallelism < 1 {
        Status::InvalidArgument
    } else if parallelism > PARALLELISM_MAX || memory_cost < 8 * (parallelism as int) {
        Status::BadParameters
    } else if salt.len() > KDF_INPUT_MAX || password.len() > KDF_INPUT_MAX {
        Status::PrimitiveFailure
    } else {
        Status::Success
    }
}

/// Derive a 32-byte key from a password and salt with the given Argon2id
/// cost parameters.  Identical inputs always give the identical key.
pub fn derive_key_bytes(
    password: &Vec<u8>,
    salt: &Vec<u8>,
    time_cost: u32,
    memory_cost: u32,
    parallelism: u32,
) -> (r: Result<Vec<u8>, Status>)
    ensures
        (match r {
            Ok(k) => derive_key_bytes_status(password@, salt@, time_cost, memory_cost, parallelism)
                is Success && k@ == argon2id_key(
                password@,
                salt@,
                time_cost,
                memory_cost,
                parallelism,
            ) && k@.len() == DERIVED_KEY_LEN,
            Err(s) => s == derive_key_bytes_status(
                password@,
                salt@,
                time_cost,
                memory_cost,
                parallelism,
            ) && !(s is Success),
        }),
{
    if password.len() == 0 || salt.len() < SALT_MIN_LEN as usize || time_cost < 1 || memory_cost
        < MEMORY_COST_MIN || parallelism < 1 {
        return Err(Status::InvalidArgument);
    }
    if parallelism > PARALLELISM_MAX {
        return Err(Status::BadParameters);
    }
    match argon2id_derive(password, salt, time_cost, memory_cost, parallelism) {
        KdfOutcome::Derived(k) => Ok(k),
        KdfOutcome::BadParams => Err(Status::BadParameters),
        KdfOutcome::Failed => Err(Status::PrimitiveFailure),
    }
}

/// The status `derive_key` owes on these inputs: null addresses first, then
/// bounds and domain, then the parameter object, then the primitive.  With
/// 32-bit lengths the primitive's own input limits can never be exceeded,
/// so every remaining input derives a key.
pub open spec fn derive_key_status(
    mem: Seq<u8>,
    password_ptr: u32,
    password_len: u32,
    salt_ptr: u32,
    salt_len: u32,
    time_cost: u32,
    memory_cost: u32,
    parallelism: u32,
    out_ptr: u32,
) -> int {
    if (password_ptr == 0 && password_len > 0) || (salt_ptr == 0 && salt_len > 0) || out_ptr == 0 {
        1
    } else if !buffer_in_bounds(mem.len() as int, password_ptr, password_len) || !buffer_in_bounds(
        mem.len() as int,
        salt_ptr,
        salt_len,
    ) || !buffer_in_bounds(mem.len() as int, out_ptr, DERIVED_KEY_LEN) || password_len == 0
        || salt_len < SALT_MIN_LEN || time_cost < 1 || memory_cost < MEMORY_COST_MIN || parallelism
        < 1 {
        2
    } else if parallelism > PARALLELISM_MAX || memory_cost < 8 * (parallelism as int) {
        3
    } else {
        0
    }
}

/// The key the call-boundary form writes on success: derived from the
/// password and salt bytes read out of the linear memory.
pub open spec fn derived_key_at(
    mem: Seq<u8>,
    password_ptr: u32,
    password_len: u32,
    salt_ptr: u32,
    salt_len: u32,
    time_cost: u32,
    memory_cost: u32,
    parallelism: u32,
) -> Seq<u8> {
    argon2id_key(
        buffer_bytes(mem, password_ptr as int, password_len as int),
        buffer_bytes(mem, salt_ptr as int, salt_len as int),
        time_cost,
        memory_cost,
        parallelism,
    )
}

/// Derive a key across the call boundary: inputs are (address, length)
/// pairs into the linear memory, the outcome is a status code, and exactly
/// 32 bytes appear at `out_ptr` when and only when the status is 0.  On any
/// nonzero status the memory is untouched.
pub fn derive_key(
    mem: &mut LinearMemory,
    password_ptr: u32,
    password_len: u32,
    salt_ptr: u32,
    salt_len: u32,
    time_cost: u32,
    memory_cost: u32,
    parallelism: u32,
    out_ptr: u32,
) -> (status: i32)
    ensures
        status == derive_key_status(
            old(mem)@,
            password_ptr,
            password_len,
            salt_ptr,
            salt_len,
            time_cost,
            memory_cost,
            parallelism,
            out_ptr,
        ),
        final(mem).alloc_mark() == old(mem).alloc_mark(),
        final(mem)@.len() == old(mem)@.len(),
        status != 0 ==> final(mem)@ == old(mem)@,
        status == 0 ==> bytes_written(
            old(mem)@,
            final(mem)@,
            out_ptr as int,
            derived_key_at(
                old(mem)@,
                password_ptr,
                password_len,
                salt_ptr,
                salt_len,
                time_cost,
                memory_cost,
                parallelism,
            ),
        ) && derived_key_at(
            old(mem)@,
            password_ptr,
            password_len,
            salt_ptr,
            salt_len,
            time_cost,
            memory_cost,
            parallelism,
        ).len() == DERIVED_KEY_LEN,
{
    if (password_ptr == 0 && password_len > 0) || (salt_ptr == 0 && salt_len > 0) || out_ptr == 0 {
        return 1;
    }
    let password = match mem.view_buffer(password_ptr, password_len) {
        Ok(v) => v,
        Err(_) => return 2,
    };
    let salt = match mem.view_buffer(salt_ptr, salt_len) {
        Ok(v) => v,
        Err(_) => return 2,
    };
    let mem_len = mem.size();
    if (out_ptr as u64) + (DERIVED_KEY_LEN as u64) > (mem_len as u64) {
        return 2;
    }
    if password_len == 0 || salt_len < SALT_MIN_LEN || time_cost < 1 || memory_cost
        < MEMORY_COST_MIN || parallelism < 1 {
        return 2;
    }
    match derive_key_bytes(&password, &salt, time_cost, memory_cost, parallelism) {
        Ok(key) => {
            mem.write_bytes(out_ptr, &key);
            0
        },
        Err(s) => s.code(),
    }
}

} // verus!
