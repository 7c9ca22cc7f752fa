use pinocchio::error::ProgramError;
use pinocchio::sysvars::rent::Rent;
use crate::error::ProcessError;
use vstd::prelude::*;

verus! {

/// The declaration of the runtime's error type, which the rent computation
/// of pinocchio reports; it is carried through opaquely.
#[verifier::external_type_specification]
#[verifier::external_body]
pub struct ExProgramError(ProgramError);

/// Bytes that every account is charged for on top of its data.
pub open spec fn account_storage_overhead() -> int {
    128
}

/// Largest account data length that pinocchio accepts for a rent computation.
pub open spec fn max_permitted_data_length() -> int {
    10485760
}

/// Largest rent rate (lamports per byte) that pinocchio accepts.
pub open spec fn max_lamports_per_byte() -> int {
    1_759_197_129_867
}

/// Data length of an SPL Token account.
pub const TOKEN_ACCOUNT_SIZE: u64 = 165;

/// The rent-exempt minimum as pinocchio computes it: the data length plus the
/// storage overhead, times the rate. No exemption threshold enters it.
pub open spec fn pinocchio_minimum_balance(lamports_per_byte: int, data_len: int) -> int {
    (account_storage_overhead() + data_len) * lamports_per_byte
}

/// `Rent::try_minimum_balance` of pinocchio, on a `Rent` that holds the rate
/// `lamports_per_byte` (built from the rate's native-endian bytes with
/// `Rent::from_bytes`, which reads them back as they are).
/// As pinocchio's source shows, it fails exactly when `data_len` exceeds
/// 10 MiB or the rate exceeds 1_759_197_129_867, and otherwise returns
/// `(128 + data_len) * lamports_per_byte`, which then fits in a `u64`.
#[verifier::external_body]
fn rent_try_minimum_balance(lamports_per_byte: u64, data_len: usize) -> (r: Result<u64, ProgramError>)
    ensures
        r is Ok <==> (data_len <= max_permitted_data_length() && lamports_per_byte
            <= max_lamports_per_byte()),
        r matches Ok(v) ==> v == pinocchio_minimum_balance(lamports_per_byte as int, data_len as int),
{
    match Rent::from_bytes(&lamports_per_byte.to_ne_bytes()) {
        Ok(rent) => rent.try_minimum_balance(data_len),
        Err(e) => Err(e),
    }
}

/// The lamports with which pinocchio funds a new token account when the rent
/// sysvar holds the rate `lamports_per_byte`: `(128 + 165) * lamports_per_byte`,
/// or `InvalidArgument` where the rate is too large for pinocchio to compute with.
pub fn token_account_rent(lamports_per_byte: u64) -> (r: Result<u64, ProcessError>)
    ensures
        r is Ok <==> lamports_per_byte <= max_lamports_per_byte(),
        r matches Ok(v) ==> v == pinocchio_minimum_balance(
            lamports_per_byte as int,
            TOKEN_ACCOUNT_SIZE as int,
        ),
        r matches Err(e) ==> e == ProcessError::InvalidArgument,
{
    match rent_try_minimum_balance(lamports_per_byte, TOKEN_ACCOUNT_SIZE as usize) {
        Ok(v) => Ok(v),
        Err(_) => Err(ProcessError::InvalidArgument),
    }
}

} // verus!
