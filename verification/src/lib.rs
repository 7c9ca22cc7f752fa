//! Verified decision logic of a small Solana program that creates a
//! token-account program address funded with pinocchio's rent-exempt minimum,
//! then initializes it through the SPL Token program (`InitializeAccount3`).
//!
//! The instruction runs as a chain of steps; each step is a value that says
//! which outside call to make next and takes that call's outcome:
//! [`start`] checks the instruction, [`RentRequest`] takes the rent rate,
//! [`CreateAccountCall`] takes the outcome of `CreateAccount`, and
//! [`InitializeAccountCall`] takes the outcome of `InitializeAccount3`.

mod error;
mod laws;
mod process;
mod rent;

pub use laws::{
    lemma_funding_monotonic, lemma_funding_scales_with_rate, lemma_initialize_account3_copies_owner,
    lemma_initialize_account3_injective, lemma_refusal_ignores_data_bytes,
    lemma_refused_only_by_count_and_emptiness,
};
pub use process::{
    account_seed, initialize_account3, start, CreateAccountCall, InitializeAccountCall,
    RentRequest, INITIALIZE_ACCOUNT3_TAG, MINT_INDEX, NEW_ACCOUNT_INDEX, OWNER_INDEX,
    PAYER_INDEX, REQUIRED_ACCOUNTS, TOKEN_PROGRAM_ID,
};
pub use error::ProcessError;
pub use rent::{token_account_rent, TOKEN_ACCOUNT_SIZE};
