use crate::error::ProcessError;
use crate::rent::{
    max_lamports_per_byte, pinocchio_minimum_balance, token_account_rent, TOKEN_ACCOUNT_SIZE,
};
use vstd::prelude::*;

verus! {

/// Address of the SPL Token program (`TokenkegQfeZyiNwAJbNbGKPFXCWuBvf9Ss623VQ5DA`).
pub const TOKEN_PROGRAM_ID: [u8; 32] = [
    6, 221, 246, 225, 215, 101, 161, 147, 217, 203, 225, 70, 206, 235, 121, 172,
    28, 180, 133, 237, 95, 91, 55, 145, 58, 140, 245, 133, 126, 255, 0, 169,
];

/// Number of accounts the instruction needs: payer, new account, mint, owner,
/// system program, token program.
pub const REQUIRED_ACCOUNTS: usize = 6;

/// Tag of the SPL Token `InitializeAccount3` instruction.
pub const INITIALIZE_ACCOUNT3_TAG: u8 = 18;

/// Positions of the accounts in the instruction's account list.
pub const PAYER_INDEX: usize = 0;
pub const NEW_ACCOUNT_INDEX: usize = 1;
pub const MINT_INDEX: usize = 2;
pub const OWNER_INDEX: usize = 3;

/// The seed prefix of the new account's program address: the bytes of
/// `"token_account"`.
pub open spec fn token_account_seed() -> Seq<u8> {
    seq![116u8, 111, 107, 101, 110, 95, 97, 99, 99, 111, 117, 110, 116]
}

/// Instruction data of `InitializeAccount3`: the tag, then the owner's address.
pub open spec fn initialize_account3_data(owner: Seq<u8>) -> Seq<u8> {
    seq![INITIALIZE_ACCOUNT3_TAG].add(owner)
}

/// When the instruction is refused before any outside call: fewer than six
/// accounts, or no instruction data (which must hold the address's bump seed).
pub open spec fn refused(num_accounts: int, data: Seq<u8>) -> bool {
    num_accounts < REQUIRED_ACCOUNTS || data.len() == 0
}

/// The lamports that fund the new token account at a given rent rate.
pub open spec fn token_account_funding(lamports_per_byte: int) -> int {
    pinocchio_minimum_balance(lamports_per_byte, TOKEN_ACCOUNT_SIZE as int)
}

/// The seed prefix of the new account's program address, `"token_account"`.
pub fn account_seed() -> (s: Vec<u8>)
    ensures
        s@ == token_account_seed(),
{
    let s: Vec<u8> = vec![116u8, 111, 107, 101, 110, 95, 97, 99, 99, 111, 117, 110, 116];
    assert(s@ =~= token_account_seed());
    s
}

/// Builds the `InitializeAccount3` instruction data for `owner`.
pub fn initialize_account3(owner: &[u8; 32]) -> (d: Vec<u8>)
    ensures
        d@ == initialize_account3_data(owner@),
        d@.len() == 33,
        d@[0] == INITIALIZE_ACCOUNT3_TAG,
        forall|i: int| 0 <= i < 32 ==> #[trigger] d@[i + 1] == owner@[i],
{
    let mut d: Vec<u8> = Vec::new();
    d.push(INITIALIZE_ACCOUNT3_TAG);
    for i in 0..32
        invariant
            d@ =~= seq![INITIALIZE_ACCOUNT3_TAG].add(owner@.take(i as int)),
            owner@.len() == 32,
    {
        d.push(owner[i]);
        assert(owner@.take(i + 1) =~= owner@.take(i as int).push(owner@[i as int]));
    }
    assert(owner@.take(32) =~= owner@);
    d
}

/// A checked instruction, waiting for the rent sysvar's rate.
pub struct RentRequest {
    owner: [u8; 32],
    bump: u8,
}

/// The `CreateAccount` call to make through the System program, signed with
/// the new account's seeds.
pub struct CreateAccountCall {
    owner: [u8; 32],
    bump: u8,
    lamports: u64,
}

/// The `InitializeAccount3` call to make through the SPL Token program.
pub struct InitializeAccountCall {
    owner: [u8; 32],
}

impl RentRequest {
    /// Address of the token account's owner, as given in the instruction.
    pub closed spec fn owner(self) -> [u8; 32] {
        self.owner
    }

    /// The bump seed of the new account's program address.
    pub closed spec fn bump(self) -> u8 {
        self.bump
    }

    /// Given the rate read from the rent sysvar, or the error of that read:
    /// the `CreateAccount` call, funded with pinocchio's rent-exempt minimum
    /// for a token account.
    pub fn on_rent(self, rate: Result<u64, ProcessError>) -> (r: Result<CreateAccountCall, ProcessError>)
        ensures
            rate matches Err(e) ==> r == Err::<CreateAccountCall, ProcessError>(e),
            rate matches Ok(v) ==> (r is Ok <==> v <= max_lamports_per_byte()),
            rate matches Ok(v) && v > max_lamports_per_byte() ==> r == Err::<
                CreateAccountCall,
                ProcessError,
            >(ProcessError::InvalidArgument),
            r matches Ok(c) ==> c.owner() == self.owner() && c.bump() == self.bump(),
            r matches Ok(c) ==> (rate matches Ok(v) && c.lamports() == token_account_funding(
                v as int,
            )),
    {
        match rate {
            Err(e) => Err(e),
            Ok(v) => match token_account_rent(v) {
                Err(e) => Err(e),
                Ok(lamports) => Ok(CreateAccountCall { owner: self.owner, bump: self.bump, lamports }),
            },
        }
    }
}

impl CreateAccountCall {
    /// Address of the token account's owner, kept for the next call.
    pub closed spec fn owner(self) -> [u8; 32] {
        self.owner
    }

    /// The bump seed that signs for the new account.
    pub closed spec fn bump(self) -> u8 {
        self.bump
    }

    /// The lamports that fund the new account.
    pub closed spec fn lamports(self) -> u64 {
        self.lamports
    }

    /// Account that pays: the first of the instruction.
    pub fn payer_index(&self) -> (i: usize)
        ensures
            i == PAYER_INDEX,
    {
        PAYER_INDEX
    }

    /// Account that is created: the second of the instruction.
    pub fn new_account_index(&self) -> (i: usize)
        ensures
            i == NEW_ACCOUNT_INDEX,
    {
        NEW_ACCOUNT_INDEX
    }

    /// Lamports moved to the new account.
    pub fn lamports_to_fund(&self) -> (l: u64)
        ensures
            l == self.lamports(),
    {
        self.lamports
    }

    /// Bytes allocated for the new account: the size of a token account.
    pub fn space(&self) -> (s: u64)
        ensures
            s == TOKEN_ACCOUNT_SIZE,
    {
        TOKEN_ACCOUNT_SIZE
    }

    /// Program that will own the new account: the SPL Token program.
    pub fn program_owner(&self) -> (p: [u8; 32])
        ensures
            p == TOKEN_PROGRAM_ID,
    {
        TOKEN_PROGRAM_ID
    }

    /// The signer seeds of the new account: `"token_account"`, then the bump.
    pub fn signer_seeds(&self) -> (s: (Vec<u8>, u8))
        ensures
            s.0@ == token_account_seed(),
            s.1 == self.bump(),
    {
        (account_seed(), self.bump)
    }

    /// Given the outcome of the `CreateAccount` call: the `InitializeAccount3`
    /// call, or the call's error, which ends the instruction.
    pub fn on_created(self, outcome: Result<(), ProcessError>) -> (r: Result<
        InitializeAccountCall,
        ProcessError,
    >)
        ensures
            outcome matches Err(e) ==> r == Err::<InitializeAccountCall, ProcessError>(e),
            outcome is Ok ==> (r matches Ok(i) && i.owner() == self.owner()),
    {
        match outcome {
            Err(e) => Err(e),
            Ok(()) => Ok(InitializeAccountCall { owner: self.owner }),
        }
    }
}

impl InitializeAccountCall {
    /// Address of the token account's owner, written into the instruction data.
    pub closed spec fn owner(self) -> [u8; 32] {
        self.owner
    }

    /// Program invoked: the SPL Token program.
    pub fn program_id(&self) -> (p: [u8; 32])
        ensures
            p == TOKEN_PROGRAM_ID,
    {
        TOKEN_PROGRAM_ID
    }

    /// Accounts of the call, by position in the instruction's account list and
    /// whether they are writable: the new account (writable), then the mint.
    pub fn accounts(&self) -> (a: Vec<(usize, bool)>)
        ensures
            a@ == seq![(NEW_ACCOUNT_INDEX, true), (MINT_INDEX, false)],
    {
        let a: Vec<(usize, bool)> = vec![(NEW_ACCOUNT_INDEX, true), (MINT_INDEX, false)];
        assert(a@ =~= seq![(NEW_ACCOUNT_INDEX, true), (MINT_INDEX, false)]);
        a
    }

    /// Instruction data: `InitializeAccount3` for the owner.
    pub fn data(&self) -> (d: Vec<u8>)
        ensures
            d@ == initialize_account3_data(self.owner()@),
            d@.len() == 33,
            d@[0] == INITIALIZE_ACCOUNT3_TAG,
            forall|i: int| 0 <= i < 32 ==> #[trigger] d@[i + 1] == self.owner()@[i],
    {
        initialize_account3(&self.owner)
    }

    /// Given the outcome of the `InitializeAccount3` call: the instruction's
    /// result, which is that outcome.
    pub fn on_initialized(self, outcome: Result<(), ProcessError>) -> (r: Result<(), ProcessError>)
        ensures
            r == outcome,
    {
        outcome
    }
}

/// Checks the instruction: its accounts by address, and its data. Refused with
/// `NotEnoughAccountKeys` where there are fewer than six accounts or no data;
/// otherwise the rent sysvar is to be read next, for the owner (the fourth
/// account) and the bump seed (the first data byte).
pub fn start(accounts: &[[u8; 32]], data: &[u8]) -> (r: Result<RentRequest, ProcessError>)
    ensures
        r is Err <==> refused(accounts@.len() as int, data@),
        r is Err <==> (accounts@.len() < 6 || data@.len() == 0),
        accounts@.len() >= 6 && data@.len() > 0 ==> r is Ok,
        r matches Err(e) ==> e == ProcessError::NotEnoughAccountKeys,
        r matches Ok(q) ==> q.owner() == accounts@[OWNER_INDEX as int] && q.bump() == data@[0],
{
    if accounts.len() < REQUIRED_ACCOUNTS || data.len() == 0 {
        return Err(ProcessError::NotEnoughAccountKeys);
    }
    Ok(RentRequest { owner: accounts[OWNER_INDEX], bump: data[0] })
}

} // verus!
