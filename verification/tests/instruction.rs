use pinocchio_rent_bug::{
    account_seed, initialize_account3, start, token_account_rent, ProcessError,
    INITIALIZE_ACCOUNT3_TAG, MINT_INDEX, NEW_ACCOUNT_INDEX, PAYER_INDEX, TOKEN_ACCOUNT_SIZE,
    TOKEN_PROGRAM_ID,
};

fn keys(n: usize) -> Vec<[u8; 32]> {
    (0..n).map(|i| [i as u8 + 10; 32]).collect()
}

#[test]
fn refuses_fewer_than_six_accounts() {
    for n in 0..6 {
        assert_eq!(start(&keys(n), &[7]).err(), Some(ProcessError::NotEnoughAccountKeys));
    }
}

#[test]
fn refuses_empty_instruction_data() {
    assert_eq!(start(&keys(6), &[]).err(), Some(ProcessError::NotEnoughAccountKeys));
    assert_eq!(start(&keys(9), &[]).err(), Some(ProcessError::NotEnoughAccountKeys));
}

#[test]
fn accepts_six_accounts_and_a_bump() {
    assert!(start(&keys(6), &[255]).is_ok());
    assert!(start(&keys(8), &[1, 2, 3]).is_ok());
}

#[test]
fn pre_simd_0194_rate_funds_half_the_rent_exempt_minimum() {
    // (128 + 165) * 3480: half of the 2,039,280 that a threshold of 2.0 asks for.
    assert_eq!(token_account_rent(3480), Ok(1_019_640));
    assert_eq!(token_account_rent(3480).unwrap() * 2, 2_039_280);
}

#[test]
fn simd_0194_rate_funds_the_full_rent_exempt_minimum() {
    assert_eq!(token_account_rent(6960), Ok(2_039_280));
}

#[test]
fn funding_doubles_with_the_rate() {
    for rate in [0u64, 1, 3480, 1_000_000] {
        assert_eq!(token_account_rent(2 * rate).unwrap(), 2 * token_account_rent(rate).unwrap());
    }
}

#[test]
fn rent_rate_limits() {
    assert_eq!(token_account_rent(0), Ok(0));
    assert_eq!(token_account_rent(1_759_197_129_867), Ok(293 * 1_759_197_129_867));
    assert_eq!(token_account_rent(1_759_197_129_868), Err(ProcessError::InvalidArgument));
    assert_eq!(token_account_rent(u64::MAX), Err(ProcessError::InvalidArgument));
}

#[test]
fn create_account_call_parameters() {
    let accounts = keys(6);
    let create = start(&accounts, &[254]).unwrap().on_rent(Ok(6960)).unwrap();
    assert_eq!(create.payer_index(), PAYER_INDEX);
    assert_eq!(create.new_account_index(), NEW_ACCOUNT_INDEX);
    assert_eq!(create.lamports_to_fund(), 2_039_280);
    assert_eq!(create.space(), 165);
    assert_eq!(create.space(), TOKEN_ACCOUNT_SIZE);
    assert_eq!(create.program_owner(), TOKEN_PROGRAM_ID);
    let (seed, bump) = create.signer_seeds();
    assert_eq!(seed, b"token_account".to_vec());
    assert_eq!(bump, 254);
}

#[test]
fn rent_read_error_ends_the_instruction() {
    let request = start(&keys(6), &[1]).unwrap();
    assert_eq!(request.on_rent(Err(ProcessError::Runtime(42))).err(), Some(ProcessError::Runtime(42)));
}

#[test]
fn oversized_rate_is_an_invalid_argument() {
    let request = start(&keys(6), &[1]).unwrap();
    assert_eq!(request.on_rent(Ok(u64::MAX)).err(), Some(ProcessError::InvalidArgument));
}

#[test]
fn failed_create_account_skips_initialization() {
    let create = start(&keys(6), &[1]).unwrap().on_rent(Ok(3480)).unwrap();
    assert_eq!(create.on_created(Err(ProcessError::Runtime(1 << 32))).err(), Some(ProcessError::Runtime(1 << 32)));
}

#[test]
fn initialize_account3_call_parameters() {
    let accounts = keys(6);
    let init = start(&accounts, &[9])
        .unwrap()
        .on_rent(Ok(6960))
        .unwrap()
        .on_created(Ok(()))
        .unwrap();
    assert_eq!(init.program_id(), TOKEN_PROGRAM_ID);
    assert_eq!(init.accounts(), vec![(NEW_ACCOUNT_INDEX, true), (MINT_INDEX, false)]);
    let data = init.data();
    assert_eq!(data.len(), 33);
    assert_eq!(data[0], 18);
    assert_eq!(&data[1..], &accounts[3][..]);
}

#[test]
fn instruction_result_is_the_initialization_outcome() {
    let init = || {
        start(&keys(6), &[9]).unwrap().on_rent(Ok(6960)).unwrap().on_created(Ok(())).unwrap()
    };
    assert_eq!(init().on_initialized(Ok(())), Ok(()));
    assert_eq!(init().on_initialized(Err(ProcessError::Runtime(3))), Err(ProcessError::Runtime(3)));
    assert_eq!(
        init().on_initialized(Err(ProcessError::InvalidArgument)),
        Err(ProcessError::InvalidArgument)
    );
}

#[test]
fn initialize_account3_layout() {
    let owner = [0xABu8; 32];
    let data = initialize_account3(&owner);
    assert_eq!(data[0], INITIALIZE_ACCOUNT3_TAG);
    assert_eq!(data[0], 18);
    assert_eq!(data[1..].to_vec(), owner.to_vec());
    let mut counting = [0u8; 32];
    for (i, b) in counting.iter_mut().enumerate() {
        *b = i as u8;
    }
    let data = initialize_account3(&counting);
    assert_eq!(data, std::iter::once(18u8).chain(0u8..32).collect::<Vec<u8>>());
}

#[test]
fn seed_is_token_account() {
    assert_eq!(account_seed(), b"token_account".to_vec());
}

#[test]
fn token_program_id_bytes() {
    assert_eq!(TOKEN_PROGRAM_ID[0], 6);
    assert_eq!(TOKEN_PROGRAM_ID[31], 169);
}

#[test]
fn larger_rate_never_funds_less() {
    let rates = [0u64, 1, 3479, 3480, 3481, 6960, 1_759_197_129_867];
    for pair in rates.windows(2) {
        assert!(token_account_rent(pair[0]).unwrap() <= token_account_rent(pair[1]).unwrap());
    }
}
