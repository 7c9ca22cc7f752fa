use crate::process::{
    initialize_account3_data, refused, token_account_funding, INITIALIZE_ACCOUNT3_TAG,
};
use vstd::prelude::*;

verus! {

/// The funding that pinocchio computes is proportional to the rent rate: at
/// `k` times the rate it is `k` times as large. So a rate halved against an
/// exemption threshold of two (3480 lamports per byte-year, threshold 2.0)
/// funds half of what the same rent at threshold one (6960 lamports per byte,
/// threshold 1.0) funds, though both conventions ask for the same minimum.
pub proof fn lemma_funding_scales_with_rate(lamports_per_byte: int, k: int)
    ensures
        token_account_funding(k * lamports_per_byte) == k * token_account_funding(
            lamports_per_byte,
        ),
{
    assert((128 + 165) * (k * lamports_per_byte) == k * ((128 + 165) * lamports_per_byte))
        by (nonlinear_arith);
}

/// The funding grows with the rate: a larger rate never funds less.
pub proof fn lemma_funding_monotonic(low: int, high: int)
    requires
        0 <= low <= high,
    ensures
        token_account_funding(low) <= token_account_funding(high),
{
    assert((128 + 165) * low <= (128 + 165) * high) by (nonlinear_arith)
        requires
            0 <= low <= high,
    ;
}

/// The `InitializeAccount3` data for any 32-byte owner is 33 bytes: the tag
/// 18, then every byte of the owner's address in place, whatever its values.
pub proof fn lemma_initialize_account3_copies_owner(owner: Seq<u8>)
    requires
        owner.len() == 32,
    ensures
        initialize_account3_data(owner).len() == 33,
        initialize_account3_data(owner)[0] == 18,
        INITIALIZE_ACCOUNT3_TAG == 18,
        forall|i: int| 0 <= i < 32 ==> #[trigger] initialize_account3_data(owner)[i + 1] == owner[i],
        initialize_account3_data(owner).subrange(1, 33) == owner,
{
    assert(initialize_account3_data(owner).subrange(1, 33) =~= owner);
}

/// Two owners give the same `InitializeAccount3` data only when they are the
/// same address: the data names the owner exactly.
pub proof fn lemma_initialize_account3_injective(a: Seq<u8>, b: Seq<u8>)
    requires
        a.len() == 32,
        b.len() == 32,
        initialize_account3_data(a) == initialize_account3_data(b),
    ensures
        a == b,
{
    lemma_initialize_account3_copies_owner(a);
    lemma_initialize_account3_copies_owner(b);
}

/// An instruction is refused exactly when it has fewer than six accounts or no
/// data; with six or more accounts and any non-empty data, whatever its bytes
/// (the bump seed may be any byte), it goes on.
pub proof fn lemma_refused_only_by_count_and_emptiness(num_accounts: int, data: Seq<u8>)
    ensures
        refused(num_accounts, data) <==> (num_accounts < 6 || data.len() == 0),
        num_accounts >= 6 && data.len() > 0 ==> !refused(num_accounts, data),
{
}

/// Whether an instruction is refused does not depend on the bytes of its data,
/// only on whether there are any: two data of which both or neither are empty
/// are refused alike.
pub proof fn lemma_refusal_ignores_data_bytes(num_accounts: int, d1: Seq<u8>, d2: Seq<u8>)
    requires
        (d1.len() == 0) == (d2.len() == 0),
    ensures
        refused(num_accounts, d1) == refused(num_accounts, d2),
{
}

} // verus!
