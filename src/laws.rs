//! What holds across the operations: a swap is opened once, paid out once,
//! to the party its terms name, and found only at the address its terms
//! determine.
use vstd::prelude::*;
use crate::address::{Address, lemma_le_bytes_injective};
use crate::derivation::{canonical_address_of, opening_derivation, is_derived, record_seeds, vault_seeds};
use crate::events::{
    InstantRefunded, Opening, Payout, Redeemed, Refunded, SwapError, TokenAccount, TokenTransfer,
};
use crate::instructions::{
    DerivationView, InstantRefund, Initiate, Redeem, Refund, initiate_error, initiate_result,
    instant_refund_error, instant_refund_result, record_derivation, redeem_error, redeem_result,
    refund_error, refund_result, rederivable,
};
use crate::state::SwapAccount;
use crate::derivation::sha256_of;

verus! {

/// Token balances after the ledger performs `t`: `amount` leaves `from` and
/// arrives at `to`.
pub open spec fn balances_after(balances: Map<Seq<u8>, int>, t: TokenTransfer) -> Map<Seq<u8>, int> {
    if t.from@ == t.to@ {
        balances
    } else {
        balances.insert(t.from@, balances[t.from@] - t.amount).insert(t.to@, balances[t.to@] + t.amount)
    }
}

/// The accounts of a settlement are the ones its record names: the record
/// exists, the authority and the record come back from its stored bumps,
/// the vault is the canonical one of its token type, the recipient's token
/// account holds that type and belongs to the recipient, and the rent
/// sponsor is the one that opened it.
pub open spec fn settlement_accounts_valid(
    program_id: Seq<u8>,
    swaps: Map<Seq<u8>, SwapAccount>,
    identity_pda: Seq<u8>,
    swap_data: Seq<u8>,
    token_vault: Seq<u8>,
    recipient: TokenAccount,
    to_redeemer: bool,
    rent_sponsor: Seq<u8>,
) -> bool {
    let rec = swaps[swap_data];
    &&& swaps.contains_key(swap_data)
    &&& rederivable(program_id, identity_pda, swap_data, rec)
    &&& is_derived(token_vault, canonical_address_of(vault_seeds(rec.mint@), program_id))
    &&& recipient.mint@ == rec.mint@
    &&& recipient.owner@ == if to_redeemer {
        rec.redeemer@
    } else {
        rec.refundee@
    }
    &&& rent_sponsor == rec.rent_sponsor@
}

/// Opening a swap with valid accounts and a timelock that does not overflow
/// succeeds, creates exactly one record, at the record address, and moves
/// `swap_amount` from the funder's token account into the vault.
pub proof fn lemma_open_creates_one_record(
    before: Map<Seq<u8>, SwapAccount>,
    after: Map<Seq<u8>, SwapAccount>,
    balances: Map<Seq<u8>, int>,
    ctx: Initiate,
    d: DerivationView,
    slot: u64,
    redeemer: Address,
    refundee: Address,
    secret_hash: [u8; 32],
    swap_amount: u64,
    timelock: u64,
    destination_data: Option<Vec<u8>>,
    r: Result<Opening, SwapError>,
)
    requires
        initiate_result(
            before,
            after,
            ctx,
            d,
            slot,
            redeemer,
            refundee,
            secret_hash,
            swap_amount,
            timelock,
            destination_data,
            r,
        ),
        initiate_error(before, ctx, d, slot, timelock) is None,
        ctx.funder_token_account.address@ != ctx.token_vault@,
    ensures
        r is Ok,
        !before.contains_key(ctx.swap_data@),
        after.dom() == before.dom().insert(ctx.swap_data@),
        after[ctx.swap_data@] == r->Ok_0.record,
        balances_after(balances, r->Ok_0.transfer)[ctx.token_vault@] == balances[ctx.token_vault@] + swap_amount,
        balances_after(balances, r->Ok_0.transfer)[ctx.funder_token_account.address@]
            == balances[ctx.funder_token_account.address@] - swap_amount,
{
    assert(after.dom() =~= before.dom().insert(ctx.swap_data@));
}

/// A swap just opened can be settled through the same authority, record and
/// vault addresses that opened it, with the opening rent sponsor, to a token
/// account of its token type that belongs to the recipient.
pub proof fn lemma_opened_swap_settles(
    program_id: Seq<u8>,
    before: Map<Seq<u8>, SwapAccount>,
    after: Map<Seq<u8>, SwapAccount>,
    ctx: Initiate,
    slot: u64,
    redeemer: Address,
    refundee: Address,
    secret_hash: [u8; 32],
    swap_amount: u64,
    timelock: u64,
    destination_data: Option<Vec<u8>>,
    r: Result<Opening, SwapError>,
    recipient: TokenAccount,
    to_redeemer: bool,
)
    requires
        initiate_result(
            before,
            after,
            ctx,
            opening_derivation(program_id, ctx.mint@, redeemer@, refundee@, secret_hash@, swap_amount, timelock),
            slot,
            redeemer,
            refundee,
            secret_hash,
            swap_amount,
            timelock,
            destination_data,
            r,
        ),
        r matches Ok(o) ==> rederivable(program_id, ctx.identity_pda@, ctx.swap_data@, o.record),
        r is Ok,
        recipient.mint@ == ctx.mint@,
        recipient.owner@ == if to_redeemer {
            redeemer@
        } else {
            refundee@
        },
    ensures
        settlement_accounts_valid(
            program_id,
            after,
            ctx.identity_pda@,
            ctx.swap_data@,
            ctx.token_vault@,
            recipient,
            to_redeemer,
            ctx.rent_sponsor@,
        ),
{
}

/// With the accounts its record names, a redeem succeeds exactly when the
/// secret hashes to the record's secret hash; on success the vault pays the
/// whole amount to the redeemer and the record is gone, otherwise the error
/// is `InvalidSecret` and nothing changes.
pub proof fn lemma_redeem_iff_secret(
    program_id: Seq<u8>,
    before: Map<Seq<u8>, SwapAccount>,
    after: Map<Seq<u8>, SwapAccount>,
    balances: Map<Seq<u8>, int>,
    ctx: Redeem,
    secret: [u8; 32],
    r: Result<(Payout, Redeemed), SwapError>,
)
    requires
        settlement_accounts_valid(
            program_id,
            before,
            ctx.identity_pda@,
            ctx.swap_data@,
            ctx.token_vault@,
            ctx.redeemer_token_account,
            true,
            ctx.rent_sponsor@,
        ),
        ctx.token_vault@ != ctx.redeemer_token_account.address@,
        redeem_result(
            before,
            after,
            ctx,
            secret,
            record_derivation(program_id, before[ctx.swap_data@]),
            sha256_of(secret@),
            r,
        ),
    ensures
        r is Ok <==> sha256_of(secret@) == before[ctx.swap_data@].secret_hash@,
        r is Err ==> r == Err::<(Payout, Redeemed), SwapError>(SwapError::InvalidSecret) && after == before,
        r is Ok ==> {
            let t = r->Ok_0.0.transfer;
            let amount = before[ctx.swap_data@].swap_amount;
            &&& !after.contains_key(ctx.swap_data@)
            &&& balances_after(balances, t)[ctx.redeemer_token_account.address@]
                == balances[ctx.redeemer_token_account.address@] + amount
            &&& balances_after(balances, t)[ctx.token_vault@] == balances[ctx.token_vault@] - amount
        },
{
}

/// With the accounts its record names, a refund without consent fails with
/// `RefundBeforeExpiry` at every slot up to the expiry slot, and succeeds
/// at every later slot, paying the whole amount back to the refundee.
pub proof fn lemma_refund_iff_expired(
    program_id: Seq<u8>,
    before: Map<Seq<u8>, SwapAccount>,
    after: Map<Seq<u8>, SwapAccount>,
    ctx: Refund,
    slot: u64,
    r: Result<(Payout, Refunded), SwapError>,
)
    requires
        settlement_accounts_valid(
            program_id,
            before,
            ctx.identity_pda@,
            ctx.swap_data@,
            ctx.token_vault@,
            ctx.refundee_token_account,
            false,
            ctx.rent_sponsor@,
        ),
        refund_result(before, after, ctx, record_derivation(program_id, before[ctx.swap_data@]), slot, r),
    ensures
        r is Ok <==> slot > before[ctx.swap_data@].expiry_slot,
        r is Err ==> r == Err::<(Payout, Refunded), SwapError>(SwapError::RefundBeforeExpiry) && after == before,
        r is Ok ==> !after.contains_key(ctx.swap_data@) && r->Ok_0.0.transfer.to == ctx.refundee_token_account.address
            && r->Ok_0.0.transfer.amount == before[ctx.swap_data@].swap_amount,
{
}

/// With the accounts its record names, a refund with consent succeeds
/// exactly when its signer is the record's redeemer, whatever the slot;
/// otherwise the error is `InvalidRedeemer` and nothing changes.
pub proof fn lemma_consent_iff_redeemer(
    program_id: Seq<u8>,
    before: Map<Seq<u8>, SwapAccount>,
    after: Map<Seq<u8>, SwapAccount>,
    ctx: InstantRefund,
    r: Result<(Payout, InstantRefunded), SwapError>,
)
    requires
        settlement_accounts_valid(
            program_id,
            before,
            ctx.identity_pda@,
            ctx.swap_data@,
            ctx.token_vault@,
            ctx.refundee_token_account,
            false,
            ctx.rent_sponsor@,
        ),
        instant_refund_result(before, after, ctx, record_derivation(program_id, before[ctx.swap_data@]), r),
    ensures
        r is Ok <==> ctx.redeemer@ == before[ctx.swap_data@].redeemer@,
        r is Err ==> r == Err::<(Payout, InstantRefunded), SwapError>(SwapError::InvalidRedeemer) && after == before,
        r is Ok ==> !after.contains_key(ctx.swap_data@) && r->Ok_0.0.transfer.to == ctx.refundee_token_account.address
            && r->Ok_0.0.transfer.amount == before[ctx.swap_data@].swap_amount,
{
}

/// Once a settlement has removed the record at `swap_data`, every later
/// redeem, refund or consented refund of that swap fails with
/// `SwapNotFound` and changes nothing, whatever accounts, secret or slot it
/// brings: the funds leave the vault once.
pub proof fn lemma_settled_swap_stays_settled(
    before: Map<Seq<u8>, SwapAccount>,
    after: Map<Seq<u8>, SwapAccount>,
    swap_data: Seq<u8>,
    redeem_ctx: Redeem,
    refund_ctx: Refund,
    consent_ctx: InstantRefund,
    d: DerivationView,
    digest: Seq<u8>,
    slot: u64,
)
    requires
        after == before.remove(swap_data),
        redeem_ctx.swap_data@ == swap_data,
        refund_ctx.swap_data@ == swap_data,
        consent_ctx.swap_data@ == swap_data,
    ensures
        redeem_error(after, redeem_ctx, d, digest) == Some(SwapError::SwapNotFound),
        refund_error(after, refund_ctx, d, slot) == Some(SwapError::SwapNotFound),
        instant_refund_error(after, consent_ctx, d) == Some(SwapError::SwapNotFound),
        forall|after2: Map<Seq<u8>, SwapAccount>, secret: [u8; 32], r: Result<(Payout, Redeemed), SwapError>|
            redeem_result(after, after2, redeem_ctx, secret, d, digest, r) ==> r == Err::<(Payout, Redeemed), SwapError>(
                SwapError::SwapNotFound,
            ) && after2 == after,
        forall|after2: Map<Seq<u8>, SwapAccount>, r: Result<(Payout, Refunded), SwapError>|
            refund_result(after, after2, refund_ctx, d, slot, r) ==> r == Err::<(Payout, Refunded), SwapError>(
                SwapError::SwapNotFound,
            ) && after2 == after,
        forall|after2: Map<Seq<u8>, SwapAccount>, r: Result<(Payout, InstantRefunded), SwapError>|
            instant_refund_result(after, after2, consent_ctx, d, r) ==> r == Err::<(Payout, InstantRefunded), SwapError>(
                SwapError::SwapNotFound,
            ) && after2 == after,
{
}

/// The record seeds of two swaps are equal exactly when their token types,
/// redeemers, refundees, secret hashes, amounts and timelocks are; so equal
/// terms always derive the same record address, and terms that differ in
/// any field are hashed from different seeds.
pub proof fn lemma_record_seeds_determine_terms(
    mint1: Seq<u8>,
    redeemer1: Seq<u8>,
    refundee1: Seq<u8>,
    secret_hash1: Seq<u8>,
    swap_amount1: u64,
    timelock1: u64,
    mint2: Seq<u8>,
    redeemer2: Seq<u8>,
    refundee2: Seq<u8>,
    secret_hash2: Seq<u8>,
    swap_amount2: u64,
    timelock2: u64,
    program_id: Seq<u8>,
)
    ensures
        (record_seeds(mint1, redeemer1, refundee1, secret_hash1, swap_amount1, timelock1) == record_seeds(
            mint2,
            redeemer2,
            refundee2,
            secret_hash2,
            swap_amount2,
            timelock2,
        )) <==> (mint1 == mint2 && redeemer1 == redeemer2 && refundee1 == refundee2 && secret_hash1 == secret_hash2
            && swap_amount1 == swap_amount2 && timelock1 == timelock2),
        (mint1 == mint2 && redeemer1 == redeemer2 && refundee1 == refundee2 && secret_hash1 == secret_hash2
            && swap_amount1 == swap_amount2 && timelock1 == timelock2) ==> canonical_address_of(
            record_seeds(mint1, redeemer1, refundee1, secret_hash1, swap_amount1, timelock1),
            program_id,
        ) == canonical_address_of(
            record_seeds(mint2, redeemer2, refundee2, secret_hash2, swap_amount2, timelock2),
            program_id,
        ),
{
    let s1 = record_seeds(mint1, redeemer1, refundee1, secret_hash1, swap_amount1, timelock1);
    let s2 = record_seeds(mint2, redeemer2, refundee2, secret_hash2, swap_amount2, timelock2);
    lemma_le_bytes_injective(swap_amount1, swap_amount2);
    lemma_le_bytes_injective(timelock1, timelock2);
    if s1 == s2 {
        assert(s1[0] == s2[0]);
        assert(s1[1] == s2[1]);
        assert(s1[2] == s2[2]);
        assert(s1[3] == s2[3]);
        assert(s1[4] == s2[4]);
        assert(s1[5] == s2[5]);
    }
}

/// The vault seeds of two token types are equal exactly when the token
/// types are: one vault per token type, shared by all its swaps.
pub proof fn lemma_vault_seeds_determine_mint(mint1: Seq<u8>, mint2: Seq<u8>, program_id: Seq<u8>)
    ensures
        (vault_seeds(mint1) == vault_seeds(mint2)) <==> mint1 == mint2,
        mint1 == mint2 ==> canonical_address_of(vault_seeds(mint1), program_id) == canonical_address_of(
            vault_seeds(mint2),
            program_id,
        ),
{
    if vault_seeds(mint1) == vault_seeds(mint2) {
        assert(vault_seeds(mint1)[0] == vault_seeds(mint2)[0]);
    }
}

} // verus!
