//! The four operations on a swap: open, redeem, refund after expiry, and
//! refund with the redeemer's consent.
//!
//! Each operation checks every account it is handed against the addresses
//! derived from the swap's parameters before it changes anything; on success
//! it updates the store and returns the token transfer the ledger must carry
//! out together with the audit event. A refused operation leaves the store as
//! it was.
use vstd::prelude::*;
use crate::address::Address;
use crate::derivation::{
    Derivation, bumped_address_of, derivation_view, derive_opening, derive_settling, hash_secret,
    identity_seeds, is_derived, matches_derived, opening_derivation, record_seeds, settling_derivation,
    sha256_of,
};
use crate::events::{
    InstantRefunded, Initiated, Opening, Payout, Redeemed, Refunded, SwapError, TokenAccount, TokenTransfer,
};
use crate::state::{SwapAccount, SwapStore};
use crate::address::bytes_equal;

verus! {

/// The derived authority, record and vault, each with its bump where the
/// derivation succeeded.
pub type DerivationView = (Option<(Seq<u8>, u8)>, Option<(Seq<u8>, u8)>, Option<(Seq<u8>, u8)>);

/// The accounts that opening a swap reads. `funder` and `rent_sponsor` have
/// signed the request; the ledger checks those signatures.
#[derive(Clone, Copy, Debug)]
pub struct Initiate {
    /// The program's signing authority.
    pub identity_pda: Address,
    /// Where the new record is to live.
    pub swap_data: Address,
    /// The vault of the token type.
    pub token_vault: Address,
    pub funder: Address,
    pub funder_token_account: TokenAccount,
    pub mint: Address,
    pub rent_sponsor: Address,
}

/// The accounts that redeeming a swap reads.
#[derive(Clone, Copy, Debug)]
pub struct Redeem {
    pub identity_pda: Address,
    pub swap_data: Address,
    pub token_vault: Address,
    pub redeemer_token_account: TokenAccount,
    pub rent_sponsor: Address,
}

/// The accounts that a refund after expiry reads.
#[derive(Clone, Copy, Debug)]
pub struct Refund {
    pub identity_pda: Address,
    pub swap_data: Address,
    pub token_vault: Address,
    pub refundee_token_account: TokenAccount,
    pub rent_sponsor: Address,
}

/// The accounts that a refund with consent reads. `redeemer` has signed the
/// request; the ledger checks that signature.
#[derive(Clone, Copy, Debug)]
pub struct InstantRefund {
    pub identity_pda: Address,
    pub swap_data: Address,
    pub token_vault: Address,
    pub refundee_token_account: TokenAccount,
    pub redeemer: Address,
    pub rent_sponsor: Address,
}

/// The first reason, in the order the checks are made, to refuse opening a
/// swap, or `None`.
pub open spec fn initiate_error(
    swaps: Map<Seq<u8>, SwapAccount>,
    ctx: Initiate,
    d: DerivationView,
    slot: u64,
    timelock: u64,
) -> Option<SwapError> {
    if !is_derived(ctx.identity_pda@, d.0) {
        Some(SwapError::AddressDerivationMismatch)
    } else if !is_derived(ctx.swap_data@, d.1) {
        Some(SwapError::AddressDerivationMismatch)
    } else if swaps.contains_key(ctx.swap_data@) {
        Some(SwapError::SwapAlreadyExists)
    } else if !is_derived(ctx.token_vault@, d.2) {
        Some(SwapError::AddressDerivationMismatch)
    } else if ctx.funder_token_account.mint@ != ctx.mint@ || ctx.funder_token_account.owner@ != ctx.funder@ {
        Some(SwapError::InvalidTokenAccount)
    } else if slot + timelock > u64::MAX {
        Some(SwapError::TimelockOverflow)
    } else {
        None
    }
}

/// The outcome of opening a swap at `slot` with the derived addresses `d`:
/// either the first error and no change, or one new record at `swap_data`,
/// the funder's transfer of `swap_amount` into the vault, and the event.
pub open spec fn initiate_result(
    before: Map<Seq<u8>, SwapAccount>,
    after: Map<Seq<u8>, SwapAccount>,
    ctx: Initiate,
    d: DerivationView,
    slot: u64,
    redeemer: Address,
    refundee: Address,
    secret_hash: [u8; 32],
    swap_amount: u64,
    timelock: u64,
    destination_data: Option<Vec<u8>>,
    r: Result<Opening, SwapError>,
) -> bool {
    match r {
        Ok(o) => {
            &&& initiate_error(before, ctx, d, slot, timelock) is None
            &&& o.record == (SwapAccount {
                bump: (d.1->Some_0).1,
                expiry_slot: (slot + timelock) as u64,
                identity_pda_bump: (d.0->Some_0).1,
                rent_sponsor: ctx.rent_sponsor,
                mint: ctx.mint,
                redeemer,
                refundee,
                secret_hash,
                swap_amount,
                timelock,
            })
            &&& o.transfer == (TokenTransfer {
                from: ctx.funder_token_account.address,
                to: ctx.token_vault,
                authority: ctx.funder,
                amount: swap_amount,
            })
            &&& o.event == (Initiated {
                mint: ctx.mint,
                redeemer,
                refundee,
                secret_hash,
                swap_amount,
                timelock,
                destination_data,
                funder: ctx.funder,
            })
            &&& !before.contains_key(ctx.swap_data@)
            &&& after == before.insert(ctx.swap_data@, o.record)
        },
        Err(e) => initiate_error(before, ctx, d, slot, timelock) == Some(e) && after == before,
    }
}

/// Opens a swap at `slot`, given the addresses `d` derived for its
/// parameters.
pub fn initiate_with(
    store: &mut SwapStore,
    ctx: &Initiate,
    d: &Derivation,
    slot: u64,
    redeemer: Address,
    refundee: Address,
    secret_hash: [u8; 32],
    swap_amount: u64,
    timelock: u64,
    destination_data: Option<Vec<u8>>,
) -> (r: Result<Opening, SwapError>)
    ensures
        final(store).program() == old(store).program(),
        initiate_result(
            old(store).swaps(),
            final(store).swaps(),
            *ctx,
            derivation_view(*d),
            slot,
            redeemer,
            refundee,
            secret_hash,
            swap_amount,
            timelock,
            destination_data,
            r,
        ),
{
    if !matches_derived(&ctx.identity_pda, &d.identity) {
        return Err(SwapError::AddressDerivationMismatch);
    }
    if !matches_derived(&ctx.swap_data, &d.record) {
        return Err(SwapError::AddressDerivationMismatch);
    }
    if store.contains(&ctx.swap_data) {
        return Err(SwapError::SwapAlreadyExists);
    }
    if !matches_derived(&ctx.token_vault, &d.vault) {
        return Err(SwapError::AddressDerivationMismatch);
    }
    if !ctx.funder_token_account.mint.same_as(&ctx.mint) || !ctx.funder_token_account.owner.same_as(&ctx.funder) {
        return Err(SwapError::InvalidTokenAccount);
    }
    let expiry_slot = match slot.checked_add(timelock) {
        Some(e) => e,
        None => return Err(SwapError::TimelockOverflow),
    };
    let identity = d.identity.unwrap();
    let derived_record = d.record.unwrap();
    let record = SwapAccount {
        bump: derived_record.bump,
        expiry_slot,
        identity_pda_bump: identity.bump,
        rent_sponsor: ctx.rent_sponsor,
        mint: ctx.mint,
        redeemer,
        refundee,
        secret_hash,
        swap_amount,
        timelock,
    };
    store.insert_new(ctx.swap_data, record);
    let transfer = TokenTransfer {
        from: ctx.funder_token_account.address,
        to: ctx.token_vault,
        authority: ctx.funder,
        amount: swap_amount,
    };
    let event = Initiated {
        mint: ctx.mint,
        redeemer,
        refundee,
        secret_hash,
        swap_amount,
        timelock,
        destination_data,
        funder: ctx.funder,
    };
    Ok(Opening { record, transfer, event })
}

/// Whether a record at `swap_data` can be settled through the authority at
/// `identity_pda`: both addresses come back when derived again from the
/// record's stored fields and bumps.
pub open spec fn rederivable(program_id: Seq<u8>, identity_pda: Seq<u8>, swap_data: Seq<u8>, rec: SwapAccount) -> bool {
    &&& bumped_address_of(identity_seeds(), rec.identity_pda_bump, program_id) == Some((
        identity_pda,
        rec.identity_pda_bump,
    ))
    &&& bumped_address_of(
        record_seeds(rec.mint@, rec.redeemer@, rec.refundee@, rec.secret_hash@, rec.swap_amount, rec.timelock),
        rec.bump,
        program_id,
    ) == Some((swap_data, rec.bump))
}

/// Opens a swap at `slot`: derives the authority, the record and the vault
/// canonically from the parameters, checks the accounts against them, and
/// stores the record. On success the record can later be found again from
/// its stored fields.
pub fn initiate(
    store: &mut SwapStore,
    ctx: &Initiate,
    slot: u64,
    redeemer: Address,
    refundee: Address,
    secret_hash: [u8; 32],
    swap_amount: u64,
    timelock: u64,
    destination_data: Option<Vec<u8>>,
) -> (r: Result<Opening, SwapError>)
    ensures
        final(store).program() == old(store).program(),
        initiate_result(
            old(store).swaps(),
            final(store).swaps(),
            *ctx,
            opening_derivation(
                old(store).program()@,
                ctx.mint@,
                redeemer@,
                refundee@,
                secret_hash@,
                swap_amount,
                timelock,
            ),
            slot,
            redeemer,
            refundee,
            secret_hash,
            swap_amount,
            timelock,
            destination_data,
            r,
        ),
        r matches Ok(o) ==> rederivable(old(store).program()@, ctx.identity_pda@, ctx.swap_data@, o.record),
{
    let program_id = store.program_id();
    let d = derive_opening(&program_id, &ctx.mint, &redeemer, &refundee, &secret_hash, swap_amount, timelock);
    initiate_with(store, ctx, &d, slot, redeemer, refundee, secret_hash, swap_amount, timelock, destination_data)
}

/// The addresses that the accounts of a settlement of `rec` must carry.
pub open spec fn record_derivation(program_id: Seq<u8>, rec: SwapAccount) -> DerivationView {
    settling_derivation(
        program_id,
        rec.identity_pda_bump,
        rec.bump,
        rec.mint@,
        rec.redeemer@,
        rec.refundee@,
        rec.secret_hash@,
        rec.swap_amount,
        rec.timelock,
    )
}

/// The first fault, in the order the checks are made, in the accounts that
/// all three settlements read, or `None`. The recipient's token account must
/// hold the swap's token type and belong to the redeemer (`to_redeemer`) or
/// else to the refundee.
pub open spec fn settle_error(
    swaps: Map<Seq<u8>, SwapAccount>,
    identity_pda: Seq<u8>,
    swap_data: Seq<u8>,
    token_vault: Seq<u8>,
    recipient: TokenAccount,
    to_redeemer: bool,
    d: DerivationView,
) -> Option<SwapError> {
    if !swaps.contains_key(swap_data) {
        Some(SwapError::SwapNotFound)
    } else if !is_derived(identity_pda, d.0) {
        Some(SwapError::AddressDerivationMismatch)
    } else if !is_derived(swap_data, d.1) {
        Some(SwapError::AddressDerivationMismatch)
    } else if !is_derived(token_vault, d.2) {
        Some(SwapError::AddressDerivationMismatch)
    } else if recipient.mint@ != swaps[swap_data].mint@ || recipient.owner@ != (if to_redeemer {
        swaps[swap_data].redeemer@
    } else {
        swaps[swap_data].refundee@
    }) {
        Some(SwapError::InvalidTokenAccount)
    } else {
        None
    }
}

fn check_settle(
    store: &SwapStore,
    identity_pda: &Address,
    swap_data: &Address,
    token_vault: &Address,
    recipient: &TokenAccount,
    to_redeemer: bool,
    d: &Derivation,
) -> (r: Result<SwapAccount, SwapError>)
    ensures
        match r {
            Ok(rec) => {
                &&& settle_error(
                    store.swaps(),
                    identity_pda@,
                    swap_data@,
                    token_vault@,
                    *recipient,
                    to_redeemer,
                    derivation_view(*d),
                ) is None
                &&& rec == store.swaps()[swap_data@]
            },
            Err(e) => settle_error(
                store.swaps(),
                identity_pda@,
                swap_data@,
                token_vault@,
                *recipient,
                to_redeemer,
                derivation_view(*d),
            ) == Some(e),
        },
{
    let rec = match store.get(swap_data) {
        Some(rec) => rec,
        None => return Err(SwapError::SwapNotFound),
    };
    if !matches_derived(identity_pda, &d.identity) {
        return Err(SwapError::AddressDerivationMismatch);
    }
    if !matches_derived(swap_data, &d.record) {
        return Err(SwapError::AddressDerivationMismatch);
    }
    if !matches_derived(token_vault, &d.vault) {
        return Err(SwapError::AddressDerivationMismatch);
    }
    let owner = if to_redeemer {
        &rec.redeemer
    } else {
        &rec.refundee
    };
    if !recipient.mint.same_as(&rec.mint) || !recipient.owner.same_as(owner) {
        return Err(SwapError::InvalidTokenAccount);
    }
    Ok(rec)
}

/// The first reason to refuse a redeem, given the derived addresses `d`
/// and the digest of the secret, or `None`.
pub open spec fn redeem_error(
    swaps: Map<Seq<u8>, SwapAccount>,
    ctx: Redeem,
    d: DerivationView,
    digest: Seq<u8>,
) -> Option<SwapError> {
    let common = settle_error(
        swaps,
        ctx.identity_pda@,
        ctx.swap_data@,
        ctx.token_vault@,
        ctx.redeemer_token_account,
        true,
        d,
    );
    if common is Some {
        common
    } else if ctx.rent_sponsor@ != swaps[ctx.swap_data@].rent_sponsor@ {
        Some(SwapError::InvalidRentSponsor)
    } else if digest != swaps[ctx.swap_data@].secret_hash@ {
        Some(SwapError::InvalidSecret)
    } else {
        None
    }
}

/// The outcome of a redeem: either the first error and no change, or the
/// record removed, its whole amount paid from the vault to the redeemer's
/// token account under the program's authority, and the secret published.
pub open spec fn redeem_result(
    before: Map<Seq<u8>, SwapAccount>,
    after: Map<Seq<u8>, SwapAccount>,
    ctx: Redeem,
    secret: [u8; 32],
    d: DerivationView,
    digest: Seq<u8>,
    r: Result<(Payout, Redeemed), SwapError>,
) -> bool {
    match r {
        Ok((p, ev)) => {
            let rec = before[ctx.swap_data@];
            &&& redeem_error(before, ctx, d, digest) is None
            &&& p == (Payout {
                transfer: TokenTransfer {
                    from: ctx.token_vault,
                    to: ctx.redeemer_token_account.address,
                    authority: ctx.identity_pda,
                    amount: rec.swap_amount,
                },
                close_to: ctx.rent_sponsor,
            })
            &&& ev == (Redeemed {
                mint: rec.mint,
                redeemer: rec.redeemer,
                refundee: rec.refundee,
                secret,
                swap_amount: rec.swap_amount,
                timelock: rec.timelock,
            })
            &&& after == before.remove(ctx.swap_data@)
        },
        Err(e) => redeem_error(before, ctx, d, digest) == Some(e) && after == before,
    }
}

/// Redeems a swap, given the addresses `d` derived from its record and the
/// digest of `secret`.
pub fn redeem_with(
    store: &mut SwapStore,
    ctx: &Redeem,
    secret: [u8; 32],
    d: &Derivation,
    digest: &[u8; 32],
) -> (r: Result<(Payout, Redeemed), SwapError>)
    ensures
        final(store).program() == old(store).program(),
        redeem_result(old(store).swaps(), final(store).swaps(), *ctx, secret, derivation_view(*d), digest@, r),
{
    let rec = match check_settle(
        store,
        &ctx.identity_pda,
        &ctx.swap_data,
        &ctx.token_vault,
        &ctx.redeemer_token_account,
        true,
        d,
    ) {
        Ok(rec) => rec,
        Err(e) => return Err(e),
    };
    if !ctx.rent_sponsor.same_as(&rec.rent_sponsor) {
        return Err(SwapError::InvalidRentSponsor);
    }
    if !bytes_equal(digest, &rec.secret_hash) {
        return Err(SwapError::InvalidSecret);
    }
    store.remove(&ctx.swap_data);
    let payout = Payout {
        transfer: TokenTransfer {
            from: ctx.token_vault,
            to: ctx.redeemer_token_account.address,
            authority: ctx.identity_pda,
            amount: rec.swap_amount,
        },
        close_to: ctx.rent_sponsor,
    };
    let event = Redeemed {
        mint: rec.mint,
        redeemer: rec.redeemer,
        refundee: rec.refundee,
        secret,
        swap_amount: rec.swap_amount,
        timelock: rec.timelock,
    };
    Ok((payout, event))
}

/// Redeems a swap by revealing its secret. Anyone may submit it; the funds
/// go to the redeemer's token account.
pub fn redeem(store: &mut SwapStore, ctx: &Redeem, secret: [u8; 32]) -> (r: Result<(Payout, Redeemed), SwapError>)
    ensures
        final(store).program() == old(store).program(),
        redeem_result(
            old(store).swaps(),
            final(store).swaps(),
            *ctx,
            secret,
            record_derivation(old(store).program()@, old(store).swaps()[ctx.swap_data@]),
            sha256_of(secret@),
            r,
        ),
{
    let rec = match store.get(&ctx.swap_data) {
        Some(rec) => rec,
        None => return Err(SwapError::SwapNotFound),
    };
    let program_id = store.program_id();
    let d = derive_settling(
        &program_id,
        rec.identity_pda_bump,
        rec.bump,
        &rec.mint,
        &rec.redeemer,
        &rec.refundee,
        &rec.secret_hash,
        rec.swap_amount,
        rec.timelock,
    );
    let digest = hash_secret(&secret);
    redeem_with(store, ctx, secret, &d, &digest)
}

/// The first reason to refuse a refund after expiry at `slot`, or `None`.
pub open spec fn refund_error(
    swaps: Map<Seq<u8>, SwapAccount>,
    ctx: Refund,
    d: DerivationView,
    slot: u64,
) -> Option<SwapError> {
    let common = settle_error(
        swaps,
        ctx.identity_pda@,
        ctx.swap_data@,
        ctx.token_vault@,
        ctx.refundee_token_account,
        false,
        d,
    );
    if common is Some {
        common
    } else if ctx.rent_sponsor@ != swaps[ctx.swap_data@].rent_sponsor@ {
        Some(SwapError::InvalidRentSponsor)
    } else if slot <= swaps[ctx.swap_data@].expiry_slot {
        Some(SwapError::RefundBeforeExpiry)
    } else {
        None
    }
}

/// The outcome of a refund after expiry: either the first error and no
/// change, or the record removed and its whole amount paid from the vault
/// back to the refundee's token account.
pub open spec fn refund_result(
    before: Map<Seq<u8>, SwapAccount>,
    after: Map<Seq<u8>, SwapAccount>,
    ctx: Refund,
    d: DerivationView,
    slot: u64,
    r: Result<(Payout, Refunded), SwapError>,
) -> bool {
    match r {
        Ok((p, ev)) => {
            let rec = before[ctx.swap_data@];
            &&& refund_error(before, ctx, d, slot) is None
            &&& p == (Payout {
                transfer: TokenTransfer {
                    from: ctx.token_vault,
                    to: ctx.refundee_token_account.address,
                    authority: ctx.identity_pda,
                    amount: rec.swap_amount,
                },
                close_to: ctx.rent_sponsor,
            })
            &&& ev == (Refunded {
                mint: rec.mint,
                redeemer: rec.redeemer,
                refundee: rec.refundee,
                secret_hash: rec.secret_hash,
                swap_amount: rec.swap_amount,
                timelock: rec.timelock,
            })
            &&& after == before.remove(ctx.swap_data@)
        },
        Err(e) => refund_error(before, ctx, d, slot) == Some(e) && after == before,
    }
}

/// Refunds a swap at `slot`, after its expiry, given the addresses `d`
/// derived from its record.
pub fn refund_with(store: &mut SwapStore, ctx: &Refund, d: &Derivation, slot: u64) -> (r: Result<
    (Payout, Refunded),
    SwapError,
>)
    ensures
        final(store).program() == old(store).program(),
        refund_result(old(store).swaps(), final(store).swaps(), *ctx, derivation_view(*d), slot, r),
{
    let rec = match check_settle(
        store,
        &ctx.identity_pda,
        &ctx.swap_data,
        &ctx.token_vault,
        &ctx.refundee_token_account,
        false,
        d,
    ) {
        Ok(rec) => rec,
        Err(e) => return Err(e),
    };
    if !ctx.rent_sponsor.same_as(&rec.rent_sponsor) {
        return Err(SwapError::InvalidRentSponsor);
    }
    if slot <= rec.expiry_slot {
        return Err(SwapError::RefundBeforeExpiry);
    }
    store.remove(&ctx.swap_data);
    let payout = Payout {
        transfer: TokenTransfer {
            from: ctx.token_vault,
            to: ctx.refundee_token_account.address,
            authority: ctx.identity_pda,
            amount: rec.swap_amount,
        },
        close_to: ctx.rent_sponsor,
    };
    let event = Refunded {
        mint: rec.mint,
        redeemer: rec.redeemer,
        refundee: rec.refundee,
        secret_hash: rec.secret_hash,
        swap_amount: rec.swap_amount,
        timelock: rec.timelock,
    };
    Ok((payout, event))
}

/// Refunds a swap at `slot`, which must be past its expiry slot. Anyone may
/// submit it; the funds go back to the refundee's token account.
pub fn refund(store: &mut SwapStore, ctx: &Refund, slot: u64) -> (r: Result<(Payout, Refunded), SwapError>)
    ensures
        final(store).program() == old(store).program(),
        refund_result(
            old(store).swaps(),
            final(store).swaps(),
            *ctx,
            record_derivation(old(store).program()@, old(store).swaps()[ctx.swap_data@]),
            slot,
            r,
        ),
{
    let rec = match store.get(&ctx.swap_data) {
        Some(rec) => rec,
        None => return Err(SwapError::SwapNotFound),
    };
    let program_id = store.program_id();
    let d = derive_settling(
        &program_id,
        rec.identity_pda_bump,
        rec.bump,
        &rec.mint,
        &rec.redeemer,
        &rec.refundee,
        &rec.secret_hash,
        rec.swap_amount,
        rec.timelock,
    );
    refund_with(store, ctx, &d, slot)
}

/// The first reason to refuse a refund with consent, or `None`.
pub open spec fn instant_refund_error(
    swaps: Map<Seq<u8>, SwapAccount>,
    ctx: InstantRefund,
    d: DerivationView,
) -> Option<SwapError> {
    let common = settle_error(
        swaps,
        ctx.identity_pda@,
        ctx.swap_data@,
        ctx.token_vault@,
        ctx.refundee_token_account,
        false,
        d,
    );
    if common is Some {
        common
    } else if ctx.redeemer@ != swaps[ctx.swap_data@].redeemer@ {
        Some(SwapError::InvalidRedeemer)
    } else if ctx.rent_sponsor@ != swaps[ctx.swap_data@].rent_sponsor@ {
        Some(SwapError::InvalidRentSponsor)
    } else {
        None
    }
}

/// The outcome of a refund with consent: either the first error and no
/// change, or the record removed and its whole amount paid from the vault
/// back to the refundee's token account, whatever the slot.
pub open spec fn instant_refund_result(
    before: Map<Seq<u8>, SwapAccount>,
    after: Map<Seq<u8>, SwapAccount>,
    ctx: InstantRefund,
    d: DerivationView,
    r: Result<(Payout, InstantRefunded), SwapError>,
) -> bool {
    match r {
        Ok((p, ev)) => {
            let rec = before[ctx.swap_data@];
            &&& instant_refund_error(before, ctx, d) is None
            &&& p == (Payout {
                transfer: TokenTransfer {
                    from: ctx.token_vault,
                    to: ctx.refundee_token_account.address,
                    authority: ctx.identity_pda,
                    amount: rec.swap_amount,
                },
                close_to: ctx.rent_sponsor,
            })
            &&& ev == (InstantRefunded {
                mint: rec.mint,
                redeemer: rec.redeemer,
                refundee: rec.refundee,
                secret_hash: rec.secret_hash,
                swap_amount: rec.swap_amount,
                timelock: rec.timelock,
            })
            &&& after == before.remove(ctx.swap_data@)
        },
        Err(e) => instant_refund_error(before, ctx, d) == Some(e) && after == before,
    }
}

/// Refunds a swap with the redeemer's consent, given the addresses `d`
/// derived from its record.
pub fn instant_refund_with(store: &mut SwapStore, ctx: &InstantRefund, d: &Derivation) -> (r: Result<
    (Payout, InstantRefunded),
    SwapError,
>)
    ensures
        final(store).program() == old(store).program(),
        instant_refund_result(old(store).swaps(), final(store).swaps(), *ctx, derivation_view(*d), r),
{
    let rec = match check_settle(
        store,
        &ctx.identity_pda,
        &ctx.swap_data,
        &ctx.token_vault,
        &ctx.refundee_token_account,
        false,
        d,
    ) {
        Ok(rec) => rec,
        Err(e) => return Err(e),
    };
    if !ctx.redeemer.same_as(&rec.redeemer) {
        return Err(SwapError::InvalidRedeemer);
    }
    if !ctx.rent_sponsor.same_as(&rec.rent_sponsor) {
        return Err(SwapError::InvalidRentSponsor);
    }
    store.remove(&ctx.swap_data);
    let payout = Payout {
        transfer: TokenTransfer {
            from: ctx.token_vault,
            to: ctx.refundee_token_account.address,
            authority: ctx.identity_pda,
            amount: rec.swap_amount,
        },
        close_to: ctx.rent_sponsor,
    };
    let event = InstantRefunded {
        mint: rec.mint,
        redeemer: rec.redeemer,
        refundee: rec.refundee,
        secret_hash: rec.secret_hash,
        swap_amount: rec.swap_amount,
        timelock: rec.timelock,
    };
    Ok((payout, event))
}

/// Refunds a swap at any time, signed by its redeemer; the funds go back to
/// the refundee's token account.
pub fn instant_refund(store: &mut SwapStore, ctx: &InstantRefund) -> (r: Result<(Payout, InstantRefunded), SwapError>)
    ensures
        final(store).program() == old(store).program(),
        instant_refund_result(
            old(store).swaps(),
            final(store).swaps(),
            *ctx,
            record_derivation(old(store).program()@, old(store).swaps()[ctx.swap_data@]),
            r,
        ),
{
    let rec = match store.get(&ctx.swap_data) {
        Some(rec) => rec,
        None => return Err(SwapError::SwapNotFound),
    };
    let program_id = store.program_id();
    let d = derive_settling(
        &program_id,
        rec.identity_pda_bump,
        rec.bump,
        &rec.mint,
        &rec.redeemer,
        &rec.refundee,
        &rec.secret_hash,
        rec.swap_amount,
        rec.timelock,
    );
    instant_refund_with(store, ctx, &d)
}

} // verus!
