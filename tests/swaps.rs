use std::str::FromStr;

use anchor_lang::solana_program::hash::hash;
use anchor_lang::solana_program::pubkey::Pubkey;
use solana_spl_swaps::address::{bytes_equal, le_bytes, Address};
use solana_spl_swaps::derivation::{derive_opening, derive_settling, hash_secret, Derivation, DerivedAddress};
use solana_spl_swaps::events::{SwapError, TokenAccount};
use solana_spl_swaps::instructions::{
    initiate, initiate_with, instant_refund, instant_refund_with, redeem, redeem_with, refund, refund_with,
    InstantRefund, Initiate, Redeem, Refund,
};
use solana_spl_swaps::state::{SwapAccount, SwapStore};

const PROGRAM: &str = "2WXpY8havGjfRxme9LUxtjFHTh1EfU3ur4v6wiK4KdNC";
const USDC: &str = "EPjFWdd5AufqSSqeM2qN1xzybapC8G4wEGGkZwyTDt1v";

fn key(b: u8) -> Address {
    Address::new([b; 32])
}

fn program_id() -> Address {
    Address::new(Pubkey::from_str(PROGRAM).unwrap().to_bytes())
}

fn usdc() -> Address {
    Address::new(Pubkey::from_str(USDC).unwrap().to_bytes())
}

fn redeemer() -> Address {
    key(0x52)
}

fn refundee() -> Address {
    key(0x46)
}

fn funder() -> Address {
    key(0x0f)
}

fn sponsor() -> Address {
    key(0x5a)
}

fn secret_s() -> [u8; 32] {
    let mut s = [0u8; 32];
    s[0] = b's';
    s
}

fn hash_of(secret: &[u8; 32]) -> [u8; 32] {
    hash(secret).to_bytes()
}

fn find(seeds: &[&[u8]]) -> (Address, u8) {
    let pid = Pubkey::new_from_array(program_id().bytes);
    let (p, b) = Pubkey::find_program_address(seeds, &pid);
    (Address::new(p.to_bytes()), b)
}

struct Terms {
    mint: Address,
    secret_hash: [u8; 32],
    amount: u64,
    timelock: u64,
}

fn usdc_terms() -> Terms {
    Terms { mint: usdc(), secret_hash: hash_of(&secret_s()), amount: 1_000_000, timelock: 100 }
}

fn identity() -> Address {
    find(&[]).0
}

fn vault(t: &Terms) -> Address {
    find(&[&t.mint.bytes]).0
}

fn record(t: &Terms) -> Address {
    find(&[
        &t.mint.bytes,
        &redeemer().bytes,
        &refundee().bytes,
        &t.secret_hash,
        &t.amount.to_le_bytes(),
        &t.timelock.to_le_bytes(),
    ])
    .0
}

fn open_ctx(t: &Terms) -> Initiate {
    Initiate {
        identity_pda: identity(),
        swap_data: record(t),
        token_vault: vault(t),
        funder: funder(),
        funder_token_account: TokenAccount { address: key(0xf1), mint: t.mint, owner: funder() },
        mint: t.mint,
        rent_sponsor: sponsor(),
    }
}

fn open(store: &mut SwapStore, t: &Terms, slot: u64) -> Result<SwapAccount, SwapError> {
    initiate(store, &open_ctx(t), slot, redeemer(), refundee(), t.secret_hash, t.amount, t.timelock, None)
        .map(|o| o.record)
}

fn redeem_ctx(t: &Terms) -> Redeem {
    Redeem {
        identity_pda: identity(),
        swap_data: record(t),
        token_vault: vault(t),
        redeemer_token_account: TokenAccount { address: key(0xa1), mint: t.mint, owner: redeemer() },
        rent_sponsor: sponsor(),
    }
}

fn refund_ctx(t: &Terms) -> Refund {
    Refund {
        identity_pda: identity(),
        swap_data: record(t),
        token_vault: vault(t),
        refundee_token_account: TokenAccount { address: key(0xb1), mint: t.mint, owner: refundee() },
        rent_sponsor: sponsor(),
    }
}

fn consent_ctx(t: &Terms, signer: Address) -> InstantRefund {
    InstantRefund {
        identity_pda: identity(),
        swap_data: record(t),
        token_vault: vault(t),
        refundee_token_account: TokenAccount { address: key(0xb1), mint: t.mint, owner: refundee() },
        redeemer: signer,
        rent_sponsor: sponsor(),
    }
}

fn err<T>(r: Result<T, SwapError>) -> SwapError {
    match r {
        Ok(_) => panic!("expected an error"),
        Err(e) => e,
    }
}

#[test]
fn open_then_redeem_then_refund_fails() {
    let t = usdc_terms();
    let mut store = SwapStore::new(program_id());
    let opening = initiate(
        &mut store,
        &open_ctx(&t),
        10,
        redeemer(),
        refundee(),
        t.secret_hash,
        t.amount,
        t.timelock,
        Some(vec![1, 2, 3]),
    )
    .unwrap();
    assert_eq!(opening.record.expiry_slot, 110);
    assert_eq!(opening.record.swap_amount, 1_000_000);
    assert_eq!(opening.transfer.amount, 1_000_000);
    assert_eq!(opening.transfer.from.bytes, key(0xf1).bytes);
    assert_eq!(opening.transfer.to.bytes, vault(&t).bytes);
    assert_eq!(opening.transfer.authority.bytes, funder().bytes);
    assert_eq!(opening.event.destination_data, Some(vec![1, 2, 3]));
    assert_eq!(opening.event.funder.bytes, funder().bytes);
    assert!(store.contains(&record(&t)));

    let (payout, event) = redeem(&mut store, &redeem_ctx(&t), secret_s()).unwrap();
    assert_eq!(event.secret, secret_s());
    assert_eq!(event.swap_amount, 1_000_000);
    assert_eq!(payout.transfer.amount, 1_000_000);
    assert_eq!(payout.transfer.from.bytes, vault(&t).bytes);
    assert_eq!(payout.transfer.to.bytes, key(0xa1).bytes);
    assert_eq!(payout.transfer.authority.bytes, identity().bytes);
    assert_eq!(payout.close_to.bytes, sponsor().bytes);
    assert!(!store.contains(&record(&t)));

    assert_eq!(err(refund(&mut store, &refund_ctx(&t), 200)), SwapError::SwapNotFound);
}

#[test]
fn refund_waits_for_expiry() {
    let t = usdc_terms();
    let mut store = SwapStore::new(program_id());
    open(&mut store, &t, 10).unwrap();
    assert_eq!(err(refund(&mut store, &refund_ctx(&t), 105)), SwapError::RefundBeforeExpiry);
    assert_eq!(err(refund(&mut store, &refund_ctx(&t), 110)), SwapError::RefundBeforeExpiry);
    let (payout, event) = refund(&mut store, &refund_ctx(&t), 111).unwrap();
    assert_eq!(payout.transfer.to.bytes, key(0xb1).bytes);
    assert_eq!(payout.transfer.amount, 1_000_000);
    assert_eq!(event.secret_hash, t.secret_hash);
    assert!(!store.contains(&record(&t)));
}

#[test]
fn consent_refund_needs_the_redeemer() {
    let t = usdc_terms();
    let mut store = SwapStore::new(program_id());
    open(&mut store, &t, 10).unwrap();
    assert_eq!(err(instant_refund(&mut store, &consent_ctx(&t, refundee()))), SwapError::InvalidRedeemer);
    assert!(store.contains(&record(&t)));
    let (payout, event) = instant_refund(&mut store, &consent_ctx(&t, redeemer())).unwrap();
    assert_eq!(payout.transfer.to.bytes, key(0xb1).bytes);
    assert_eq!(payout.transfer.amount, 1_000_000);
    assert_eq!(event.redeemer.bytes, redeemer().bytes);
    assert!(!store.contains(&record(&t)));
}

#[test]
fn every_settlement_fails_after_one_succeeds() {
    let t = usdc_terms();
    let mut store = SwapStore::new(program_id());
    open(&mut store, &t, 10).unwrap();
    instant_refund(&mut store, &consent_ctx(&t, redeemer())).unwrap();
    assert_eq!(err(redeem(&mut store, &redeem_ctx(&t), secret_s())), SwapError::SwapNotFound);
    assert_eq!(err(refund(&mut store, &refund_ctx(&t), 500)), SwapError::SwapNotFound);
    assert_eq!(err(instant_refund(&mut store, &consent_ctx(&t, redeemer()))), SwapError::SwapNotFound);
}

#[test]
fn wrong_secret_is_refused_and_changes_nothing() {
    let t = usdc_terms();
    let mut store = SwapStore::new(program_id());
    open(&mut store, &t, 10).unwrap();
    let mut wrong = secret_s();
    wrong[0] = b't';
    assert_eq!(err(redeem(&mut store, &redeem_ctx(&t), wrong)), SwapError::InvalidSecret);
    assert!(store.contains(&record(&t)));
    assert!(redeem(&mut store, &redeem_ctx(&t), secret_s()).is_ok());
}

#[test]
fn same_terms_cannot_be_opened_twice() {
    let t = usdc_terms();
    let mut store = SwapStore::new(program_id());
    open(&mut store, &t, 10).unwrap();
    assert_eq!(err(open(&mut store, &t, 20)), SwapError::SwapAlreadyExists);
    let other = Terms { amount: 999_999, ..usdc_terms() };
    assert!(open(&mut store, &other, 20).is_ok());
    assert!(store.contains(&record(&t)));
    assert!(store.contains(&record(&other)));
}

#[test]
fn overflowing_timelock_is_refused() {
    let t = Terms { timelock: 10, ..usdc_terms() };
    let mut store = SwapStore::new(program_id());
    assert_eq!(err(open(&mut store, &t, u64::MAX - 5)), SwapError::TimelockOverflow);
    assert!(!store.contains(&record(&t)));
    let r = open(&mut store, &t, u64::MAX - 10).unwrap();
    assert_eq!(r.expiry_slot, u64::MAX);
}

#[test]
fn zero_amount_is_not_refused() {
    let t = Terms { amount: 0, ..usdc_terms() };
    let mut store = SwapStore::new(program_id());
    let r = open(&mut store, &t, 1).unwrap();
    assert_eq!(r.swap_amount, 0);
}

#[test]
fn wrong_addresses_are_refused() {
    let t = usdc_terms();
    let mut store = SwapStore::new(program_id());

    let mut ctx = open_ctx(&t);
    ctx.identity_pda = key(9);
    assert_eq!(
        err(initiate(&mut store, &ctx, 10, redeemer(), refundee(), t.secret_hash, t.amount, t.timelock, None)),
        SwapError::AddressDerivationMismatch
    );
    let mut ctx = open_ctx(&t);
    ctx.swap_data = key(9);
    assert_eq!(
        err(initiate(&mut store, &ctx, 10, redeemer(), refundee(), t.secret_hash, t.amount, t.timelock, None)),
        SwapError::AddressDerivationMismatch
    );
    let mut ctx = open_ctx(&t);
    ctx.token_vault = key(9);
    assert_eq!(
        err(initiate(&mut store, &ctx, 10, redeemer(), refundee(), t.secret_hash, t.amount, t.timelock, None)),
        SwapError::AddressDerivationMismatch
    );
    let mut ctx = open_ctx(&t);
    ctx.funder_token_account.owner = key(9);
    assert_eq!(
        err(initiate(&mut store, &ctx, 10, redeemer(), refundee(), t.secret_hash, t.amount, t.timelock, None)),
        SwapError::InvalidTokenAccount
    );
    assert!(!store.contains(&record(&t)));

    open(&mut store, &t, 10).unwrap();
    let mut ctx = redeem_ctx(&t);
    ctx.identity_pda = key(9);
    assert_eq!(err(redeem(&mut store, &ctx, secret_s())), SwapError::AddressDerivationMismatch);
    let mut ctx = redeem_ctx(&t);
    ctx.token_vault = key(9);
    assert_eq!(err(redeem(&mut store, &ctx, secret_s())), SwapError::AddressDerivationMismatch);
    let mut ctx = redeem_ctx(&t);
    ctx.redeemer_token_account.owner = funder();
    assert_eq!(err(redeem(&mut store, &ctx, secret_s())), SwapError::InvalidTokenAccount);
    let mut ctx = redeem_ctx(&t);
    ctx.rent_sponsor = funder();
    assert_eq!(err(redeem(&mut store, &ctx, secret_s())), SwapError::InvalidRentSponsor);
    let mut ctx = refund_ctx(&t);
    ctx.refundee_token_account.mint = key(9);
    assert_eq!(err(refund(&mut store, &ctx, 500)), SwapError::InvalidTokenAccount);
    let mut ctx = consent_ctx(&t, redeemer());
    ctx.rent_sponsor = funder();
    assert_eq!(err(instant_refund(&mut store, &ctx)), SwapError::InvalidRentSponsor);
    let mut ctx = redeem_ctx(&t);
    ctx.swap_data = key(9);
    assert_eq!(err(redeem(&mut store, &ctx, secret_s())), SwapError::SwapNotFound);
    assert!(store.contains(&record(&t)));
}

#[test]
fn derived_addresses_depend_on_every_term() {
    let pid = program_id();
    let t = usdc_terms();
    let a = derive_opening(&pid, &t.mint, &redeemer(), &refundee(), &t.secret_hash, t.amount, t.timelock);
    let b = derive_opening(&pid, &t.mint, &redeemer(), &refundee(), &t.secret_hash, t.amount, t.timelock);
    let ar = a.record.unwrap();
    assert_eq!(ar.address.bytes, b.record.unwrap().address.bytes);
    assert_eq!(ar.address.bytes, record(&t).bytes);
    assert_eq!(a.vault.unwrap().address.bytes, vault(&t).bytes);
    assert_eq!(a.identity.unwrap().address.bytes, identity().bytes);

    let variants = [
        derive_opening(&pid, &key(1), &redeemer(), &refundee(), &t.secret_hash, t.amount, t.timelock),
        derive_opening(&pid, &t.mint, &key(1), &refundee(), &t.secret_hash, t.amount, t.timelock),
        derive_opening(&pid, &t.mint, &redeemer(), &key(1), &t.secret_hash, t.amount, t.timelock),
        derive_opening(&pid, &t.mint, &redeemer(), &refundee(), &[1; 32], t.amount, t.timelock),
        derive_opening(&pid, &t.mint, &redeemer(), &refundee(), &t.secret_hash, t.amount + 1, t.timelock),
        derive_opening(&pid, &t.mint, &redeemer(), &refundee(), &t.secret_hash, t.amount, t.timelock + 1),
    ];
    for v in variants.iter() {
        assert_ne!(v.record.unwrap().address.bytes, ar.address.bytes);
    }
    assert_ne!(variants[0].vault.unwrap().address.bytes, a.vault.unwrap().address.bytes);
    assert_eq!(variants[1].vault.unwrap().address.bytes, a.vault.unwrap().address.bytes);

    let s = derive_settling(
        &pid,
        a.identity.unwrap().bump,
        ar.bump,
        &t.mint,
        &redeemer(),
        &refundee(),
        &t.secret_hash,
        t.amount,
        t.timelock,
    );
    assert_eq!(s.record.unwrap().address.bytes, ar.address.bytes);
    assert_eq!(s.identity.unwrap().address.bytes, identity().bytes);
}

#[test]
fn secret_hash_is_sha256() {
    let zero = [0u8; 32];
    let d = hash_secret(&zero);
    assert_ne!(d, zero);
    assert_eq!(d[0], 0x66);
    assert_eq!(d[1], 0x68);
    assert_eq!(d[31], 0x25);
    assert_eq!(hash_secret(&secret_s()), hash_of(&secret_s()));
}

#[test]
fn little_endian_bytes() {
    assert_eq!(le_bytes(0x0102_0304_0506_0708), vec![8, 7, 6, 5, 4, 3, 2, 1]);
    assert_eq!(le_bytes(1_000_000), 1_000_000u64.to_le_bytes().to_vec());
    assert_eq!(le_bytes(0), vec![0; 8]);
}

#[test]
fn byte_equality() {
    assert!(bytes_equal(&[3; 32], &[3; 32]));
    let mut b = [3; 32];
    b[31] = 4;
    assert!(!bytes_equal(&[3; 32], &b));
    assert!(key(1).same_as(&key(1)));
    assert!(!key(1).same_as(&key(2)));
}

fn fake_derivation() -> Derivation {
    Derivation {
        identity: Some(DerivedAddress { address: key(0xd1), bump: 250 }),
        record: Some(DerivedAddress { address: key(0xd2), bump: 251 }),
        vault: Some(DerivedAddress { address: key(0xd3), bump: 252 }),
    }
}

fn fake_open_ctx() -> Initiate {
    Initiate {
        identity_pda: key(0xd1),
        swap_data: key(0xd2),
        token_vault: key(0xd3),
        funder: funder(),
        funder_token_account: TokenAccount { address: key(0xf1), mint: key(0xcc), owner: funder() },
        mint: key(0xcc),
        rent_sponsor: sponsor(),
    }
}

#[test]
fn decisions_on_given_derivations() {
    let d = fake_derivation();
    let mut store = SwapStore::new(key(0xee));
    let o = initiate_with(&mut store, &fake_open_ctx(), &d, 7, redeemer(), refundee(), [0xab; 32], 50, 3, None)
        .unwrap();
    assert_eq!(o.record.bump, 251);
    assert_eq!(o.record.identity_pda_bump, 250);
    assert_eq!(o.record.expiry_slot, 10);

    let missing = Derivation { vault: None, ..fake_derivation() };
    let mut ctx = fake_open_ctx();
    ctx.swap_data = key(0xd2);
    let mut other = SwapStore::new(key(0xee));
    assert_eq!(
        err(initiate_with(&mut other, &ctx, &missing, 7, redeemer(), refundee(), [0xab; 32], 50, 3, None)),
        SwapError::AddressDerivationMismatch
    );

    let rctx = Redeem {
        identity_pda: key(0xd1),
        swap_data: key(0xd2),
        token_vault: key(0xd3),
        redeemer_token_account: TokenAccount { address: key(0xa1), mint: key(0xcc), owner: redeemer() },
        rent_sponsor: sponsor(),
    };
    assert_eq!(err(redeem_with(&mut store, &rctx, [0; 32], &d, &[0xac; 32])), SwapError::InvalidSecret);
    let fctx = Refund {
        identity_pda: key(0xd1),
        swap_data: key(0xd2),
        token_vault: key(0xd3),
        refundee_token_account: TokenAccount { address: key(0xb1), mint: key(0xcc), owner: refundee() },
        rent_sponsor: sponsor(),
    };
    assert_eq!(err(refund_with(&mut store, &fctx, &d, 10)), SwapError::RefundBeforeExpiry);
    let ictx = InstantRefund {
        identity_pda: key(0xd1),
        swap_data: key(0xd2),
        token_vault: key(0xd3),
        refundee_token_account: TokenAccount { address: key(0xb1), mint: key(0xcc), owner: refundee() },
        redeemer: refundee(),
        rent_sponsor: sponsor(),
    };
    assert_eq!(err(instant_refund_with(&mut store, &ictx, &d)), SwapError::InvalidRedeemer);
    let (p, e) = redeem_with(&mut store, &rctx, [0; 32], &d, &[0xab; 32]).unwrap();
    assert_eq!(p.transfer.amount, 50);
    assert_eq!(e.secret, [0; 32]);
    assert_eq!(err(refund_with(&mut store, &fctx, &d, 11)), SwapError::SwapNotFound);
}

#[test]
fn refund_after_expiry_on_given_derivation() {
    let d = fake_derivation();
    let mut store = SwapStore::new(key(0xee));
    initiate_with(&mut store, &fake_open_ctx(), &d, 7, redeemer(), refundee(), [0xab; 32], 50, 3, None).unwrap();
    let fctx = Refund {
        identity_pda: key(0xd1),
        swap_data: key(0xd2),
        token_vault: key(0xd3),
        refundee_token_account: TokenAccount { address: key(0xb1), mint: key(0xcc), owner: refundee() },
        rent_sponsor: sponsor(),
    };
    let (p, _) = refund_with(&mut store, &fctx, &d, 11).unwrap();
    assert_eq!(p.transfer.to.bytes, key(0xb1).bytes);
    assert!(!store.contains(&key(0xd2)));
}

#[test]
fn store_holds_records_by_address() {
    let mut store = SwapStore::new(key(1));
    assert_eq!(store.program_id().bytes, key(1).bytes);
    assert!(store.get(&key(2)).is_none());
    let rec = SwapAccount {
        bump: 1,
        expiry_slot: 2,
        identity_pda_bump: 3,
        rent_sponsor: key(4),
        mint: key(5),
        redeemer: key(6),
        refundee: key(7),
        secret_hash: [8; 32],
        swap_amount: 9,
        timelock: 10,
    };
    store.insert_new(key(2), rec);
    assert_eq!(store.get(&key(2)).unwrap().swap_amount, 9);
    assert!(!store.contains(&key(3)));
}
