use strangemood::accounts::{
    Cancel, Cash, Consume, Derived, InitCharter, InitCharterTreasury, InitListing, Purchase,
    SetListing, SetReceiptCashable,
};
use strangemood::address::Address;
use strangemood::authority::{find_for, receipt_address, treasury_address, Domain};
use strangemood::cancel::{cancel, cancel_with};
use strangemood::cash::{cash, cash_with, settlement, Settlement};
use strangemood::charter::{init_charter, init_charter_treasury};
use strangemood::consume::{consume, set_receipt_cashable};
use strangemood::error::{ConstraintError, ErrorKind, LedgerError, Rejection, StrangemoodError};
use strangemood::ledger::{AccountData, Ledger};
use strangemood::listing::{init_listing, set_listing_price};
use strangemood::purchase::{purchase, purchase_with, total};
use strangemood::records::Receipt;

fn key(n: u8) -> Address {
    Address::new([n; 32])
}

struct World {
    ledger: Ledger,
    payment_mint: Address,
    payment_mint_authority: Address,
    charter_mint: Address,
    charter_mint_authority: Address,
    charter_mint_bump: u8,
    charter: Address,
    charter_authority: Address,
    charter_vote_deposit: Address,
    treasury: Address,
    treasury_deposit: Address,
    seller: Address,
    listing: Address,
    listing_bump: u8,
    listing_mint: Address,
    listing_mint_authority: Address,
    listing_mint_bump: u8,
    seller_payment_deposit: Address,
    seller_vote_deposit: Address,
    buyer: Address,
    wallet: Address,
    claims: Address,
    cashier: Address,
}

/// A marketplace with one charter (payment contribution 0.10, vote
/// contribution 0.5, expansion 1.0), one treasury (scalar 2), one listing at
/// the given price, and a buyer with 10000 units of the payment currency.
fn world(price: u64, refundable: bool, consumable: bool) -> World {
    let mut ledger = Ledger::new();
    let payment_mint = key(1);
    let payment_mint_authority = key(2);
    ledger.open_mint(&payment_mint, 9, &payment_mint_authority).unwrap();

    let charter_mint = key(3);
    let (charter_mint_authority, charter_mint_bump) = find_for(Domain::Mint, &charter_mint).unwrap();
    ledger.open_mint(&charter_mint, 9, &charter_mint_authority).unwrap();
    let charter_authority = key(5);
    let charter_vote_deposit = key(4);
    ledger.open_token(&charter_vote_deposit, &charter_mint, &charter_authority).unwrap();
    let (charter, charter_bump) = find_for(Domain::Charter, &charter_mint).unwrap();
    init_charter(
        &mut ledger,
        &InitCharter {
            charter,
            mint: charter_mint,
            authority: charter_authority,
            vote_deposit: charter_vote_deposit,
            user: charter_authority,
        },
        charter_bump,
        1,
        0,
        10,
        2,
        5,
        1,
        String::from("https://example.org/charter"),
    )
    .unwrap();

    let treasury_deposit = key(6);
    ledger.open_token(&treasury_deposit, &payment_mint, &charter_authority).unwrap();
    let (treasury, treasury_bump) = treasury_address(&charter, &payment_mint).unwrap();
    init_charter_treasury(
        &mut ledger,
        &InitCharterTreasury {
            treasury,
            charter,
            deposit: treasury_deposit,
            mint: payment_mint,
            authority: charter_authority,
        },
        treasury_bump,
        2,
        0,
    )
    .unwrap();

    let seller = key(12);
    let listing_mint = key(10);
    let (listing, listing_bump) = find_for(Domain::Listing, &listing_mint).unwrap();
    let (listing_mint_authority, listing_mint_bump) = find_for(Domain::Mint, &listing_mint).unwrap();
    let seller_payment_deposit = key(11);
    let seller_vote_deposit = key(13);
    ledger.open_token(&seller_payment_deposit, &payment_mint, &seller).unwrap();
    ledger.open_token(&seller_vote_deposit, &charter_mint, &seller).unwrap();
    init_listing(
        &mut ledger,
        &InitListing {
            listing,
            mint_authority_pda: listing_mint_authority,
            mint: listing_mint,
            payment_deposit: seller_payment_deposit,
            vote_deposit: seller_vote_deposit,
            charter,
            charter_treasury: treasury,
            user: seller,
        },
        listing_mint_bump,
        listing_bump,
        0,
        price,
        refundable,
        consumable,
        true,
        String::from("https://example.org/listing"),
    )
    .unwrap();

    let buyer = key(20);
    let wallet = key(21);
    let claims = key(22);
    ledger.open_token(&wallet, &payment_mint, &buyer).unwrap();
    ledger.mint_to(&payment_mint, &wallet, &payment_mint_authority, 10_000).unwrap();
    ledger.open_token(&claims, &listing_mint, &buyer).unwrap();

    World {
        ledger,
        payment_mint,
        payment_mint_authority,
        charter_mint,
        charter_mint_authority,
        charter_mint_bump,
        charter,
        charter_authority,
        charter_vote_deposit,
        treasury,
        treasury_deposit,
        seller,
        listing,
        listing_bump,
        listing_mint,
        listing_mint_authority,
        listing_mint_bump,
        seller_payment_deposit,
        seller_vote_deposit,
        buyer,
        wallet,
        claims,
        cashier: key(40),
    }
}

struct Bought {
    nonce: u128,
    receipt: Address,
    escrow: Address,
    escrow_authority: Address,
    escrow_bump: u8,
}

fn purchase_accounts(w: &World, nonce: u128, escrow: Address) -> (Purchase, Bought) {
    let (receipt, _) = receipt_address(nonce).unwrap();
    let (escrow_authority, escrow_bump) = find_for(Domain::Escrow, &escrow).unwrap();
    (
        Purchase {
            purchase_token_account: w.wallet,
            listing: w.listing,
            listing_payment_deposit: w.seller_payment_deposit,
            listing_payment_deposit_mint: w.payment_mint,
            cashier: w.cashier,
            listing_token_account: w.claims,
            listing_mint: w.listing_mint,
            listing_mint_authority: w.listing_mint_authority,
            receipt,
            escrow,
            escrow_authority,
            user: w.buyer,
        },
        Bought { nonce, receipt, escrow, escrow_authority, escrow_bump },
    )
}

/// Buys `amount` units; the receipt's address holds 5000 lamports of storage
/// deposit and the escrow's 2000.
fn buy(w: &mut World, nonce: u128, escrow: Address, amount: u64) -> Bought {
    let (ctx, bought) = purchase_accounts(w, nonce, escrow);
    w.ledger.credit(&bought.receipt, 5000).unwrap();
    w.ledger.credit(&bought.escrow, 2000).unwrap();
    purchase(
        &mut w.ledger,
        &ctx,
        nonce,
        0,
        w.listing_mint_bump,
        bought.escrow_bump,
        amount,
    )
    .unwrap();
    bought
}

fn cash_accounts(w: &World, b: &Bought) -> Cash {
    Cash {
        cashier: w.cashier,
        receipt: b.receipt,
        escrow: b.escrow,
        escrow_authority: b.escrow_authority,
        listing_token_account: w.claims,
        listings_payment_deposit: w.seller_payment_deposit,
        listings_vote_deposit: w.seller_vote_deposit,
        listing: w.listing,
        listing_mint: w.listing_mint,
        listing_mint_authority: w.listing_mint_authority,
        charter_treasury: w.treasury,
        charter_treasury_deposit: w.treasury_deposit,
        charter_vote_deposit: w.charter_vote_deposit,
        charter_mint: w.charter_mint,
        charter_mint_authority: w.charter_mint_authority,
        charter: w.charter,
    }
}

fn cancel_accounts(w: &World, b: &Bought) -> Cancel {
    Cancel {
        purchaser: w.buyer,
        return_deposit: w.wallet,
        receipt: b.receipt,
        escrow: b.escrow,
        escrow_authority: b.escrow_authority,
        listing_token_account: w.claims,
        listing: w.listing,
        listing_mint: w.listing_mint,
        listing_mint_authority: w.listing_mint_authority,
    }
}

fn consume_accounts(w: &World) -> Consume {
    Consume {
        listing: w.listing,
        mint: w.listing_mint,
        mint_authority: w.listing_mint_authority,
        listing_token_account: w.claims,
        authority: w.seller,
    }
}

fn run_cash(w: &mut World, ctx: &Cash, b: &Bought) -> Result<(), Rejection> {
    cash(&mut w.ledger, ctx, w.listing_mint_bump, w.charter_mint_bump, b.escrow_bump)
}

fn run_cancel(w: &mut World, ctx: &Cancel, b: &Bought) -> Result<(), Rejection> {
    cancel(&mut w.ledger, ctx, w.listing_bump, w.listing_mint_bump, b.escrow_bump)
}

fn tokens(w: &World, a: &Address) -> u64 {
    w.ledger.token_account(a).unwrap().amount
}

fn supply(w: &World, mint: &Address) -> u64 {
    w.ledger.mint(mint).unwrap().supply
}

/// The balances that a transition that was turned down must not have touched.
fn balances(w: &World, b: &Bought) -> Vec<Option<u64>> {
    [
        w.wallet,
        w.claims,
        w.seller_payment_deposit,
        w.seller_vote_deposit,
        w.treasury_deposit,
        w.charter_vote_deposit,
        b.escrow,
    ]
    .iter()
    .map(|a| w.ledger.token_account(a).map(|t| t.amount))
    .chain(
        [w.listing_mint, w.charter_mint, w.payment_mint].iter().map(|m| {
            w.ledger.mint(m).map(|m| m.supply)
        }),
    )
    .chain(
        [b.receipt, b.escrow, w.cashier, w.buyer, w.treasury_deposit].iter().map(|a| {
            Some(w.ledger.lamports(a))
        }),
    )
    .collect()
}

#[test]
fn purchase_moves_units_times_price_into_escrow() {
    let mut w = world(100, false, false);
    let b = buy(&mut w, 1, key(30), 3);
    let escrow = w.ledger.token_account(&b.escrow).unwrap();
    assert_eq!(escrow.amount, 300);
    assert_eq!(escrow.mint, w.payment_mint);
    assert_eq!(escrow.owner, b.escrow_authority);
    assert!(!escrow.is_frozen);
    assert_eq!(tokens(&w, &w.wallet), 9_700);
    assert_eq!(
        w.ledger.receipt(&b.receipt),
        Some(Receipt {
            is_initialized: true,
            is_refundable: false,
            is_cashable: true,
            listing: w.listing,
            listing_token_account: w.claims,
            purchaser: w.buyer,
            cashier: w.cashier,
            escrow: b.escrow,
            quantity: 3,
            price: 100,
            nonce: 1,
        })
    );
    // a purchase that is not refundable gets its claim tokens at settlement
    assert_eq!(tokens(&w, &w.claims), 0);
    assert_eq!(supply(&w, &w.listing_mint), 0);
    assert_eq!(w.ledger.lamports(&b.receipt), 5000);
    assert_eq!(w.ledger.lamports(&b.escrow), 2000);
}

#[test]
fn purchase_of_a_refundable_listing_mints_frozen_claims() {
    let mut w = world(100, true, false);
    let b = buy(&mut w, 1, key(30), 3);
    let claims = w.ledger.token_account(&w.claims).unwrap();
    assert_eq!(claims.amount, 3);
    assert!(claims.is_frozen);
    assert_eq!(supply(&w, &w.listing_mint), 3);
    let receipt = w.ledger.receipt(&b.receipt).unwrap();
    assert!(receipt.is_refundable);
    assert!(!receipt.is_cashable);
    assert_eq!(tokens(&w, &b.escrow), 300);
}

#[test]
fn receipt_is_cashable_from_the_start_only_where_not_refundable() {
    let mut plain = world(100, false, false);
    let b = buy(&mut plain, 1, key(30), 1);
    assert!(plain.ledger.receipt(&b.receipt).unwrap().is_cashable);

    let mut refundable = world(100, true, false);
    let b = buy(&mut refundable, 1, key(30), 1);
    assert!(!refundable.ledger.receipt(&b.receipt).unwrap().is_cashable);
    let ctx = cash_accounts(&refundable, &b);
    assert_eq!(
        run_cash(&mut refundable, &ctx, &b),
        Err(Rejection::Program(StrangemoodError::ReceiptNotCashable))
    );
    assert!(!refundable.ledger.receipt(&b.receipt).unwrap().is_cashable);

    set_receipt_cashable(
        &mut refundable.ledger,
        &SetReceiptCashable { listing: refundable.listing, receipt: b.receipt, authority: refundable.seller },
    )
    .unwrap();
    let receipt = refundable.ledger.receipt(&b.receipt).unwrap();
    assert!(receipt.is_cashable);
    assert!(receipt.is_refundable);
    assert_eq!(run_cash(&mut refundable, &ctx, &b), Ok(()));
}

#[test]
fn receipt_keeps_the_price_of_the_purchase() {
    let mut w = world(100, false, false);
    let b = buy(&mut w, 1, key(30), 1);
    set_listing_price(&mut w.ledger, &SetListing { listing: w.listing, user: w.seller }, 250).unwrap();
    assert_eq!(w.ledger.listing(&w.listing).unwrap().price, 250);
    assert_eq!(w.ledger.receipt(&b.receipt).unwrap().price, 100);
    let later = buy(&mut w, 2, key(31), 1);
    assert_eq!(w.ledger.receipt(&later.receipt).unwrap().price, 250);
    assert_eq!(tokens(&w, &later.escrow), 250);
}

#[test]
fn settlement_of_300_at_a_tenth() {
    let mut w = world(100, false, false);
    let b = buy(&mut w, 1, key(30), 3);
    assert_eq!(tokens(&w, &b.escrow), 300);
    let charter = w.ledger.charter(&w.charter).unwrap();
    let treasury = w.ledger.treasury(&w.treasury).unwrap();
    assert_eq!(
        settlement(300, &charter, &treasury),
        Some(Settlement {
            deposit_amount: 270,
            contribution_amount: 30,
            // 30 * 1.0 * 2 = 60 governance tokens, split in halves
            vote_deposit_amount: 30,
            vote_contribution_amount: 30,
        })
    );
}

#[test]
fn cash_pays_the_seller_and_the_treasury() {
    let mut w = world(300, false, false);
    let b = buy(&mut w, 1, key(30), 1);
    let ctx = cash_accounts(&w, &b);
    assert_eq!(run_cash(&mut w, &ctx, &b), Ok(()));
    assert_eq!(tokens(&w, &w.seller_payment_deposit), 270);
    assert_eq!(tokens(&w, &w.treasury_deposit), 30);
    assert_eq!(tokens(&w, &w.seller_vote_deposit), 30);
    assert_eq!(tokens(&w, &w.charter_vote_deposit), 30);
    assert_eq!(supply(&w, &w.charter_mint), 60);
    // the claim token is minted at settlement, frozen
    let claims = w.ledger.token_account(&w.claims).unwrap();
    assert_eq!(claims.amount, 1);
    assert!(claims.is_frozen);
    assert_eq!(supply(&w, &w.listing_mint), 1);
    // receipt and escrow are gone
    assert_eq!(w.ledger.receipt(&b.receipt), None);
    assert_eq!(w.ledger.data(&b.receipt), AccountData::Empty);
    assert_eq!(w.ledger.token_account(&b.escrow), None);
    assert_eq!(w.ledger.data(&b.escrow), AccountData::Empty);
    assert_eq!(w.ledger.lamports(&b.receipt), 0);
    assert_eq!(w.ledger.lamports(&b.escrow), 0);
    // the receipt's storage deposit went to the treasury's deposit, the escrow's to the cashier
    assert_eq!(w.ledger.lamports(&w.treasury_deposit), 5000);
    assert_eq!(w.ledger.lamports(&w.cashier), 2000);
    assert_eq!(tokens(&w, &w.wallet), 9_700);
}

#[test]
fn cash_of_several_units_leaves_a_balance_and_is_turned_down() {
    let mut w = world(100, false, false);
    let b = buy(&mut w, 1, key(30), 3);
    let before = balances(&w, &b);
    let ctx = cash_accounts(&w, &b);
    assert_eq!(
        run_cash(&mut w, &ctx, &b),
        Err(Rejection::Ledger(LedgerError::BalanceNotZero))
    );
    assert_eq!(balances(&w, &b), before);
    assert!(w.ledger.receipt(&b.receipt).is_some());
    assert_eq!(tokens(&w, &b.escrow), 300);
}

#[test]
fn cash_a_second_time_is_turned_down() {
    let mut w = world(300, false, false);
    let b = buy(&mut w, 1, key(30), 1);
    let ctx = cash_accounts(&w, &b);
    assert_eq!(run_cash(&mut w, &ctx, &b), Ok(()));
    let before = balances(&w, &b);
    let again = run_cash(&mut w, &ctx, &b);
    assert_eq!(again, Err(Rejection::Ledger(LedgerError::AccountNotFound)));
    assert_eq!(again.unwrap_err().kind(), ErrorKind::StateGateViolation);
    assert_eq!(balances(&w, &b), before);
    // nor can it be cancelled any more
    let ctx = cancel_accounts(&w, &b);
    assert_eq!(
        run_cancel(&mut w, &ctx, &b),
        Err(Rejection::Ledger(LedgerError::AccountNotFound))
    );
}

#[test]
fn cash_with_a_foreign_charter_vote_deposit_is_turned_down() {
    let mut w = world(300, false, false);
    let b = buy(&mut w, 1, key(30), 1);
    let foreign = key(50);
    w.ledger.open_token(&foreign, &w.charter_mint, &key(51)).unwrap();
    let before = balances(&w, &b);
    let mut ctx = cash_accounts(&w, &b);
    ctx.charter_vote_deposit = foreign;
    let r = run_cash(&mut w, &ctx, &b);
    assert_eq!(r, Err(Rejection::Program(StrangemoodError::DepositIsNotFoundInCharter)));
    assert_eq!(r.unwrap_err().kind(), ErrorKind::CrossReferenceMismatch);
    assert_eq!(balances(&w, &b), before);
    assert_eq!(tokens(&w, &foreign), 0);
    assert_eq!(tokens(&w, &b.escrow), 300);
}

#[test]
fn cash_checks_come_in_order() {
    let mut w = world(300, false, false);
    let b = buy(&mut w, 1, key(30), 1);
    let good = cash_accounts(&w, &b);
    let before = balances(&w, &b);

    let mut ctx = good;
    ctx.cashier = key(60);
    assert_eq!(
        run_cash(&mut w, &ctx, &b),
        Err(Rejection::Program(StrangemoodError::OnlyCashableByTheCashier))
    );
    let mut ctx = good;
    ctx.listing_mint = w.charter_mint;
    assert_eq!(
        run_cash(&mut w, &ctx, &b),
        Err(Rejection::Program(StrangemoodError::UnexpectedListingMint))
    );
    let mut ctx = good;
    ctx.listing_token_account = w.wallet;
    assert_eq!(
        run_cash(&mut w, &ctx, &b),
        Err(Rejection::Program(StrangemoodError::UnexpectedListingTokenAccount))
    );
    let mut ctx = good;
    ctx.listings_vote_deposit = w.charter_vote_deposit;
    assert_eq!(
        run_cash(&mut w, &ctx, &b),
        Err(Rejection::Program(StrangemoodError::DepositIsNotFoundInListing))
    );
    let mut ctx = good;
    ctx.listings_payment_deposit = w.treasury_deposit;
    assert_eq!(
        run_cash(&mut w, &ctx, &b),
        Err(Rejection::Program(StrangemoodError::DepositIsNotFoundInListing))
    );
    // a second charter, which is not the listing's
    let other_mint = key(70);
    let (other_authority, _) = find_for(Domain::Mint, &other_mint).unwrap();
    w.ledger.open_mint(&other_mint, 9, &other_authority).unwrap();
    let other_votes = key(71);
    w.ledger.open_token(&other_votes, &other_mint, &key(72)).unwrap();
    let (other_charter, bump) = find_for(Domain::Charter, &other_mint).unwrap();
    init_charter(
        &mut w.ledger,
        &InitCharter {
            charter: other_charter,
            mint: other_mint,
            authority: key(72),
            vote_deposit: other_votes,
            user: key(72),
        },
        bump,
        1,
        0,
        1,
        1,
        1,
        1,
        String::new(),
    )
    .unwrap();
    let mut ctx = good;
    ctx.charter = other_charter;
    assert_eq!(
        run_cash(&mut w, &ctx, &b),
        Err(Rejection::Program(StrangemoodError::UnauthorizedCharter))
    );
    let mut ctx = good;
    ctx.charter_mint = other_mint;
    assert_eq!(
        run_cash(&mut w, &ctx, &b),
        Err(Rejection::Program(StrangemoodError::MintIsNotFoundInCharter))
    );
    // the first check that fails decides
    let mut ctx = good;
    ctx.cashier = key(60);
    ctx.charter_vote_deposit = other_votes;
    assert_eq!(
        run_cash(&mut w, &ctx, &b),
        Err(Rejection::Program(StrangemoodError::OnlyCashableByTheCashier))
    );
    assert_eq!(balances(&w, &b), before);
    assert_eq!(run_cash(&mut w, &good, &b), Ok(()));
}

#[test]
fn cash_constraints() {
    let mut w = world(300, false, false);
    let b = buy(&mut w, 1, key(30), 1);
    let other = buy(&mut w, 2, key(31), 1);
    let good = cash_accounts(&w, &b);
    let before = balances(&w, &b);

    // the escrow of another purchase
    let mut ctx = good;
    ctx.escrow = other.escrow;
    ctx.escrow_authority = other.escrow_authority;
    let r = cash(&mut w.ledger, &ctx, w.listing_mint_bump, w.charter_mint_bump, other.escrow_bump);
    assert_eq!(r, Err(Rejection::Constraint(ConstraintError::Receipt)));
    assert_eq!(r.unwrap_err().kind(), ErrorKind::StateGateViolation);

    // a treasury deposit that is not the treasury's
    let mut ctx = good;
    ctx.charter_treasury_deposit = w.wallet;
    let r = run_cash(&mut w, &ctx, &b);
    assert_eq!(r, Err(Rejection::Constraint(ConstraintError::Treasury)));
    assert_eq!(r.unwrap_err().kind(), ErrorKind::CrossReferenceMismatch);

    // a treasury of the same charter in another currency
    let other_currency = key(80);
    w.ledger.open_mint(&other_currency, 6, &key(81)).unwrap();
    let other_deposit = key(82);
    w.ledger.open_token(&other_deposit, &other_currency, &w.charter_authority).unwrap();
    let (other_treasury, bump) = treasury_address(&w.charter, &other_currency).unwrap();
    init_charter_treasury(
        &mut w.ledger,
        &InitCharterTreasury {
            treasury: other_treasury,
            charter: w.charter,
            deposit: other_deposit,
            mint: other_currency,
            authority: w.charter_authority,
        },
        bump,
        1,
        0,
    )
    .unwrap();
    let mut ctx = good;
    ctx.charter_treasury = other_treasury;
    ctx.charter_treasury_deposit = other_deposit;
    let r = run_cash(&mut w, &ctx, &b);
    assert_eq!(r, Err(Rejection::Constraint(ConstraintError::Currency)));
    assert_eq!(r.unwrap_err().kind(), ErrorKind::ConfigurationMismatch);

    // a bump seed that derives another authority, or none
    let wrong = w.listing_mint_bump.wrapping_sub(1);
    let r = cash(&mut w.ledger, &good, wrong, w.charter_mint_bump, b.escrow_bump);
    assert_eq!(r, Err(Rejection::Constraint(ConstraintError::Seeds)));
    assert_eq!(r.unwrap_err().kind(), ErrorKind::AuthorizationFailure);
    let r = cash(&mut w.ledger, &good, w.listing_mint_bump, w.charter_mint_bump.wrapping_sub(1), b.escrow_bump);
    assert_eq!(r, Err(Rejection::Constraint(ConstraintError::Seeds)));
    let r = cash(&mut w.ledger, &good, w.listing_mint_bump, w.charter_mint_bump, b.escrow_bump.wrapping_sub(1));
    assert_eq!(r, Err(Rejection::Constraint(ConstraintError::Seeds)));
    // an authority that is not the derived one
    let mut ctx = good;
    ctx.escrow_authority = w.buyer;
    assert_eq!(run_cash(&mut w, &ctx, &b), Err(Rejection::Constraint(ConstraintError::Seeds)));

    assert_eq!(balances(&w, &b), before);
    assert_eq!(run_cash(&mut w, &good, &b), Ok(()));
}

#[test]
fn cash_with_given_derivations() {
    let mut w = world(300, false, false);
    let b = buy(&mut w, 1, key(30), 1);
    let ctx = cash_accounts(&w, &b);
    let none = Derived {
        record: None,
        listing_mint_authority: None,
        charter_mint_authority: None,
        escrow_authority: None,
    };
    assert_eq!(
        cash_with(&mut w.ledger, &ctx, &none),
        Err(Rejection::Constraint(ConstraintError::Seeds))
    );
    let derived = Derived {
        record: None,
        listing_mint_authority: Some(w.listing_mint_authority),
        charter_mint_authority: Some(w.charter_mint_authority),
        escrow_authority: Some(b.escrow_authority),
    };
    assert_eq!(cash_with(&mut w.ledger, &ctx, &derived), Ok(()));
    assert_eq!(tokens(&w, &w.seller_payment_deposit), 270);
}

#[test]
fn cash_is_all_or_nothing() {
    // the community's vote deposit cannot take the governance tokens: the
    // last minting fails after the payment has been released on the working copy
    let mut w = world(300, false, false);
    let b = buy(&mut w, 1, key(30), 1);
    w.ledger
        .mint_to(&w.charter_mint, &w.charter_vote_deposit, &w.charter_mint_authority, u64::MAX - 40)
        .unwrap();
    let before = balances(&w, &b);
    let ctx = cash_accounts(&w, &b);
    assert_eq!(run_cash(&mut w, &ctx, &b), Err(Rejection::Ledger(LedgerError::Overflow)));
    assert_eq!(balances(&w, &b), before);
    assert_eq!(tokens(&w, &w.seller_payment_deposit), 0);
    assert_eq!(tokens(&w, &w.claims), 0);
    assert!(w.ledger.receipt(&b.receipt).is_some());
    assert_eq!(tokens(&w, &w.seller_vote_deposit), 0);
    assert_eq!(Rejection::Ledger(LedgerError::Overflow).kind(), ErrorKind::LedgerLimit);
}

#[test]
fn cancel_of_a_refundable_purchase_undoes_it() {
    let mut w = world(100, true, false);
    let claims_before = tokens(&w, &w.claims);
    let supply_before = supply(&w, &w.listing_mint);
    let wallet_before = tokens(&w, &w.wallet);
    let b = buy(&mut w, 1, key(30), 3);
    assert_eq!(tokens(&w, &w.claims), claims_before + 3);
    assert_eq!(tokens(&w, &w.wallet), wallet_before - 300);
    let ctx = cancel_accounts(&w, &b);
    assert_eq!(run_cancel(&mut w, &ctx, &b), Ok(()));
    assert_eq!(tokens(&w, &w.claims), claims_before);
    assert_eq!(supply(&w, &w.listing_mint), supply_before);
    assert_eq!(tokens(&w, &w.wallet), wallet_before);
    assert_eq!(w.ledger.receipt(&b.receipt), None);
    assert_eq!(w.ledger.data(&b.receipt), AccountData::Empty);
    assert_eq!(w.ledger.token_account(&b.escrow), None);
    assert_eq!(w.ledger.data(&b.escrow), AccountData::Empty);
    // both storage deposits go to the purchaser
    assert_eq!(w.ledger.lamports(&w.buyer), 7000);
    assert_eq!(w.ledger.lamports(&b.receipt), 0);
    assert_eq!(w.ledger.lamports(&b.escrow), 0);
    // nothing went to seller or treasury
    assert_eq!(tokens(&w, &w.seller_payment_deposit), 0);
    assert_eq!(tokens(&w, &w.treasury_deposit), 0);
}

#[test]
fn cancel_of_a_plain_purchase_returns_the_payment() {
    let mut w = world(100, false, false);
    let b = buy(&mut w, 1, key(30), 3);
    let ctx = cancel_accounts(&w, &b);
    assert_eq!(run_cancel(&mut w, &ctx, &b), Ok(()));
    assert_eq!(tokens(&w, &w.wallet), 10_000);
    assert_eq!(tokens(&w, &w.claims), 0);
    assert_eq!(w.ledger.receipt(&b.receipt), None);
    assert_eq!(w.ledger.token_account(&b.escrow), None);
    // a cancelled purchase can be neither settled nor cancelled again
    assert_eq!(
        run_cancel(&mut w, &ctx, &b),
        Err(Rejection::Ledger(LedgerError::AccountNotFound))
    );
    let ctx = cash_accounts(&w, &b);
    assert_eq!(
        run_cash(&mut w, &ctx, &b),
        Err(Rejection::Ledger(LedgerError::AccountNotFound))
    );
}

#[test]
fn cancel_is_for_the_purchaser_only() {
    let mut w = world(100, true, false);
    let b = buy(&mut w, 1, key(30), 3);
    let before = balances(&w, &b);
    let mut ctx = cancel_accounts(&w, &b);
    ctx.purchaser = w.seller;
    let r = run_cancel(&mut w, &ctx, &b);
    assert_eq!(r, Err(Rejection::Constraint(ConstraintError::Receipt)));
    assert_eq!(r.unwrap_err().kind(), ErrorKind::StateGateViolation);
    let mut ctx = cancel_accounts(&w, &b);
    ctx.listing_token_account = w.wallet;
    assert_eq!(run_cancel(&mut w, &ctx, &b), Err(Rejection::Constraint(ConstraintError::Receipt)));
    let ctx = cancel_accounts(&w, &b);
    let r = cancel(&mut w.ledger, &ctx, w.listing_bump.wrapping_sub(1), w.listing_mint_bump, b.escrow_bump);
    assert_eq!(r, Err(Rejection::Constraint(ConstraintError::Seeds)));
    let none = Derived {
        record: Some(w.listing),
        listing_mint_authority: Some(w.listing_mint_authority),
        charter_mint_authority: None,
        escrow_authority: None,
    };
    assert_eq!(
        cancel_with(&mut w.ledger, &ctx, &none),
        Err(Rejection::Constraint(ConstraintError::Seeds))
    );
    assert_eq!(balances(&w, &b), before);
    assert_eq!(run_cancel(&mut w, &ctx, &b), Ok(()));
}

#[test]
fn consume_of_a_listing_that_is_not_consumable_is_turned_down() {
    let mut w = world(100, true, false);
    let b = buy(&mut w, 1, key(30), 3);
    let before = balances(&w, &b);
    let ctx = consume_accounts(&w);
    let r = consume(&mut w.ledger, &ctx, w.listing_bump, w.listing_mint_bump, 1);
    assert_eq!(r, Err(Rejection::Program(StrangemoodError::ListingIsNotConsumable)));
    assert_eq!(r.unwrap_err().kind(), ErrorKind::StateGateViolation);
    assert_eq!(balances(&w, &b), before);
    assert_eq!(tokens(&w, &w.claims), 3);
    assert_eq!(supply(&w, &w.listing_mint), 3);
}

#[test]
fn consume_burns_claim_tokens() {
    let mut w = world(100, true, true);
    let b = buy(&mut w, 1, key(30), 3);
    let ctx = consume_accounts(&w);
    assert_eq!(consume(&mut w.ledger, &ctx, w.listing_bump, w.listing_mint_bump, 2), Ok(()));
    assert_eq!(tokens(&w, &w.claims), 1);
    assert_eq!(supply(&w, &w.listing_mint), 1);
    // the receipt is not touched, and consumption can be repeated
    assert!(w.ledger.receipt(&b.receipt).is_some());
    assert_eq!(consume(&mut w.ledger, &ctx, w.listing_bump, w.listing_mint_bump, 1), Ok(()));
    assert_eq!(tokens(&w, &w.claims), 0);
    assert_eq!(
        consume(&mut w.ledger, &ctx, w.listing_bump, w.listing_mint_bump, 1),
        Err(Rejection::Ledger(LedgerError::InsufficientFunds))
    );
}

#[test]
fn consume_is_for_the_listing_authority_only() {
    let mut w = world(100, true, true);
    buy(&mut w, 1, key(30), 3);
    let mut ctx = consume_accounts(&w);
    ctx.authority = w.buyer;
    let r = consume(&mut w.ledger, &ctx, w.listing_bump, w.listing_mint_bump, 1);
    assert_eq!(r, Err(Rejection::Program(StrangemoodError::UnauthorizedAuthority)));
    assert_eq!(r.unwrap_err().kind(), ErrorKind::AuthorizationFailure);
    let mut ctx = consume_accounts(&w);
    ctx.mint = w.charter_mint;
    let r = consume(&mut w.ledger, &ctx, w.listing_bump, w.listing_mint_bump, 1);
    assert_eq!(r, Err(Rejection::Program(StrangemoodError::UnexpectedListingMint)));
    let ctx = consume_accounts(&w);
    let r = consume(&mut w.ledger, &ctx, w.listing_bump, w.listing_mint_bump.wrapping_sub(1), 1);
    assert_eq!(r, Err(Rejection::Constraint(ConstraintError::Seeds)));
    assert_eq!(tokens(&w, &w.claims), 3);
}

#[test]
fn set_receipt_cashable_is_for_the_listing_authority_only() {
    let mut w = world(100, true, false);
    let b = buy(&mut w, 1, key(30), 1);
    let r = set_receipt_cashable(
        &mut w.ledger,
        &SetReceiptCashable { listing: w.listing, receipt: b.receipt, authority: w.buyer },
    );
    assert_eq!(r, Err(Rejection::Program(StrangemoodError::UnauthorizedAuthority)));
    assert!(!w.ledger.receipt(&b.receipt).unwrap().is_cashable);
    let r = set_receipt_cashable(
        &mut w.ledger,
        &SetReceiptCashable { listing: w.listing, receipt: w.wallet, authority: w.seller },
    );
    assert_eq!(r, Err(Rejection::Ledger(LedgerError::AccountNotFound)));
}

#[test]
fn purchase_of_an_unavailable_listing_is_turned_down() {
    let mut w = world(100, false, false);
    strangemood::listing::set_listing_availability(
        &mut w.ledger,
        &SetListing { listing: w.listing, user: w.seller },
        false,
    )
    .unwrap();
    let (ctx, b) = purchase_accounts(&w, 1, key(30));
    let r = purchase(&mut w.ledger, &ctx, 1, 0, w.listing_mint_bump, b.escrow_bump, 1);
    assert_eq!(r, Err(Rejection::Program(StrangemoodError::ListingUnavailable)));
    assert_eq!(r.unwrap_err().kind(), ErrorKind::StateGateViolation);
    assert_eq!(w.ledger.receipt(&b.receipt), None);
    assert_eq!(tokens(&w, &w.wallet), 10_000);
}

#[test]
fn purchase_checks() {
    let mut w = world(100, true, false);
    let (good, b) = purchase_accounts(&w, 1, key(30));

    let mut ctx = good;
    ctx.listing_mint = w.charter_mint;
    let r = purchase(&mut w.ledger, &ctx, 1, 0, w.listing_mint_bump, b.escrow_bump, 1);
    assert_eq!(r, Err(Rejection::Program(StrangemoodError::UnexpectedListingMint)));

    let mut ctx = good;
    ctx.listing_payment_deposit = w.treasury_deposit;
    let r = purchase(&mut w.ledger, &ctx, 1, 0, w.listing_mint_bump, b.escrow_bump, 1);
    assert_eq!(r, Err(Rejection::Program(StrangemoodError::DepositIsNotFoundInListing)));

    let mut ctx = good;
    ctx.listing_payment_deposit_mint = w.charter_mint;
    let r = purchase(&mut w.ledger, &ctx, 1, 0, w.listing_mint_bump, b.escrow_bump, 1);
    assert_eq!(r, Err(Rejection::Constraint(ConstraintError::Currency)));

    // the receipt must be at the address of its nonce
    let r = purchase(&mut w.ledger, &good, 2, 0, w.listing_mint_bump, b.escrow_bump, 1);
    assert_eq!(r, Err(Rejection::Constraint(ConstraintError::Seeds)));
    let r = purchase(&mut w.ledger, &good, 1, 0, w.listing_mint_bump.wrapping_sub(1), b.escrow_bump, 1);
    assert_eq!(r, Err(Rejection::Constraint(ConstraintError::Seeds)));

    let mut ctx = good;
    ctx.listing = w.wallet;
    let r = purchase(&mut w.ledger, &ctx, 1, 0, w.listing_mint_bump, b.escrow_bump, 1);
    assert_eq!(r, Err(Rejection::Ledger(LedgerError::AccountNotFound)));

    assert_eq!(w.ledger.receipt(&b.receipt), None);
    assert_eq!(w.ledger.token_account(&b.escrow), None);
    assert_eq!(tokens(&w, &w.wallet), 10_000);
    assert_eq!(tokens(&w, &w.claims), 0);
}

#[test]
fn purchase_is_all_or_nothing() {
    let mut w = world(100, true, false);
    let (ctx, b) = purchase_accounts(&w, 1, key(30));
    // more than the buyer holds: the receipt and the escrow were opened on the working copy only
    let r = purchase(&mut w.ledger, &ctx, 1, 0, w.listing_mint_bump, b.escrow_bump, 101);
    assert_eq!(r, Err(Rejection::Ledger(LedgerError::InsufficientFunds)));
    assert_eq!(r.unwrap_err().kind(), ErrorKind::LedgerLimit);
    assert_eq!(w.ledger.receipt(&b.receipt), None);
    assert_eq!(w.ledger.data(&b.receipt), AccountData::Empty);
    assert_eq!(w.ledger.data(&b.escrow), AccountData::Empty);
    assert_eq!(tokens(&w, &w.wallet), 10_000);
    assert_eq!(tokens(&w, &w.claims), 0);
    assert_eq!(supply(&w, &w.listing_mint), 0);
    // units times price must fit in 64 bits
    set_listing_price(&mut w.ledger, &SetListing { listing: w.listing, user: w.seller }, u64::MAX).unwrap();
    let r = purchase(&mut w.ledger, &ctx, 1, 0, w.listing_mint_bump, b.escrow_bump, 2);
    assert_eq!(r, Err(Rejection::Ledger(LedgerError::Overflow)));
    assert_eq!(w.ledger.data(&b.receipt), AccountData::Empty);
    // somebody else's wallet
    set_listing_price(&mut w.ledger, &SetListing { listing: w.listing, user: w.seller }, 1).unwrap();
    let mut theft = ctx;
    theft.user = w.seller;
    let r = purchase(&mut w.ledger, &theft, 1, 0, w.listing_mint_bump, b.escrow_bump, 2);
    assert_eq!(r, Err(Rejection::Ledger(LedgerError::InvalidAuthority)));
    assert_eq!(r.unwrap_err().kind(), ErrorKind::AuthorizationFailure);
    assert_eq!(tokens(&w, &w.wallet), 10_000);
}

#[test]
fn purchase_needs_a_fresh_receipt_and_escrow() {
    let mut w = world(100, false, false);
    let first = buy(&mut w, 1, key(30), 1);
    let (ctx, b) = purchase_accounts(&w, 1, key(31));
    let r = purchase(&mut w.ledger, &ctx, 1, 0, w.listing_mint_bump, b.escrow_bump, 1);
    assert_eq!(r, Err(Rejection::Ledger(LedgerError::AccountInUse)));
    let (ctx, b) = purchase_accounts(&w, 2, first.escrow);
    let r = purchase(&mut w.ledger, &ctx, 2, 0, w.listing_mint_bump, b.escrow_bump, 1);
    assert_eq!(r, Err(Rejection::Ledger(LedgerError::AccountInUse)));
    assert_eq!(w.ledger.receipt(&b.receipt), None);
    assert_eq!(tokens(&w, &first.escrow), 100);
    assert_eq!(tokens(&w, &w.wallet), 9_900);
}

#[test]
fn purchase_with_given_derivations() {
    let mut w = world(100, false, false);
    let (ctx, b) = purchase_accounts(&w, 7, key(30));
    let derived = Derived {
        record: Some(b.receipt),
        listing_mint_authority: Some(w.listing_mint_authority),
        charter_mint_authority: None,
        escrow_authority: Some(b.escrow_authority),
    };
    assert_eq!(purchase_with(&mut w.ledger, &ctx, b.nonce, 2, &derived), Ok(()));
    assert_eq!(tokens(&w, &b.escrow), 200);
    let (ctx, b) = purchase_accounts(&w, 8, key(31));
    let derived = Derived { record: Some(key(99)), ..derived };
    assert_eq!(
        purchase_with(&mut w.ledger, &ctx, b.nonce, 2, &derived),
        Err(Rejection::Constraint(ConstraintError::Seeds))
    );
}

#[test]
fn two_purchases_of_one_listing_are_settled_apart() {
    let mut w = world(300, false, false);
    let first = buy(&mut w, 1, key(30), 1);
    let second = buy(&mut w, 2, key(31), 1);
    let ctx = cash_accounts(&w, &first);
    assert_eq!(run_cash(&mut w, &ctx, &first), Ok(()));
    assert!(w.ledger.receipt(&second.receipt).is_some());
    assert_eq!(tokens(&w, &second.escrow), 300);
    let ctx = cancel_accounts(&w, &second);
    assert_eq!(run_cancel(&mut w, &ctx, &second), Ok(()));
    assert_eq!(tokens(&w, &w.seller_payment_deposit), 270);
    assert_eq!(tokens(&w, &w.treasury_deposit), 30);
    assert_eq!(tokens(&w, &w.wallet), 9_700);
}

#[test]
fn spare_authorities_of_the_world_are_distinct() {
    let w = world(1, false, false);
    assert_ne!(w.payment_mint_authority, w.charter_mint_authority);
    assert_ne!(w.listing_mint_authority, w.charter_mint_authority);
}

#[test]
fn total_is_units_times_price() {
    assert_eq!(total(3, 100), Ok(300));
    assert_eq!(total(0, u64::MAX), Ok(0));
    assert_eq!(total(1, u64::MAX), Ok(u64::MAX));
    assert_eq!(total(u64::MAX, 1), Ok(u64::MAX));
    assert_eq!(total(2, u64::MAX), Err(Rejection::Ledger(LedgerError::Overflow)));
    assert_eq!(total(4_294_967_296, 4_294_967_296), Err(Rejection::Ledger(LedgerError::Overflow)));
    assert_eq!(total(4_294_967_295, 4_294_967_297), Ok(u64::MAX));
}

#[test]
fn settlement_refuses_votes_beyond_64_bits() {
    let mut w = world(100, false, false);
    strangemood::charter::set_charter_expansion_rate(
        &mut w.ledger,
        &strangemood::accounts::SetCharter { charter: w.charter, user: w.charter_authority },
        u64::MAX,
        0,
    )
    .unwrap();
    let charter = w.ledger.charter(&w.charter).unwrap();
    let treasury = w.ledger.treasury(&w.treasury).unwrap();
    assert_eq!(settlement(100, &charter, &treasury), None);
    // of a payment of 9 one unit is contributed, and even that earns too much
    assert_eq!(settlement(9, &charter, &treasury), None);
    assert_eq!(
        settlement(0, &charter, &treasury),
        Some(Settlement {
            deposit_amount: 0,
            contribution_amount: 0,
            vote_deposit_amount: 0,
            vote_contribution_amount: 0,
        })
    );
    let b = buy(&mut w, 1, key(30), 1);
    let before = balances(&w, &b);
    let ctx = cash_accounts(&w, &b);
    assert_eq!(run_cash(&mut w, &ctx, &b), Err(Rejection::Ledger(LedgerError::Overflow)));
    assert_eq!(balances(&w, &b), before);
}
