use crate::accounts::{Derived, Purchase};
use crate::authority::{is_derived, receipt_address, receipt_seeds, resolve, spec_find, spec_resolve, Domain};
use crate::error::{ConstraintError, LedgerError, Rejection, StrangemoodError};
use crate::ledger::{
    listing_at, mint_at, outcome, spec_open, spec_open_token, spec_transfer, token_at,
    AccountData, Ledger, State, TokenAccount,
};
use crate::operations::{mint_and_freeze, spec_mint_to_and_freeze};
use crate::records::{Listing, Receipt};
use crate::transition::{ledger_step, tried};
use vstd::prelude::*;

verus! {

/// Why a purchase is turned down before anything is moved, if it is. The
/// checks are made in this order, and the first that fails decides.
pub open spec fn spec_purchase_checks(
    ctx: Purchase,
    listing: Listing,
    payment_deposit: TokenAccount,
    derived: Derived,
) -> Result<(), Rejection> {
    if !listing.is_available {
        Err(Rejection::Program(StrangemoodError::ListingUnavailable))
    } else if listing.mint != ctx.listing_mint {
        Err(Rejection::Program(StrangemoodError::UnexpectedListingMint))
    } else if listing.payment_deposit != ctx.listing_payment_deposit {
        Err(Rejection::Program(StrangemoodError::DepositIsNotFoundInListing))
    } else if payment_deposit.mint != ctx.listing_payment_deposit_mint {
        Err(Rejection::Constraint(ConstraintError::Currency))
    } else if derived.record != Some(ctx.receipt) || derived.listing_mint_authority != Some(
        ctx.listing_mint_authority,
    ) || derived.escrow_authority != Some(ctx.escrow_authority) {
        Err(Rejection::Constraint(ConstraintError::Seeds))
    } else {
        Ok(())
    }
}

/// The checks of a purchase, on the listing and the deposit that it names.
pub fn purchase_checks(
    ctx: &Purchase,
    listing: &Listing,
    payment_deposit: &TokenAccount,
    derived: &Derived,
) -> (r: Result<(), Rejection>)
    ensures
        r == spec_purchase_checks(*ctx, *listing, *payment_deposit, *derived),
{
    if !listing.is_available {
        Err(Rejection::Program(StrangemoodError::ListingUnavailable))
    } else if listing.mint != ctx.listing_mint {
        Err(Rejection::Program(StrangemoodError::UnexpectedListingMint))
    } else if listing.payment_deposit != ctx.listing_payment_deposit {
        Err(Rejection::Program(StrangemoodError::DepositIsNotFoundInListing))
    } else if payment_deposit.mint != ctx.listing_payment_deposit_mint {
        Err(Rejection::Constraint(ConstraintError::Currency))
    } else if !is_derived(&ctx.receipt, &derived.record) || !is_derived(&ctx.listing_mint_authority, &derived.listing_mint_authority) || !is_derived(&ctx.escrow_authority, &derived.escrow_authority) {
        Err(Rejection::Constraint(ConstraintError::Seeds))
    } else {
        Ok(())
    }
}

/// What `amount` units cost at `price` each, where 64 bits can say it.
pub open spec fn spec_total(amount: u64, price: u64) -> Result<u64, Rejection> {
    if amount * price > u64::MAX {
        Err(Rejection::Ledger(LedgerError::Overflow))
    } else {
        Ok((amount * price) as u64)
    }
}

/// What `amount` units cost at `price` each: the sum that a purchase moves
/// into escrow. A sum that 64 bits cannot say is no purchase.
pub fn total(amount: u64, price: u64) -> (r: Result<u64, Rejection>)
    ensures
        r == spec_total(amount, price),
{
    match amount.checked_mul(price) {
        Some(total) => Ok(total),
        None => Err(Rejection::Ledger(LedgerError::Overflow)),
    }
}

/// The receipt that a purchase writes: the price is the listing's at this
/// moment, and the purchase is cashable from the start exactly where it is
/// not refundable.
pub open spec fn spec_receipt(ctx: Purchase, listing: Listing, nonce: u128, amount: u64) -> Receipt {
    Receipt {
        is_initialized: true,
        is_refundable: listing.is_refundable,
        is_cashable: !listing.is_refundable,
        listing: ctx.listing,
        listing_token_account: ctx.listing_token_account,
        purchaser: ctx.user,
        cashier: ctx.cashier,
        escrow: ctx.escrow,
        quantity: amount,
        price: listing.price,
        nonce,
    }
}

/// The receipt that a purchase writes.
pub fn new_receipt(ctx: &Purchase, listing: &Listing, nonce: u128, amount: u64) -> (r: Receipt)
    ensures
        r == spec_receipt(*ctx, *listing, nonce, amount),
{
    Receipt {
        is_initialized: true,
        is_refundable: listing.is_refundable,
        is_cashable: !listing.is_refundable,
        listing: ctx.listing,
        listing_token_account: ctx.listing_token_account,
        purchaser: ctx.user,
        cashier: ctx.cashier,
        escrow: ctx.escrow,
        quantity: amount,
        price: listing.price,
        nonce,
    }
}

/// The receipt is stored and the escrow opened, both at addresses that
/// store nothing yet; the escrow is of the payment currency and obeys its
/// own derived authority.
pub open spec fn spec_purchase_open(s: State, ctx: Purchase, receipt: Receipt) -> Result<
    State,
    LedgerError,
> {
    match spec_open(s, ctx.receipt, AccountData::Receipt(receipt)) {
        Ok(stored) => spec_open_token(
            stored,
            ctx.escrow,
            ctx.listing_payment_deposit_mint,
            ctx.escrow_authority,
        ),
        Err(e) => Err(e),
    }
}

/// The payment goes into the escrow, and a refundable purchase gets its
/// claim tokens at once, frozen.
pub open spec fn spec_purchase_pay(
    s: State,
    ctx: Purchase,
    is_refundable: bool,
    amount: u64,
    total: u64,
) -> Result<State, LedgerError> {
    match spec_transfer(s, ctx.purchase_token_account, ctx.escrow, ctx.user, total) {
        Ok(paid) => if is_refundable {
            spec_mint_to_and_freeze(
                paid,
                ctx.listing_mint,
                ctx.listing_token_account,
                ctx.listing_mint_authority,
                amount,
            )
        } else {
            Ok(paid)
        },
        Err(e) => Err(e),
    }
}

/// What a purchase that passed its checks does to the ledger, step by step;
/// the first step that the ledger refuses ends it.
pub open spec fn spec_purchase_effects(
    s: State,
    ctx: Purchase,
    receipt: Receipt,
    total: u64,
) -> Result<State, LedgerError> {
    match spec_purchase_open(s, ctx, receipt) {
        Ok(opened) => spec_purchase_pay(opened, ctx, receipt.is_refundable, receipt.quantity, total),
        Err(e) => Err(e),
    }
}

/// A purchase of `amount` units, given the addresses derived for it: the
/// ledger afterwards, or why the purchase is turned down.
pub open spec fn spec_purchase(
    s: State,
    ctx: Purchase,
    nonce: u128,
    amount: u64,
    derived: Derived,
) -> Result<State, Rejection> {
    match (listing_at(s, ctx.listing), token_at(s, ctx.listing_payment_deposit)) {
        (Some(listing), Some(payment_deposit)) => {
            if token_at(s, ctx.purchase_token_account) is None || token_at(
                s,
                ctx.listing_token_account,
            ) is None || mint_at(s, ctx.listing_mint) is None {
                Err(Rejection::Ledger(LedgerError::AccountNotFound))
            } else {
                match spec_purchase_checks(ctx, listing, payment_deposit, derived) {
                    Err(e) => Err(e),
                    Ok(()) => match spec_total(amount, listing.price) {
                        Err(e) => Err(e),
                        Ok(total) => ledger_step(
                            spec_purchase_effects(
                                s,
                                ctx,
                                spec_receipt(ctx, listing, nonce, amount),
                                total,
                            ),
                        ),
                    },
                }
            }
        },
        _ => Err(Rejection::Ledger(LedgerError::AccountNotFound)),
    }
}

fn purchase_open(work: &mut Ledger, ctx: &Purchase, receipt: Receipt) -> (r: Result<
    (),
    LedgerError,
>)
    ensures
        tried(final(work)@, r, spec_purchase_open(old(work)@, *ctx, receipt)),
{
    match work.open(&ctx.receipt, AccountData::Receipt(receipt)) {
        Ok(()) => work.open_token(
            &ctx.escrow,
            &ctx.listing_payment_deposit_mint,
            &ctx.escrow_authority,
        ),
        Err(e) => Err(e),
    }
}

fn purchase_pay(work: &mut Ledger, ctx: &Purchase, is_refundable: bool, amount: u64, total: u64) -> (r:
    Result<(), LedgerError>)
    ensures
        tried(final(work)@, r, spec_purchase_pay(old(work)@, *ctx, is_refundable, amount, total)),
{
    match work.transfer(&ctx.purchase_token_account, &ctx.escrow, &ctx.user, total) {
        Ok(()) => if is_refundable {
            mint_and_freeze(
                work,
                &ctx.listing_mint,
                &ctx.listing_token_account,
                &ctx.listing_mint_authority,
                amount,
            )
        } else {
            Ok(())
        },
        Err(e) => Err(e),
    }
}

/// Makes a purchase of `amount` units, given the addresses derived for it.
/// Either every step is carried out, or the purchase is turned down and the
/// ledger is as it was.
pub fn purchase_with(
    ledger: &mut Ledger,
    ctx: &Purchase,
    receipt_nonce: u128,
    amount: u64,
    derived: &Derived,
) -> (r: Result<(), Rejection>)
    ensures
        outcome(
            old(ledger)@,
            final(ledger)@,
            r,
            spec_purchase(old(ledger)@, *ctx, receipt_nonce, amount, *derived),
        ),
{
    let (listing, payment_deposit) = match (
        ledger.listing(&ctx.listing),
        ledger.token_account(&ctx.listing_payment_deposit),
    ) {
        (Some(listing), Some(payment_deposit)) => (listing, payment_deposit),
        _ => { return Err(Rejection::Ledger(LedgerError::AccountNotFound)); },
    };
    if ledger.token_account(&ctx.purchase_token_account).is_none() || ledger.token_account(
        &ctx.listing_token_account,
    ).is_none() || ledger.mint(&ctx.listing_mint).is_none() {
        return Err(Rejection::Ledger(LedgerError::AccountNotFound));
    }
    match purchase_checks(ctx, &listing, &payment_deposit, derived) {
        Ok(()) => {},
        Err(e) => { return Err(e); },
    }
    let total = match total(amount, listing.price) {
        Ok(total) => total,
        Err(e) => { return Err(e); },
    };
    let receipt = new_receipt(ctx, &listing, receipt_nonce, amount);
    let mut work = ledger.snapshot();
    match purchase_open(&mut work, ctx, receipt) {
        Ok(()) => {},
        Err(e) => { return Err(Rejection::Ledger(e)); },
    }
    match purchase_pay(&mut work, ctx, receipt.is_refundable, amount, total) {
        Ok(()) => {
            *ledger = work;
            Ok(())
        },
        Err(e) => Err(Rejection::Ledger(e)),
    }
}

/// The addresses that a purchase derives: the receipt's from its nonce, the
/// two authorities from their bump seeds.
pub open spec fn spec_purchase_derived(
    ctx: Purchase,
    receipt_nonce: u128,
    listing_mint_bump: u8,
    escrow_authority_bump: u8,
) -> Derived {
    Derived {
        record: match spec_find(receipt_seeds(receipt_nonce)) {
            Some((a, _)) => Some(a),
            None => None,
        },
        listing_mint_authority: spec_resolve(Domain::Mint, ctx.listing_mint, listing_mint_bump),
        charter_mint_authority: None,
        escrow_authority: spec_resolve(Domain::Escrow, ctx.escrow, escrow_authority_bump),
    }
}

/// Derives the addresses that a purchase needs: the receipt's from its
/// nonce, the two authorities from their bump seeds.
pub fn purchase_derived(
    ctx: &Purchase,
    receipt_nonce: u128,
    listing_mint_bump: u8,
    escrow_authority_bump: u8,
) -> (d: Derived)
    ensures
        d == spec_purchase_derived(*ctx, receipt_nonce, listing_mint_bump, escrow_authority_bump),
{
    Derived {
        record: match receipt_address(receipt_nonce) {
            Some((a, _)) => Some(a),
            None => None,
        },
        listing_mint_authority: resolve(Domain::Mint, &ctx.listing_mint, listing_mint_bump),
        charter_mint_authority: None,
        escrow_authority: resolve(Domain::Escrow, &ctx.escrow, escrow_authority_bump),
    }
}

/// Receipt State Machine, the purchase, and the only way in which a receipt
/// comes to be. The listing must be for sale. `amount` times the listing's
/// price goes from the purchaser into a new escrow; a refundable purchase
/// gets its claim tokens at once, frozen; the receipt is written. The
/// receipt's bump seed is not used: its address is the canonical one of the
/// nonce. Either all of it happens, or the purchase is turned down and the
/// ledger is as it was.
pub fn purchase(
    ledger: &mut Ledger,
    ctx: &Purchase,
    receipt_nonce: u128,
    _receipt_bump: u8,
    listing_mint_bump: u8,
    escrow_authority_bump: u8,
    amount: u64,
) -> (r: Result<(), Rejection>)
    ensures
        outcome(
            old(ledger)@,
            final(ledger)@,
            r,
            spec_purchase(
                old(ledger)@,
                *ctx,
                receipt_nonce,
                amount,
                spec_purchase_derived(
                    *ctx,
                    receipt_nonce,
                    listing_mint_bump,
                    escrow_authority_bump,
                ),
            ),
        ),
{
    let derived = purchase_derived(ctx, receipt_nonce, listing_mint_bump, escrow_authority_bump);
    purchase_with(ledger, ctx, receipt_nonce, amount, &derived)
}

} // verus!
