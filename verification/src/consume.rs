use crate::accounts::{Consume, Derived, SetReceiptCashable};
use crate::authority::{is_derived, resolve, spec_resolve, Domain};
use crate::error::{ConstraintError, LedgerError, Rejection, StrangemoodError};
use crate::ledger::{
    listing_at, outcome, receipt_at, spec_burn, with_data, AccountData, Ledger, State,
};
use crate::records::{Listing, Receipt};
use crate::transition::{ledger_step, refused};
use vstd::prelude::*;

verus! {

/// Why a consumption is turned down before anything is burnt, if it is. The
/// checks are made in this order, and the first that fails decides.
pub open spec fn spec_consume_checks(ctx: Consume, listing: Listing, derived: Derived) -> Result<
    (),
    Rejection,
> {
    if ctx.authority != listing.authority {
        Err(Rejection::Program(StrangemoodError::UnauthorizedAuthority))
    } else if !listing.is_consumable {
        Err(Rejection::Program(StrangemoodError::ListingIsNotConsumable))
    } else if listing.mint != ctx.mint {
        Err(Rejection::Program(StrangemoodError::UnexpectedListingMint))
    } else if derived.record != Some(ctx.listing) || derived.listing_mint_authority != Some(
        ctx.mint_authority,
    ) {
        Err(Rejection::Constraint(ConstraintError::Seeds))
    } else {
        Ok(())
    }
}

/// The checks of a consumption, on the listing that it names.
pub fn consume_checks(ctx: &Consume, listing: &Listing, derived: &Derived) -> (r: Result<
    (),
    Rejection,
>)
    ensures
        r == spec_consume_checks(*ctx, *listing, *derived),
{
    if ctx.authority != listing.authority {
        Err(Rejection::Program(StrangemoodError::UnauthorizedAuthority))
    } else if !listing.is_consumable {
        Err(Rejection::Program(StrangemoodError::ListingIsNotConsumable))
    } else if listing.mint != ctx.mint {
        Err(Rejection::Program(StrangemoodError::UnexpectedListingMint))
    } else if !is_derived(&ctx.listing, &derived.record) || !is_derived(&ctx.mint_authority, &derived.listing_mint_authority) {
        Err(Rejection::Constraint(ConstraintError::Seeds))
    } else {
        Ok(())
    }
}

/// The consumption of `amount` claim tokens of a holder, given the addresses
/// derived for it: the ledger afterwards, or why the consumption is turned
/// down.
pub open spec fn spec_consume(s: State, ctx: Consume, amount: u64, derived: Derived) -> Result<
    State,
    Rejection,
> {
    match listing_at(s, ctx.listing) {
        Some(listing) => match spec_consume_checks(ctx, listing, derived) {
            Err(e) => Err(e),
            Ok(()) => ledger_step(
                spec_burn(s, ctx.mint, ctx.listing_token_account, ctx.mint_authority, amount),
            ),
        },
        None => Err(Rejection::Ledger(LedgerError::AccountNotFound)),
    }
}

/// Consumes `amount` claim tokens of a holder, given the addresses derived
/// for it. A consumption that is turned down leaves the ledger as it was.
pub fn consume_with(ledger: &mut Ledger, ctx: &Consume, amount: u64, derived: &Derived) -> (r:
    Result<(), Rejection>)
    ensures
        outcome(
            old(ledger)@,
            final(ledger)@,
            r,
            spec_consume(old(ledger)@, *ctx, amount, *derived),
        ),
{
    let listing = match ledger.listing(&ctx.listing) {
        Some(listing) => listing,
        None => { return Err(Rejection::Ledger(LedgerError::AccountNotFound)); },
    };
    match consume_checks(ctx, &listing, derived) {
        Ok(()) => {},
        Err(e) => { return Err(e); },
    }
    refused(ledger.burn(&ctx.mint, &ctx.listing_token_account, &ctx.mint_authority, amount))
}

/// The addresses that a consumption derives from its bump seeds.
pub open spec fn spec_consume_derived(ctx: Consume, listing_bump: u8, listing_mint_bump: u8) -> Derived {
    Derived {
        record: spec_resolve(Domain::Listing, ctx.mint, listing_bump),
        listing_mint_authority: spec_resolve(Domain::Mint, ctx.mint, listing_mint_bump),
        charter_mint_authority: None,
        escrow_authority: None,
    }
}

/// Derives the addresses that a consumption needs from its bump seeds.
pub fn consume_derived(ctx: &Consume, listing_bump: u8, listing_mint_bump: u8) -> (d: Derived)
    ensures
        d == spec_consume_derived(*ctx, listing_bump, listing_mint_bump),
{
    Derived {
        record: resolve(Domain::Listing, &ctx.mint, listing_bump),
        listing_mint_authority: resolve(Domain::Mint, &ctx.mint, listing_mint_bump),
        charter_mint_authority: None,
        escrow_authority: None,
    }
}

/// Receipt State Machine, the consumption. Only the listing's authority may
/// consume, and only claims of a consumable listing. `amount` claim tokens
/// are burnt from the holder's account, whatever the state of any receipt. A
/// consumption that is turned down leaves the ledger as it was.
pub fn consume(
    ledger: &mut Ledger,
    ctx: &Consume,
    listing_bump: u8,
    listing_mint_bump: u8,
    amount: u64,
) -> (r: Result<(), Rejection>)
    ensures
        outcome(
            old(ledger)@,
            final(ledger)@,
            r,
            spec_consume(
                old(ledger)@,
                *ctx,
                amount,
                spec_consume_derived(*ctx, listing_bump, listing_mint_bump),
            ),
        ),
{
    let derived = consume_derived(ctx, listing_bump, listing_mint_bump);
    consume_with(ledger, ctx, amount, &derived)
}

/// Why the override is turned down, if it is.
pub open spec fn spec_set_receipt_cashable_checks(
    ctx: SetReceiptCashable,
    listing: Listing,
    receipt: Receipt,
) -> Result<(), Rejection> {
    if ctx.authority != listing.authority {
        Err(Rejection::Program(StrangemoodError::UnauthorizedAuthority))
    } else if receipt.listing != ctx.listing {
        Err(Rejection::Constraint(ConstraintError::Receipt))
    } else {
        Ok(())
    }
}

/// The override: the ledger afterwards, in which the receipt is cashable and
/// nothing else has changed, or why the override is turned down.
pub open spec fn spec_set_receipt_cashable(s: State, ctx: SetReceiptCashable) -> Result<
    State,
    Rejection,
> {
    match (listing_at(s, ctx.listing), receipt_at(s, ctx.receipt)) {
        (Some(listing), Some(receipt)) => match spec_set_receipt_cashable_checks(
            ctx,
            listing,
            receipt,
        ) {
            Err(e) => Err(e),
            Ok(()) => Ok(
                with_data(
                    s,
                    ctx.receipt,
                    AccountData::Receipt(Receipt { is_cashable: true, ..receipt }),
                ),
            ),
        },
        _ => Err(Rejection::Ledger(LedgerError::AccountNotFound)),
    }
}

/// The checks of the override, on the records that it names.
pub fn set_receipt_cashable_checks(ctx: &SetReceiptCashable, listing: &Listing, receipt: &Receipt) -> (r:
    Result<(), Rejection>)
    ensures
        r == spec_set_receipt_cashable_checks(*ctx, *listing, *receipt),
{
    if ctx.authority != listing.authority {
        Err(Rejection::Program(StrangemoodError::UnauthorizedAuthority))
    } else if receipt.listing != ctx.listing {
        Err(Rejection::Constraint(ConstraintError::Receipt))
    } else {
        Ok(())
    }
}

/// Receipt State Machine, the override. Only the listing's authority may
/// use it. The receipt becomes cashable, whether it is refundable or not;
/// nothing undoes this.
pub fn set_receipt_cashable(ledger: &mut Ledger, ctx: &SetReceiptCashable) -> (r: Result<
    (),
    Rejection,
>)
    ensures
        outcome(old(ledger)@, final(ledger)@, r, spec_set_receipt_cashable(old(ledger)@, *ctx)),
{
    let (listing, receipt) = match (ledger.listing(&ctx.listing), ledger.receipt(&ctx.receipt)) {
        (Some(listing), Some(receipt)) => (listing, receipt),
        _ => { return Err(Rejection::Ledger(LedgerError::AccountNotFound)); },
    };
    match set_receipt_cashable_checks(ctx, &listing, &receipt) {
        Ok(()) => {},
        Err(e) => { return Err(e); },
    }
    ledger.set_data(ctx.receipt, AccountData::Receipt(Receipt { is_cashable: true, ..receipt }));
    Ok(())
}

} // verus!
