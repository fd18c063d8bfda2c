use crate::accounts::{Cancel, Derived};
use crate::authority::{is_derived, resolve, spec_resolve, Domain};
use crate::error::{ConstraintError, LedgerError, Rejection};
use crate::ledger::{
    listing_at, outcome, receipt_at, spec_burn, spec_close_native, spec_close_token,
    spec_transfer, token_at, Ledger, State,
};
use crate::records::Receipt;
use crate::transition::{ledger_step, tried};
use vstd::prelude::*;

verus! {

/// Why a cancellation is turned down before anything is moved, if it is:
/// the receipt must name the listing, the claim-token account, the escrow
/// and, as its purchaser, the caller; the listing's address and the two
/// authorities must be the derived ones.
pub open spec fn spec_cancel_checks(ctx: Cancel, receipt: Receipt, derived: Derived) -> Result<
    (),
    Rejection,
> {
    if receipt.listing != ctx.listing || receipt.listing_token_account != ctx.listing_token_account
        || receipt.purchaser != ctx.purchaser || receipt.escrow != ctx.escrow {
        Err(Rejection::Constraint(ConstraintError::Receipt))
    } else if derived.record != Some(ctx.listing) || derived.listing_mint_authority != Some(
        ctx.listing_mint_authority,
    ) || derived.escrow_authority != Some(ctx.escrow_authority) {
        Err(Rejection::Constraint(ConstraintError::Seeds))
    } else {
        Ok(())
    }
}

/// The checks of a cancellation, on the receipt that it names.
pub fn cancel_checks(ctx: &Cancel, receipt: &Receipt, derived: &Derived) -> (r: Result<
    (),
    Rejection,
>)
    ensures
        r == spec_cancel_checks(*ctx, *receipt, *derived),
{
    if receipt.listing != ctx.listing || receipt.listing_token_account != ctx.listing_token_account
        || receipt.purchaser != ctx.purchaser || receipt.escrow != ctx.escrow {
        Err(Rejection::Constraint(ConstraintError::Receipt))
    } else if !is_derived(&ctx.listing, &derived.record) || !is_derived(&ctx.listing_mint_authority, &derived.listing_mint_authority) || !is_derived(&ctx.escrow_authority, &derived.escrow_authority) {
        Err(Rejection::Constraint(ConstraintError::Seeds))
    } else {
        Ok(())
    }
}

/// The claim tokens of a refundable purchase are burnt, and the receipt is
/// closed to the purchaser.
pub open spec fn spec_cancel_claim(s: State, ctx: Cancel, receipt: Receipt) -> Result<
    State,
    LedgerError,
> {
    let burnt = if receipt.is_refundable {
        spec_burn(
            s,
            ctx.listing_mint,
            ctx.listing_token_account,
            ctx.listing_mint_authority,
            receipt.quantity,
        )
    } else {
        Ok(s)
    };
    match burnt {
        Ok(state) => spec_close_native(state, ctx.receipt, ctx.purchaser),
        Err(e) => Err(e),
    }
}

/// All of `held`, what the escrow held when the cancellation was called,
/// goes to the return deposit, and the escrow is closed to the purchaser.
pub open spec fn spec_cancel_refund(s: State, ctx: Cancel, held: u64) -> Result<State, LedgerError> {
    match spec_transfer(s, ctx.escrow, ctx.return_deposit, ctx.escrow_authority, held) {
        Ok(returned) => spec_close_token(
            returned,
            ctx.escrow,
            ctx.purchaser,
            ctx.escrow_authority,
        ),
        Err(e) => Err(e),
    }
}

/// What a cancellation that passed its checks does to the ledger, step by
/// step; the first step that the ledger refuses ends it.
pub open spec fn spec_cancel_effects(s: State, ctx: Cancel, receipt: Receipt, held: u64) -> Result<
    State,
    LedgerError,
> {
    match spec_cancel_claim(s, ctx, receipt) {
        Ok(claimed) => spec_cancel_refund(claimed, ctx, held),
        Err(e) => Err(e),
    }
}

/// The cancellation of a purchase, given the addresses derived for it: the
/// ledger afterwards, or why the cancellation is turned down.
pub open spec fn spec_cancel(s: State, ctx: Cancel, derived: Derived) -> Result<State, Rejection> {
    match (receipt_at(s, ctx.receipt), listing_at(s, ctx.listing), token_at(s, ctx.escrow)) {
        (Some(receipt), Some(_), Some(escrow)) => match spec_cancel_checks(ctx, receipt, derived) {
            Err(e) => Err(e),
            Ok(()) => ledger_step(spec_cancel_effects(s, ctx, receipt, escrow.amount)),
        },
        _ => Err(Rejection::Ledger(LedgerError::AccountNotFound)),
    }
}

fn cancel_claim(work: &mut Ledger, ctx: &Cancel, receipt: &Receipt) -> (r: Result<(), LedgerError>)
    ensures
        tried(final(work)@, r, spec_cancel_claim(old(work)@, *ctx, *receipt)),
{
    if receipt.is_refundable {
        match work.burn(
            &ctx.listing_mint,
            &ctx.listing_token_account,
            &ctx.listing_mint_authority,
            receipt.quantity,
        ) {
            Ok(()) => {},
            Err(e) => { return Err(e); },
        }
    }
    work.close_native(&ctx.receipt, &ctx.purchaser)
}

fn cancel_refund(work: &mut Ledger, ctx: &Cancel, held: u64) -> (r: Result<(), LedgerError>)
    ensures
        tried(final(work)@, r, spec_cancel_refund(old(work)@, *ctx, held)),
{
    match work.transfer(&ctx.escrow, &ctx.return_deposit, &ctx.escrow_authority, held) {
        Ok(()) => work.close_token(&ctx.escrow, &ctx.purchaser, &ctx.escrow_authority),
        Err(e) => Err(e),
    }
}

/// Cancels a purchase, given the addresses derived for it. Either every step
/// is carried out, or the cancellation is turned down and the ledger is as
/// it was.
pub fn cancel_with(ledger: &mut Ledger, ctx: &Cancel, derived: &Derived) -> (r: Result<
    (),
    Rejection,
>)
    ensures
        outcome(old(ledger)@, final(ledger)@, r, spec_cancel(old(ledger)@, *ctx, *derived)),
{
    let (receipt, escrow) = match (
        ledger.receipt(&ctx.receipt),
        ledger.listing(&ctx.listing),
        ledger.token_account(&ctx.escrow),
    ) {
        (Some(receipt), Some(_), Some(escrow)) => (receipt, escrow),
        _ => { return Err(Rejection::Ledger(LedgerError::AccountNotFound)); },
    };
    match cancel_checks(ctx, &receipt, derived) {
        Ok(()) => {},
        Err(e) => { return Err(e); },
    }
    let mut work = ledger.snapshot();
    match cancel_claim(&mut work, ctx, &receipt) {
        Ok(()) => {},
        Err(e) => { return Err(Rejection::Ledger(e)); },
    }
    match cancel_refund(&mut work, ctx, escrow.amount) {
        Ok(()) => {
            *ledger = work;
            Ok(())
        },
        Err(e) => Err(Rejection::Ledger(e)),
    }
}

/// The addresses that a cancellation derives from its bump seeds.
pub open spec fn spec_cancel_derived(
    ctx: Cancel,
    listing_bump: u8,
    listing_mint_bump: u8,
    escrow_authority_bump: u8,
) -> Derived {
    Derived {
        record: spec_resolve(Domain::Listing, ctx.listing_mint, listing_bump),
        listing_mint_authority: spec_resolve(Domain::Mint, ctx.listing_mint, listing_mint_bump),
        charter_mint_authority: None,
        escrow_authority: spec_resolve(Domain::Escrow, ctx.escrow, escrow_authority_bump),
    }
}

/// Derives the addresses that a cancellation needs from its bump seeds.
pub fn cancel_derived(
    ctx: &Cancel,
    listing_bump: u8,
    listing_mint_bump: u8,
    escrow_authority_bump: u8,
) -> (d: Derived)
    ensures
        d == spec_cancel_derived(*ctx, listing_bump, listing_mint_bump, escrow_authority_bump),
{
    Derived {
        record: resolve(Domain::Listing, &ctx.listing_mint, listing_bump),
        listing_mint_authority: resolve(Domain::Mint, &ctx.listing_mint, listing_mint_bump),
        charter_mint_authority: None,
        escrow_authority: resolve(Domain::Escrow, &ctx.escrow, escrow_authority_bump),
    }
}

/// Receipt State Machine, the cancellation. Only the receipt's purchaser may
/// cancel. The claim tokens of a refundable purchase are burnt, the receipt
/// is closed to the purchaser, all that the escrow holds goes to the return
/// deposit, and the escrow is closed to the purchaser. Either all of it
/// happens, or the cancellation is turned down and the ledger is as it was.
pub fn cancel(
    ledger: &mut Ledger,
    ctx: &Cancel,
    listing_bump: u8,
    listing_mint_bump: u8,
    escrow_authority_bump: u8,
) -> (r: Result<(), Rejection>)
    ensures
        outcome(
            old(ledger)@,
            final(ledger)@,
            r,
            spec_cancel(
                old(ledger)@,
                *ctx,
                spec_cancel_derived(*ctx, listing_bump, listing_mint_bump, escrow_authority_bump),
            ),
        ),
{
    let derived = cancel_derived(ctx, listing_bump, listing_mint_bump, escrow_authority_bump);
    cancel_with(ledger, ctx, &derived)
}

} // verus!
