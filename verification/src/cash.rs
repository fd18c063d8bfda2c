use crate::accounts::{Cash, Derived};
use crate::authority::{is_derived, resolve, spec_resolve, Domain};
use crate::calculator::{spec_split, spec_votes, split, votes};
use crate::error::{ConstraintError, LedgerError, Rejection, StrangemoodError};
use crate::ledger::{
    charter_at, listing_at, outcome, receipt_at, spec_close_native, spec_close_token, spec_mint_to,
    spec_transfer, token_at, treasury_at, Ledger, State, TokenAccount,
};
use crate::operations::{
    mint_and_freeze, move_lamports, spec_mint_to_and_freeze, spec_move_lamports,
};
use crate::records::{Charter, CharterTreasury, Listing, Receipt};
use crate::transition::{ledger_step, tried};
use vstd::prelude::*;

verus! {

/// The amounts that a settlement moves.
#[derive(Clone, Copy, Debug, PartialEq, Eq)]
pub struct Settlement {
    /// The seller's share of the payment.
    pub deposit_amount: u64,
    /// The treasury's share of the payment.
    pub contribution_amount: u64,
    /// The seller's share of the governance tokens.
    pub vote_deposit_amount: u64,
    /// The community's share of the governance tokens.
    pub vote_contribution_amount: u64,
}

/// The amounts that the settlement of a payment of `price` moves: the
/// payment split by the charter's payment contribution rate, and the
/// governance tokens that the contribution earns, split by the charter's vote
/// contribution rate. `None` where the governance tokens are more than 64
/// bits can say.
pub open spec fn spec_settlement(price: u64, charter: Charter, treasury: CharterTreasury) -> Option<
    Settlement,
> {
    let (deposit_amount, contribution_amount) = spec_split(
        price,
        charter.spec_payment_contribution_rate(),
    );
    let earned = spec_votes(
        contribution_amount,
        charter.spec_expansion_rate(
            treasury.expansion_scalar_amount,
            treasury.expansion_scalar_decimals,
        ),
    );
    if earned > u64::MAX {
        None
    } else {
        let (vote_deposit_amount, vote_contribution_amount) = spec_split(
            earned as u64,
            charter.spec_vote_contribution_rate(),
        );
        Some(
            Settlement {
                deposit_amount,
                contribution_amount,
                vote_deposit_amount,
                vote_contribution_amount,
            },
        )
    }
}

/// The amounts that the settlement of a payment of `price` moves.
pub fn settlement(price: u64, charter: &Charter, treasury: &CharterTreasury) -> (r: Option<
    Settlement,
>)
    ensures
        r == spec_settlement(price, *charter, *treasury),
        r matches Some(s) ==> s.deposit_amount + s.contribution_amount == price,
{
    let (deposit_amount, contribution_amount) = split(price, charter.payment_contribution_rate());
    let rate = charter.expansion_rate(
        treasury.expansion_scalar_amount,
        treasury.expansion_scalar_decimals,
    );
    match votes(contribution_amount, rate) {
        Some(earned) => {
            let (vote_deposit_amount, vote_contribution_amount) = split(
                earned,
                charter.vote_contribution_rate(),
            );
            Some(
                Settlement {
                    deposit_amount,
                    contribution_amount,
                    vote_deposit_amount,
                    vote_contribution_amount,
                },
            )
        },
        None => None,
    }
}

/// Why a settlement is turned down before anything is moved, if it is. The
/// checks are made in this order, and the first that fails decides.
pub open spec fn spec_cash_checks(
    ctx: Cash,
    receipt: Receipt,
    listing: Listing,
    charter: Charter,
    treasury: CharterTreasury,
    payment_deposit: TokenAccount,
    derived: Derived,
) -> Result<(), Rejection> {
    if !receipt.is_cashable {
        Err(Rejection::Program(StrangemoodError::ReceiptNotCashable))
    } else if receipt.cashier != ctx.cashier {
        Err(Rejection::Program(StrangemoodError::OnlyCashableByTheCashier))
    } else if listing.mint != ctx.listing_mint {
        Err(Rejection::Program(StrangemoodError::UnexpectedListingMint))
    } else if ctx.listing_token_account != receipt.listing_token_account {
        Err(Rejection::Program(StrangemoodError::UnexpectedListingTokenAccount))
    } else if listing.vote_deposit != ctx.listings_vote_deposit || listing.payment_deposit
        != ctx.listings_payment_deposit {
        Err(Rejection::Program(StrangemoodError::DepositIsNotFoundInListing))
    } else if listing.charter != ctx.charter {
        Err(Rejection::Program(StrangemoodError::UnauthorizedCharter))
    } else if charter.mint != ctx.charter_mint {
        Err(Rejection::Program(StrangemoodError::MintIsNotFoundInCharter))
    } else if ctx.charter_vote_deposit != charter.vote_deposit {
        Err(Rejection::Program(StrangemoodError::DepositIsNotFoundInCharter))
    } else if receipt.listing != ctx.listing || receipt.escrow != ctx.escrow {
        Err(Rejection::Constraint(ConstraintError::Receipt))
    } else if treasury.charter != ctx.charter || treasury.deposit != ctx.charter_treasury_deposit {
        Err(Rejection::Constraint(ConstraintError::Treasury))
    } else if treasury.mint != payment_deposit.mint {
        Err(Rejection::Constraint(ConstraintError::Currency))
    } else if derived.escrow_authority != Some(ctx.escrow_authority)
        || derived.listing_mint_authority != Some(ctx.listing_mint_authority)
        || derived.charter_mint_authority != Some(ctx.charter_mint_authority) {
        Err(Rejection::Constraint(ConstraintError::Seeds))
    } else {
        Ok(())
    }
}

/// The checks of a settlement, on the records and accounts that it names.
pub fn cash_checks(
    ctx: &Cash,
    receipt: &Receipt,
    listing: &Listing,
    charter: &Charter,
    treasury: &CharterTreasury,
    payment_deposit: &TokenAccount,
    derived: &Derived,
) -> (r: Result<(), Rejection>)
    ensures
        r == spec_cash_checks(
            *ctx,
            *receipt,
            *listing,
            *charter,
            *treasury,
            *payment_deposit,
            *derived,
        ),
{
    if !receipt.is_cashable {
        Err(Rejection::Program(StrangemoodError::ReceiptNotCashable))
    } else if receipt.cashier != ctx.cashier {
        Err(Rejection::Program(StrangemoodError::OnlyCashableByTheCashier))
    } else if listing.mint != ctx.listing_mint {
        Err(Rejection::Program(StrangemoodError::UnexpectedListingMint))
    } else if ctx.listing_token_account != receipt.listing_token_account {
        Err(Rejection::Program(StrangemoodError::UnexpectedListingTokenAccount))
    } else if listing.vote_deposit != ctx.listings_vote_deposit || listing.payment_deposit
        != ctx.listings_payment_deposit {
        Err(Rejection::Program(StrangemoodError::DepositIsNotFoundInListing))
    } else if listing.charter != ctx.charter {
        Err(Rejection::Program(StrangemoodError::UnauthorizedCharter))
    } else if charter.mint != ctx.charter_mint {
        Err(Rejection::Program(StrangemoodError::MintIsNotFoundInCharter))
    } else if ctx.charter_vote_deposit != charter.vote_deposit {
        Err(Rejection::Program(StrangemoodError::DepositIsNotFoundInCharter))
    } else if receipt.listing != ctx.listing || receipt.escrow != ctx.escrow {
        Err(Rejection::Constraint(ConstraintError::Receipt))
    } else if treasury.charter != ctx.charter || treasury.deposit != ctx.charter_treasury_deposit {
        Err(Rejection::Constraint(ConstraintError::Treasury))
    } else if treasury.mint != payment_deposit.mint {
        Err(Rejection::Constraint(ConstraintError::Currency))
    } else if !is_derived(&ctx.escrow_authority, &derived.escrow_authority)
        || !is_derived(&ctx.listing_mint_authority, &derived.listing_mint_authority)
        || !is_derived(&ctx.charter_mint_authority, &derived.charter_mint_authority) {
        Err(Rejection::Constraint(ConstraintError::Seeds))
    } else {
        Ok(())
    }
}

/// The claim tokens of a purchase that was not refundable are made at its
/// settlement, frozen; those of a refundable one were made when it was bought.
pub open spec fn spec_cash_claim(s: State, ctx: Cash, receipt: Receipt) -> Result<
    State,
    LedgerError,
> {
    if receipt.is_refundable {
        Ok(s)
    } else {
        spec_mint_to_and_freeze(
            s,
            ctx.listing_mint,
            ctx.listing_token_account,
            ctx.listing_mint_authority,
            receipt.quantity,
        )
    }
}

/// The payment leaves the escrow: the deposit to the seller, the
/// contribution to the treasury.
pub open spec fn spec_cash_release(s: State, ctx: Cash, amounts: Settlement) -> Result<
    State,
    LedgerError,
> {
    match spec_transfer(
        s,
        ctx.escrow,
        ctx.listings_payment_deposit,
        ctx.escrow_authority,
        amounts.deposit_amount,
    ) {
        Ok(paid) => spec_transfer(
            paid,
            ctx.escrow,
            ctx.charter_treasury_deposit,
            ctx.escrow_authority,
            amounts.contribution_amount,
        ),
        Err(e) => Err(e),
    }
}

/// The native balance of the receipt goes to the treasury's deposit.
pub open spec fn spec_cash_sweep(s: State, ctx: Cash) -> Result<State, LedgerError> {
    spec_move_lamports(s, ctx.receipt, ctx.charter_treasury_deposit, s[ctx.receipt].lamports)
}

/// The governance tokens are made: the seller's share, then the community's.
pub open spec fn spec_cash_votes(s: State, ctx: Cash, amounts: Settlement) -> Result<
    State,
    LedgerError,
> {
    match spec_mint_to(
        s,
        ctx.charter_mint,
        ctx.listings_vote_deposit,
        ctx.charter_mint_authority,
        amounts.vote_deposit_amount,
    ) {
        Ok(minted) => spec_mint_to(
            minted,
            ctx.charter_mint,
            ctx.charter_vote_deposit,
            ctx.charter_mint_authority,
            amounts.vote_contribution_amount,
        ),
        Err(e) => Err(e),
    }
}

/// The escrow, which must be empty by now, and the receipt are closed to the
/// cashier.
pub open spec fn spec_cash_close(s: State, ctx: Cash) -> Result<State, LedgerError> {
    match spec_close_token(s, ctx.escrow, ctx.cashier, ctx.escrow_authority) {
        Ok(closed) => spec_close_native(closed, ctx.receipt, ctx.cashier),
        Err(e) => Err(e),
    }
}

/// What a settlement that passed its checks does to the ledger, step by
/// step; the first step that the ledger refuses ends it.
pub open spec fn spec_cash_effects(s: State, ctx: Cash, receipt: Receipt, amounts: Settlement) -> Result<
    State,
    LedgerError,
> {
    match spec_cash_claim(s, ctx, receipt) {
        Ok(claimed) => match spec_cash_release(claimed, ctx, amounts) {
            Ok(released) => match spec_cash_sweep(released, ctx) {
                Ok(swept) => match spec_cash_votes(swept, ctx, amounts) {
                    Ok(voted) => spec_cash_close(voted, ctx),
                    Err(e) => Err(e),
                },
                Err(e) => Err(e),
            },
            Err(e) => Err(e),
        },
        Err(e) => Err(e),
    }
}

/// The settlement of a purchase, given the addresses derived for it: the
/// ledger afterwards, or why the settlement is turned down.
pub open spec fn spec_cash(s: State, ctx: Cash, derived: Derived) -> Result<State, Rejection> {
    match (
        receipt_at(s, ctx.receipt),
        listing_at(s, ctx.listing),
        charter_at(s, ctx.charter),
        treasury_at(s, ctx.charter_treasury),
        token_at(s, ctx.listings_payment_deposit),
    ) {
        (Some(receipt), Some(listing), Some(charter), Some(treasury), Some(payment_deposit)) => {
            match spec_cash_checks(
                ctx,
                receipt,
                listing,
                charter,
                treasury,
                payment_deposit,
                derived,
            ) {
                Err(e) => Err(e),
                Ok(()) => match spec_settlement(receipt.price, charter, treasury) {
                    Some(amounts) => ledger_step(spec_cash_effects(s, ctx, receipt, amounts)),
                    None => Err(Rejection::Ledger(LedgerError::Overflow)),
                },
            }
        },
        _ => Err(Rejection::Ledger(LedgerError::AccountNotFound)),
    }
}

fn cash_claim(work: &mut Ledger, ctx: &Cash, receipt: &Receipt) -> (r: Result<(), LedgerError>)
    ensures
        tried(final(work)@, r, spec_cash_claim(old(work)@, *ctx, *receipt)),
{
    if receipt.is_refundable {
        Ok(())
    } else {
        mint_and_freeze(
            work,
            &ctx.listing_mint,
            &ctx.listing_token_account,
            &ctx.listing_mint_authority,
            receipt.quantity,
        )
    }
}

fn cash_release(work: &mut Ledger, ctx: &Cash, amounts: &Settlement) -> (r: Result<
    (),
    LedgerError,
>)
    ensures
        tried(final(work)@, r, spec_cash_release(old(work)@, *ctx, *amounts)),
{
    match work.transfer(
        &ctx.escrow,
        &ctx.listings_payment_deposit,
        &ctx.escrow_authority,
        amounts.deposit_amount,
    ) {
        Ok(()) => work.transfer(
            &ctx.escrow,
            &ctx.charter_treasury_deposit,
            &ctx.escrow_authority,
            amounts.contribution_amount,
        ),
        Err(e) => Err(e),
    }
}

fn cash_sweep(work: &mut Ledger, ctx: &Cash) -> (r: Result<(), LedgerError>)
    ensures
        tried(final(work)@, r, spec_cash_sweep(old(work)@, *ctx)),
{
    let held = work.lamports(&ctx.receipt);
    move_lamports(work, &ctx.receipt, &ctx.charter_treasury_deposit, held)
}

fn cash_votes(work: &mut Ledger, ctx: &Cash, amounts: &Settlement) -> (r: Result<(), LedgerError>)
    ensures
        tried(final(work)@, r, spec_cash_votes(old(work)@, *ctx, *amounts)),
{
    match work.mint_to(
        &ctx.charter_mint,
        &ctx.listings_vote_deposit,
        &ctx.charter_mint_authority,
        amounts.vote_deposit_amount,
    ) {
        Ok(()) => work.mint_to(
            &ctx.charter_mint,
            &ctx.charter_vote_deposit,
            &ctx.charter_mint_authority,
            amounts.vote_contribution_amount,
        ),
        Err(e) => Err(e),
    }
}

fn cash_close(work: &mut Ledger, ctx: &Cash) -> (r: Result<(), LedgerError>)
    ensures
        tried(final(work)@, r, spec_cash_close(old(work)@, *ctx)),
{
    match work.close_token(&ctx.escrow, &ctx.cashier, &ctx.escrow_authority) {
        Ok(()) => work.close_native(&ctx.receipt, &ctx.cashier),
        Err(e) => Err(e),
    }
}

fn cash_effects(work: &mut Ledger, ctx: &Cash, receipt: &Receipt, amounts: &Settlement) -> (r:
    Result<(), LedgerError>)
    ensures
        tried(final(work)@, r, spec_cash_effects(old(work)@, *ctx, *receipt, *amounts)),
{
    match cash_claim(work, ctx, receipt) {
        Ok(()) => {},
        Err(e) => { return Err(e); },
    }
    match cash_release(work, ctx, amounts) {
        Ok(()) => {},
        Err(e) => { return Err(e); },
    }
    match cash_sweep(work, ctx) {
        Ok(()) => {},
        Err(e) => { return Err(e); },
    }
    match cash_votes(work, ctx, amounts) {
        Ok(()) => {},
        Err(e) => { return Err(e); },
    }
    cash_close(work, ctx)
}

/// Settles a purchase, given the addresses derived for it. Either every step
/// is carried out, or the settlement is turned down and the ledger is as it
/// was.
pub fn cash_with(ledger: &mut Ledger, ctx: &Cash, derived: &Derived) -> (r: Result<(), Rejection>)
    ensures
        outcome(old(ledger)@, final(ledger)@, r, spec_cash(old(ledger)@, *ctx, *derived)),
{
    let (receipt, listing, charter, treasury, payment_deposit) = match (
        ledger.receipt(&ctx.receipt),
        ledger.listing(&ctx.listing),
        ledger.charter(&ctx.charter),
        ledger.treasury(&ctx.charter_treasury),
        ledger.token_account(&ctx.listings_payment_deposit),
    ) {
        (Some(receipt), Some(listing), Some(charter), Some(treasury), Some(payment_deposit)) => (
            receipt,
            listing,
            charter,
            treasury,
            payment_deposit,
        ),
        _ => { return Err(Rejection::Ledger(LedgerError::AccountNotFound)); },
    };
    match cash_checks(ctx, &receipt, &listing, &charter, &treasury, &payment_deposit, derived) {
        Ok(()) => {},
        Err(e) => { return Err(e); },
    }
    let amounts = match settlement(receipt.price, &charter, &treasury) {
        Some(amounts) => amounts,
        None => { return Err(Rejection::Ledger(LedgerError::Overflow)); },
    };
    let mut work = ledger.snapshot();
    match cash_effects(&mut work, ctx, &receipt, &amounts) {
        Ok(()) => {
            *ledger = work;
            Ok(())
        },
        Err(e) => Err(Rejection::Ledger(e)),
    }
}

/// The addresses that a settlement derives from its bump seeds.
pub open spec fn spec_cash_derived(
    ctx: Cash,
    listing_mint_bump: u8,
    charter_mint_bump: u8,
    escrow_authority_bump: u8,
) -> Derived {
    Derived {
        record: None,
        listing_mint_authority: spec_resolve(Domain::Mint, ctx.listing_mint, listing_mint_bump),
        charter_mint_authority: spec_resolve(Domain::Mint, ctx.charter_mint, charter_mint_bump),
        escrow_authority: spec_resolve(Domain::Escrow, ctx.escrow, escrow_authority_bump),
    }
}

/// Derives the addresses that a settlement needs from its bump seeds.
pub fn cash_derived(
    ctx: &Cash,
    listing_mint_bump: u8,
    charter_mint_bump: u8,
    escrow_authority_bump: u8,
) -> (d: Derived)
    ensures
        d == spec_cash_derived(*ctx, listing_mint_bump, charter_mint_bump, escrow_authority_bump),
{
    Derived {
        record: None,
        listing_mint_authority: resolve(Domain::Mint, &ctx.listing_mint, listing_mint_bump),
        charter_mint_authority: resolve(Domain::Mint, &ctx.charter_mint, charter_mint_bump),
        escrow_authority: resolve(Domain::Escrow, &ctx.escrow, escrow_authority_bump),
    }
}

/// Receipt State Machine, the settlement. Only the receipt's cashier may
/// settle, and only a cashable receipt. The payment in escrow is split
/// between the seller and the treasury, the governance tokens that the
/// contribution earns are minted, and escrow and receipt are closed to the
/// cashier. Either all of it happens, or the settlement is turned down and
/// the ledger is as it was.
pub fn cash(
    ledger: &mut Ledger,
    ctx: &Cash,
    listing_mint_bump: u8,
    charter_mint_bump: u8,
    escrow_authority_bump: u8,
) -> (r: Result<(), Rejection>)
    ensures
        outcome(
            old(ledger)@,
            final(ledger)@,
            r,
            spec_cash(
                old(ledger)@,
                *ctx,
                spec_cash_derived(*ctx, listing_mint_bump, charter_mint_bump, escrow_authority_bump),
            ),
        ),
{
    let derived = cash_derived(ctx, listing_mint_bump, charter_mint_bump, escrow_authority_bump);
    cash_with(ledger, ctx, &derived)
}

} // verus!
