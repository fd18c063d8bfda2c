use crate::accounts::{Cancel, Cash, Consume, Derived, Purchase, SetReceiptCashable};
use crate::address::Address;
use crate::cancel::spec_cancel;
use crate::calculator::{spec_deposit, spec_split, Rate};
use crate::cash::{
    spec_cash, spec_cash_claim, spec_cash_release, spec_cash_sweep, spec_cash_votes,
    spec_settlement,
};
use crate::ledger::{
    spec_burn, spec_close_token, spec_freeze, spec_mint_to, spec_open_token, spec_transfer,
};
use crate::operations::{spec_mint_to_and_freeze, spec_move_lamports};
use crate::ledger::{charter_at, treasury_at};
use crate::consume::{spec_consume, spec_set_receipt_cashable};
use crate::error::{LedgerError, Rejection, StrangemoodError};
use crate::ledger::{listing_at, mint_at, receipt_at, token_at, Account, State, TokenAccount};
use crate::purchase::{spec_purchase, spec_receipt};
use crate::records::Receipt;
use vstd::prelude::*;

verus! {

/// After a purchase the escrow holds exactly the number of units times the
/// listing's price, in the payment currency and under the escrow's own
/// authority, and the receipt stored is the one of this purchase.
pub proof fn law_purchase_fills_escrow(
    s: State,
    ctx: Purchase,
    nonce: u128,
    amount: u64,
    derived: Derived,
)
    requires
        spec_purchase(s, ctx, nonce, amount, derived) is Ok,
    ensures
        spec_purchase(s, ctx, nonce, amount, derived) matches Ok(after) && listing_at(
            s,
            ctx.listing,
        ) matches Some(listing) && {
            &&& token_at(after, ctx.escrow) == Some(
                TokenAccount {
                    mint: ctx.listing_payment_deposit_mint,
                    owner: ctx.escrow_authority,
                    amount: (amount * listing.price) as u64,
                    is_frozen: false,
                },
            )
            &&& amount * listing.price <= u64::MAX
            &&& receipt_at(after, ctx.receipt) == Some(spec_receipt(ctx, listing, nonce, amount))
        },
{
}

/// A receipt is cashable straight after the purchase exactly where the
/// listing is not refundable.
pub proof fn law_cashable_after_purchase(
    s: State,
    ctx: Purchase,
    nonce: u128,
    amount: u64,
    derived: Derived,
)
    requires
        spec_purchase(s, ctx, nonce, amount, derived) is Ok,
    ensures
        spec_purchase(s, ctx, nonce, amount, derived) matches Ok(after) && listing_at(
            s,
            ctx.listing,
        ) matches Some(listing) && receipt_at(after, ctx.receipt) matches Some(receipt) && {
            &&& receipt.is_refundable == listing.is_refundable
            &&& receipt.is_cashable == !listing.is_refundable
        },
{
    law_purchase_fills_escrow(s, ctx, nonce, amount, derived);
}

/// The override makes a receipt cashable and changes nothing else in it.
pub proof fn law_override_makes_cashable(s: State, ctx: SetReceiptCashable)
    requires
        spec_set_receipt_cashable(s, ctx) is Ok,
    ensures
        spec_set_receipt_cashable(s, ctx) matches Ok(after) && receipt_at(
            s,
            ctx.receipt,
        ) matches Some(before) && receipt_at(after, ctx.receipt) == Some(
            Receipt { is_cashable: true, ..before },
        ),
{
}

/// The override leaves every other receipt as it was.
pub proof fn law_override_keeps_receipts(s: State, ctx: SetReceiptCashable, other: Address)
    requires
        spec_set_receipt_cashable(s, ctx) is Ok,
        other != ctx.receipt,
    ensures
        spec_set_receipt_cashable(s, ctx) matches Ok(after) && receipt_at(after, other)
            == receipt_at(s, other),
{
}

/// A consumption leaves every receipt as it was: it burns claim tokens,
/// whatever the state of the purchases that they came from.
pub proof fn law_consume_keeps_receipts(
    s: State,
    ctx: Consume,
    amount: u64,
    derived: Derived,
    other: Address,
)
    requires
        spec_consume(s, ctx, amount, derived) is Ok,
    ensures
        spec_consume(s, ctx, amount, derived) matches Ok(after) && receipt_at(after, other)
            == receipt_at(s, other),
{
}

/// A receipt that is not cashable cannot be settled: until the override has
/// run, the settlement of a refundable purchase is turned down.
pub proof fn law_cash_needs_cashable(s: State, ctx: Cash, derived: Derived)
    requires
        receipt_at(s, ctx.receipt) matches Some(receipt) && !receipt.is_cashable,
    ensures
        spec_cash(s, ctx, derived) is Err,
        spec_cash(s, ctx, derived) == Err::<State, Rejection>(
            Rejection::Program(StrangemoodError::ReceiptNotCashable),
        ) || spec_cash(s, ctx, derived) == Err::<State, Rejection>(
            Rejection::Ledger(LedgerError::AccountNotFound),
        ),
{
}

/// A purchase leaves every receipt that was there before as it was.
pub proof fn law_purchase_keeps_receipts(
    s: State,
    ctx: Purchase,
    nonce: u128,
    amount: u64,
    derived: Derived,
    other: Address,
)
    requires
        spec_purchase(s, ctx, nonce, amount, derived) is Ok,
        receipt_at(s, other) is Some,
    ensures
        spec_purchase(s, ctx, nonce, amount, derived) matches Ok(after) && receipt_at(after, other)
            == receipt_at(s, other),
{
}

/// A settlement closes its receipt and its escrow: neither is there
/// afterwards. Every other receipt is as it was.
#[verifier::rlimit(40)]
pub proof fn law_cash_closes(s: State, ctx: Cash, derived: Derived, other: Address)
    requires
        spec_cash(s, ctx, derived) is Ok,
    ensures
        spec_cash(s, ctx, derived) matches Ok(after) && {
            &&& after[ctx.receipt].data is Empty
            &&& after[ctx.escrow].data is Empty
            &&& other != ctx.receipt ==> receipt_at(after, other) == receipt_at(s, other)
        },
{
}

/// A settlement has its effect once: a second settlement of the same
/// receipt is turned down, whatever else is handed to it, because the
/// receipt is no longer there.
pub proof fn law_cash_once(s: State, ctx: Cash, derived: Derived, again: Cash, derived_again: Derived)
    requires
        spec_cash(s, ctx, derived) is Ok,
        again.receipt == ctx.receipt,
    ensures
        spec_cash(s, ctx, derived) matches Ok(after) && spec_cash(after, again, derived_again)
            == Err::<State, Rejection>(Rejection::Ledger(LedgerError::AccountNotFound)),
{
    law_cash_closes(s, ctx, derived, ctx.receipt);
}

/// A cancellation closes its receipt and its escrow: neither is there
/// afterwards, so that the purchase can be neither settled nor cancelled
/// again. Every other receipt is as it was.
#[verifier::rlimit(40)]
pub proof fn law_cancel_closes(
    s: State,
    ctx: Cancel,
    derived: Derived,
    other: Address,
)
    requires
        spec_cancel(s, ctx, derived) is Ok,
    ensures
        spec_cancel(s, ctx, derived) matches Ok(after) && {
            &&& after[ctx.receipt].data is Empty
            &&& after[ctx.escrow] == Account::vacant()
            &&& other != ctx.receipt ==> receipt_at(after, other) == receipt_at(s, other)
        },
{
}

/// Of settlement and cancellation, one shuts out the other: after either,
/// both are turned down for the same receipt.
pub proof fn law_terminal_once(
    s: State,
    cash: Cash,
    cancel: Cancel,
    derived: Derived,
    derived_after: Derived,
)
    requires
        cash.receipt == cancel.receipt,
    ensures
        spec_cash(s, cash, derived) matches Ok(after) ==> spec_cancel(after, cancel, derived_after)
            is Err && spec_cash(after, cash, derived_after) is Err,
        spec_cancel(s, cancel, derived) matches Ok(after) ==> spec_cash(after, cash, derived_after)
            is Err && spec_cancel(after, cancel, derived_after) is Err,
{
    if spec_cash(s, cash, derived) is Ok {
        law_cash_closes(s, cash, derived, cash.receipt);
    }
    if spec_cancel(s, cancel, derived) is Ok {
        law_cancel_closes(s, cancel, derived, cancel.receipt);
    }
}

/// The cancellation of a refundable purchase undoes it: the holder's claim
/// tokens and their supply are what they were before the purchase, the whole
/// of the payment, units times price, is in the return deposit, and receipt
/// and escrow are gone. This is said of a listing whose claim tokens are not
/// the payment currency, and of a return deposit that is not the escrow
/// itself.
#[verifier::rlimit(40)]
pub proof fn law_cancel_undoes_purchase(
    s: State,
    purchase: Purchase,
    nonce: u128,
    amount: u64,
    derived: Derived,
    cancel: Cancel,
    derived_cancel: Derived,
)
    requires
        listing_at(s, purchase.listing) matches Some(listing) && listing.is_refundable,
        spec_purchase(s, purchase, nonce, amount, derived) matches Ok(bought) && spec_cancel(
            bought,
            cancel,
            derived_cancel,
        ) is Ok,
        cancel.receipt == purchase.receipt,
        purchase.listing_mint != purchase.listing_payment_deposit_mint,
        cancel.return_deposit != purchase.escrow,
    ensures
        listing_at(s, purchase.listing) matches Some(listing) && spec_purchase(
            s,
            purchase,
            nonce,
            amount,
            derived,
        ) matches Ok(bought) && spec_cancel(bought, cancel, derived_cancel) matches Ok(after) && {
            &&& token_at(after, purchase.listing_token_account) matches Some(held) && token_at(
                s,
                purchase.listing_token_account,
            ) matches Some(held_before) && held.amount == held_before.amount
            &&& mint_at(after, purchase.listing_mint) matches Some(mint) && mint_at(
                s,
                purchase.listing_mint,
            ) matches Some(mint_before) && mint.supply == mint_before.supply
            &&& token_at(after, cancel.return_deposit) matches Some(returned) && token_at(
                bought,
                cancel.return_deposit,
            ) matches Some(returned_before) && returned.amount == returned_before.amount + amount
                * listing.price
            &&& after[purchase.receipt].data is Empty
            &&& after[purchase.escrow] == Account::vacant()
        },
{
    law_purchase_fills_escrow(s, purchase, nonce, amount, derived);
    let bought = spec_purchase(s, purchase, nonce, amount, derived)->Ok_0;
    law_cancel_closes(bought, cancel, derived_cancel, cancel.receipt);
}

/// The two parts of a split add up to the whole: the deposit is never more
/// than the total, and the contribution is the rest of it.
pub proof fn law_split_adds_up(total: u64, rate: Rate)
    ensures
        spec_deposit(total, rate) <= total,
        spec_split(total, rate).0 + spec_split(total, rate).1 == total,
{
    if rate.below_one() {
        let d = rate.scale() as int;
        let a = rate.amount as int;
        let t = total as int;
        assert(0 <= a * t) by (nonlinear_arith)
            requires
                0 <= a,
                0 <= t,
        ;
        vstd::arithmetic::div_mod::lemma_fundamental_div_mod(a * t, d);
        vstd::arithmetic::div_mod::lemma_div_pos_is_pos(a * t, d);
        vstd::arithmetic::div_mod::lemma_mod_pos_bound(a * t, d);
        assert(d * (a * t / d) == (a * t / d) * d) by (nonlinear_arith);
        crate::calculator::lemma_split_parts(t, a, d, a * t / d, a * t % d);
    }
}

/// A settlement pays out the whole of the receipt's price and no more: the
/// seller's deposit grows by the deposit amount, the treasury's by the
/// contribution, the two add up to the price, and the escrow held exactly
/// the price. This is said where the two deposits and the escrow are three
/// accounts, and the payment currency is neither the listing's claim token
/// nor the governance token.
#[verifier::rlimit(40)]
pub proof fn law_cash_pays_out(s: State, ctx: Cash, derived: Derived)
    requires
        spec_cash(s, ctx, derived) is Ok,
        ctx.listings_payment_deposit != ctx.charter_treasury_deposit,
        ctx.listings_payment_deposit != ctx.escrow,
        ctx.charter_treasury_deposit != ctx.escrow,
        token_at(s, ctx.listings_payment_deposit) matches Some(deposit) && deposit.mint
            != ctx.listing_mint && deposit.mint != ctx.charter_mint,
    ensures
        spec_cash(s, ctx, derived) matches Ok(after) && receipt_at(
            s,
            ctx.receipt,
        ) matches Some(receipt) && charter_at(s, ctx.charter) matches Some(charter) && treasury_at(
            s,
            ctx.charter_treasury,
        ) matches Some(treasury) && spec_settlement(
            receipt.price,
            charter,
            treasury,
        ) matches Some(amounts) && {
            &&& amounts.deposit_amount + amounts.contribution_amount == receipt.price
            &&& token_at(s, ctx.escrow) matches Some(escrow) && escrow.amount == receipt.price
            &&& token_at(after, ctx.listings_payment_deposit) matches Some(paid) && token_at(
                s,
                ctx.listings_payment_deposit,
            ) matches Some(paid_before) && paid.amount == paid_before.amount
                + amounts.deposit_amount
            &&& token_at(after, ctx.charter_treasury_deposit) matches Some(given) && token_at(
                s,
                ctx.charter_treasury_deposit,
            ) matches Some(given_before) && given.amount == given_before.amount
                + amounts.contribution_amount
        },
{
    let receipt = receipt_at(s, ctx.receipt)->Some_0;
    let charter = charter_at(s, ctx.charter)->Some_0;
    law_split_adds_up(receipt.price, charter.spec_payment_contribution_rate());
}

/// Whether the charter, treasury or listing that `before` has at `a`, if it
/// has one, is still there in `after`, unchanged.
pub open spec fn registry_kept(before: State, after: State, a: Address) -> bool {
    &&& charter_at(before, a) is Some ==> charter_at(after, a) == charter_at(before, a)
    &&& treasury_at(before, a) is Some ==> treasury_at(after, a) == treasury_at(before, a)
    &&& listing_at(before, a) is Some ==> listing_at(after, a) == listing_at(before, a)
}

/// Whether the record that `before` has at `a`, if it has one, is still
/// there in `after`, unchanged.
spec fn records_kept(before: State, after: State, a: Address) -> bool {
    &&& registry_kept(before, after, a)
    &&& receipt_at(before, a) is Some ==> receipt_at(after, a) == receipt_at(before, a)
}

/// The operations on tokens and on native balances leave every record as it is.
proof fn lemma_operations_keep_records(
    s: State,
    x: Address,
    y: Address,
    z: Address,
    amount: u64,
    a: Address,
)
    ensures
        spec_transfer(s, x, y, z, amount) matches Ok(after) ==> records_kept(s, after, a),
        spec_mint_to(s, x, y, z, amount) matches Ok(after) ==> records_kept(s, after, a),
        spec_freeze(s, x, y, z) matches Ok(after) ==> records_kept(s, after, a),
        spec_burn(s, x, y, z, amount) matches Ok(after) ==> records_kept(s, after, a),
        spec_close_token(s, x, y, z) matches Ok(after) ==> records_kept(s, after, a),
        spec_move_lamports(s, x, y, amount) matches Ok(after) ==> records_kept(s, after, a),
        spec_open_token(s, x, y, z) matches Ok(after) ==> records_kept(s, after, a),
{
}

/// Minting and freezing leaves every record as it is.
proof fn lemma_mint_and_freeze_keeps_records(
    s: State,
    x: Address,
    y: Address,
    z: Address,
    amount: u64,
    a: Address,
)
    ensures
        spec_mint_to_and_freeze(s, x, y, z, amount) matches Ok(after) ==> records_kept(
            s,
            after,
            a,
        ),
{
    if let Ok(minted) = spec_mint_to(s, x, y, z, amount) {
        lemma_operations_keep_records(s, x, y, z, amount, a);
        lemma_operations_keep_records(minted, x, y, z, amount, a);
    }
}

/// A purchase reads the charters, treasuries and listings and never changes
/// or removes one.
pub proof fn law_purchase_keeps_registry(
    s: State,
    ctx: Purchase,
    nonce: u128,
    amount: u64,
    derived: Derived,
    a: Address,
)
    ensures
        spec_purchase(s, ctx, nonce, amount, derived) matches Ok(after) ==> registry_kept(
            s,
            after,
            a,
        ),
{
}

/// A settlement reads the charters, treasuries and listings and never
/// changes or removes one.
#[verifier::rlimit(40)]
pub proof fn law_cash_keeps_registry(s: State, ctx: Cash, derived: Derived, a: Address)
    ensures
        spec_cash(s, ctx, derived) matches Ok(after) ==> registry_kept(s, after, a),
{
    if spec_cash(s, ctx, derived) is Ok {
        let receipt = receipt_at(s, ctx.receipt)->Some_0;
        let charter = charter_at(s, ctx.charter)->Some_0;
        let treasury = treasury_at(s, ctx.charter_treasury)->Some_0;
        let amounts = spec_settlement(receipt.price, charter, treasury)->Some_0;
        let claimed = spec_cash_claim(s, ctx, receipt)->Ok_0;
        let released = spec_cash_release(claimed, ctx, amounts)->Ok_0;
        let swept = spec_cash_sweep(released, ctx)->Ok_0;
        let voted = spec_cash_votes(swept, ctx, amounts)->Ok_0;
        assert(records_kept(s, claimed, a) && records_kept(s, claimed, ctx.receipt)) by {
            lemma_mint_and_freeze_keeps_records(
                s,
                ctx.listing_mint,
                ctx.listing_token_account,
                ctx.listing_mint_authority,
                receipt.quantity,
                a,
            );
            lemma_mint_and_freeze_keeps_records(
                s,
                ctx.listing_mint,
                ctx.listing_token_account,
                ctx.listing_mint_authority,
                receipt.quantity,
                ctx.receipt,
            );
        }
        assert(records_kept(claimed, released, a) && records_kept(claimed, released, ctx.receipt))
            by {
            let paid = spec_transfer(
                claimed,
                ctx.escrow,
                ctx.listings_payment_deposit,
                ctx.escrow_authority,
                amounts.deposit_amount,
            )->Ok_0;
            lemma_operations_keep_records(
                claimed,
                ctx.escrow,
                ctx.listings_payment_deposit,
                ctx.escrow_authority,
                amounts.deposit_amount,
                a,
            );
            lemma_operations_keep_records(
                claimed,
                ctx.escrow,
                ctx.listings_payment_deposit,
                ctx.escrow_authority,
                amounts.deposit_amount,
                ctx.receipt,
            );
            lemma_operations_keep_records(
                paid,
                ctx.escrow,
                ctx.charter_treasury_deposit,
                ctx.escrow_authority,
                amounts.contribution_amount,
                a,
            );
            lemma_operations_keep_records(
                paid,
                ctx.escrow,
                ctx.charter_treasury_deposit,
                ctx.escrow_authority,
                amounts.contribution_amount,
                ctx.receipt,
            );
        }
        assert(records_kept(released, swept, a) && records_kept(released, swept, ctx.receipt)) by {
            lemma_operations_keep_records(
                released,
                ctx.receipt,
                ctx.charter_treasury_deposit,
                ctx.receipt,
                released[ctx.receipt].lamports,
                a,
            );
            lemma_operations_keep_records(
                released,
                ctx.receipt,
                ctx.charter_treasury_deposit,
                ctx.receipt,
                released[ctx.receipt].lamports,
                ctx.receipt,
            );
        }
        assert(records_kept(swept, voted, a) && records_kept(swept, voted, ctx.receipt)) by {
            let minted = spec_mint_to(
                swept,
                ctx.charter_mint,
                ctx.listings_vote_deposit,
                ctx.charter_mint_authority,
                amounts.vote_deposit_amount,
            )->Ok_0;
            lemma_operations_keep_records(
                swept,
                ctx.charter_mint,
                ctx.listings_vote_deposit,
                ctx.charter_mint_authority,
                amounts.vote_deposit_amount,
                a,
            );
            lemma_operations_keep_records(
                swept,
                ctx.charter_mint,
                ctx.listings_vote_deposit,
                ctx.charter_mint_authority,
                amounts.vote_deposit_amount,
                ctx.receipt,
            );
            lemma_operations_keep_records(
                minted,
                ctx.charter_mint,
                ctx.charter_vote_deposit,
                ctx.charter_mint_authority,
                amounts.vote_contribution_amount,
                a,
            );
            lemma_operations_keep_records(
                minted,
                ctx.charter_mint,
                ctx.charter_vote_deposit,
                ctx.charter_mint_authority,
                amounts.vote_contribution_amount,
                ctx.receipt,
            );
        }
        let closed = spec_close_token(voted, ctx.escrow, ctx.cashier, ctx.escrow_authority)->Ok_0;
        lemma_operations_keep_records(voted, ctx.escrow, ctx.cashier, ctx.escrow_authority, 0, a);
        lemma_operations_keep_records(
            voted,
            ctx.escrow,
            ctx.cashier,
            ctx.escrow_authority,
            0,
            ctx.receipt,
        );
        assert(receipt_at(closed, ctx.receipt) is Some);
    }
}

/// A cancellation reads the charters, treasuries and listings and never
/// changes or removes one.
pub proof fn law_cancel_keeps_registry(s: State, ctx: Cancel, derived: Derived, a: Address)
    ensures
        spec_cancel(s, ctx, derived) matches Ok(after) ==> registry_kept(s, after, a),
{
}

/// A consumption reads the charters, treasuries and listings and never
/// changes or removes one.
pub proof fn law_consume_keeps_registry(
    s: State,
    ctx: Consume,
    amount: u64,
    derived: Derived,
    a: Address,
)
    ensures
        spec_consume(s, ctx, amount, derived) matches Ok(after) ==> registry_kept(s, after, a),
{
}

} // verus!
