use crate::accounts::{
    Derived, InitCharter, InitCharterTreasury, SetCharter, SetCharterAuthority,
    SetCharterTreasuryDeposit, SetCharterTreasuryExpansionScalar, SetCharterVoteDeposit,
};
use crate::address::Address;
use crate::authority::{is_derived, find_for, spec_find, spec_find_for, treasury_address, treasury_seeds, Domain};
use crate::calculator::Rate;
use crate::error::{ConstraintError, LedgerError, Rejection, StrangemoodError};
use crate::ledger::{
    charter_at, mint_at, outcome, spec_open, token_at, treasury_at, with_data, AccountData,
    Ledger, State, TokenAccount,
};
use crate::records::{authorized, uri_fits, uri_len, Charter, CharterTreasury, CHARTER_URI_MAX};
use crate::transition::{ledger_step, refused};
use vstd::prelude::*;

verus! {

/// The charter that its creation writes.
pub open spec fn spec_new_charter(
    ctx: InitCharter,
    expansion_rate: Rate,
    payment_contribution_rate: Rate,
    vote_contribution_rate: Rate,
    uri: String,
) -> Charter {
    Charter {
        is_initialized: true,
        expansion_rate_amount: expansion_rate.amount,
        expansion_rate_decimals: expansion_rate.decimals,
        payment_contribution_rate_amount: payment_contribution_rate.amount,
        payment_contribution_rate_decimals: payment_contribution_rate.decimals,
        vote_contribution_rate_amount: vote_contribution_rate.amount,
        vote_contribution_rate_decimals: vote_contribution_rate.decimals,
        authority: ctx.authority,
        mint: ctx.mint,
        vote_deposit: ctx.vote_deposit,
        uri,
    }
}

/// A charter must be stored at the address derived for its governance mint.
pub open spec fn spec_init_charter_checks(ctx: InitCharter, derived: Derived) -> Result<
    (),
    Rejection,
> {
    if derived.record != Some(ctx.charter) {
        Err(Rejection::Constraint(ConstraintError::Seeds))
    } else {
        Ok(())
    }
}

/// The check of the creation of a charter.
pub fn init_charter_checks(ctx: &InitCharter, derived: &Derived) -> (r: Result<(), Rejection>)
    ensures
        r == spec_init_charter_checks(*ctx, *derived),
{
    if !is_derived(&ctx.charter, &derived.record) {
        Err(Rejection::Constraint(ConstraintError::Seeds))
    } else {
        Ok(())
    }
}

/// The creation of a charter, given the address derived for it: the
/// governance mint must be a mint and the vote deposit a token account, the
/// charter's address the derived one and free, and the metadata pointer no
/// longer than the charter's account has room for.
pub open spec fn spec_init_charter(
    s: State,
    ctx: InitCharter,
    charter: Charter,
    derived: Derived,
) -> Result<State, Rejection> {
    if mint_at(s, ctx.mint) is None || token_at(s, ctx.vote_deposit) is None {
        Err(Rejection::Ledger(LedgerError::AccountNotFound))
    } else {
        match spec_init_charter_checks(ctx, derived) {
            Err(e) => Err(e),
            Ok(()) => if uri_len(charter.uri) > CHARTER_URI_MAX {
                Err(Rejection::Ledger(LedgerError::DataTooLarge))
            } else {
                ledger_step(spec_open(s, ctx.charter, AccountData::Charter(charter)))
            },
        }
    }
}

/// Creates a charter, given the address derived for it. A creation that is
/// turned down leaves the ledger as it was.
pub fn init_charter_with(
    ledger: &mut Ledger,
    ctx: &InitCharter,
    expansion_rate: Rate,
    payment_contribution_rate: Rate,
    vote_contribution_rate: Rate,
    uri: String,
    derived: &Derived,
) -> (r: Result<(), Rejection>)
    ensures
        outcome(
            old(ledger)@,
            final(ledger)@,
            r,
            spec_init_charter(
                old(ledger)@,
                *ctx,
                spec_new_charter(
                    *ctx,
                    expansion_rate,
                    payment_contribution_rate,
                    vote_contribution_rate,
                    uri,
                ),
                *derived,
            ),
        ),
{
    if ledger.mint(&ctx.mint).is_none() || ledger.token_account(&ctx.vote_deposit).is_none() {
        return Err(Rejection::Ledger(LedgerError::AccountNotFound));
    }
    match init_charter_checks(ctx, derived) {
        Ok(()) => {},
        Err(e) => { return Err(e); },
    }
    if !uri_fits(&uri, CHARTER_URI_MAX) {
        return Err(Rejection::Ledger(LedgerError::DataTooLarge));
    }
    let charter = Charter {
        is_initialized: true,
        expansion_rate_amount: expansion_rate.amount,
        expansion_rate_decimals: expansion_rate.decimals,
        payment_contribution_rate_amount: payment_contribution_rate.amount,
        payment_contribution_rate_decimals: payment_contribution_rate.decimals,
        vote_contribution_rate_amount: vote_contribution_rate.amount,
        vote_contribution_rate_decimals: vote_contribution_rate.decimals,
        authority: ctx.authority,
        mint: ctx.mint,
        vote_deposit: ctx.vote_deposit,
        uri,
    };
    refused(ledger.open(&ctx.charter, AccountData::Charter(charter)))
}

/// The address that the creation of a charter derives: the canonical one of
/// the governance mint.
pub open spec fn spec_init_charter_derived(ctx: InitCharter) -> Derived {
    Derived {
        record: match spec_find_for(Domain::Charter, ctx.mint) {
            Some((a, _)) => Some(a),
            None => None,
        },
        listing_mint_authority: None,
        charter_mint_authority: None,
        escrow_authority: None,
    }
}

/// Derives the address that the creation of a charter needs.
pub fn init_charter_derived(ctx: &InitCharter) -> (d: Derived)
    ensures
        d == spec_init_charter_derived(*ctx),
{
    Derived {
        record: match find_for(Domain::Charter, &ctx.mint) {
            Some((a, _)) => Some(a),
            None => None,
        },
        listing_mint_authority: None,
        charter_mint_authority: None,
        escrow_authority: None,
    }
}

/// Creates the charter of a governance mint, with its three rates. The
/// charter's bump seed is not used: its address is the canonical one of the
/// mint. A creation that is turned down leaves the ledger as it was.
pub fn init_charter(
    ledger: &mut Ledger,
    ctx: &InitCharter,
    _charter_bump: u8,
    expansion_rate_amount: u64,
    expansion_rate_decimals: u8,
    sol_contribution_rate_amount: u64,
    sol_contribution_rate_decimals: u8,
    vote_contribution_rate_amount: u64,
    vote_contribution_rate_decimals: u8,
    uri: String,
) -> (r: Result<(), Rejection>)
    ensures
        outcome(
            old(ledger)@,
            final(ledger)@,
            r,
            spec_init_charter(
                old(ledger)@,
                *ctx,
                spec_new_charter(
                    *ctx,
                    Rate { amount: expansion_rate_amount, decimals: expansion_rate_decimals },
                    Rate {
                        amount: sol_contribution_rate_amount,
                        decimals: sol_contribution_rate_decimals,
                    },
                    Rate {
                        amount: vote_contribution_rate_amount,
                        decimals: vote_contribution_rate_decimals,
                    },
                    uri,
                ),
                spec_init_charter_derived(*ctx),
            ),
        ),
{
    let derived = init_charter_derived(ctx);
    init_charter_with(
        ledger,
        ctx,
        Rate::new(expansion_rate_amount, expansion_rate_decimals),
        Rate::new(sol_contribution_rate_amount, sol_contribution_rate_decimals),
        Rate::new(vote_contribution_rate_amount, vote_contribution_rate_decimals),
        uri,
        &derived,
    )
}

/// The charter at an address, for a caller who must be its authority.
pub open spec fn spec_charter_for(s: State, charter: Address, user: Address) -> Result<
    Charter,
    Rejection,
> {
    match charter_at(s, charter) {
        Some(c) => match authorized(c.authority, user) {
            Ok(()) => Ok(c),
            Err(e) => Err(e),
        },
        None => Err(Rejection::Ledger(LedgerError::AccountNotFound)),
    }
}

/// The charter at an address, for a caller who must be its authority.
pub fn charter_for(ledger: &Ledger, charter: &Address, user: &Address) -> (r: Result<
    Charter,
    Rejection,
>)
    ensures
        r == spec_charter_for(ledger@, *charter, *user),
{
    match ledger.charter(charter) {
        Some(c) => match c.authorize(user) {
            Ok(()) => Ok(c),
            Err(e) => Err(e),
        },
        None => Err(Rejection::Ledger(LedgerError::AccountNotFound)),
    }
}

/// The ledger in which the charter at `a` is `charter`, or the rejection
/// that came in its place.
pub open spec fn stored_charter(s: State, a: Address, charter: Result<Charter, Rejection>) -> Result<
    State,
    Rejection,
> {
    match charter {
        Ok(c) => Ok(with_data(s, a, AccountData::Charter(c))),
        Err(e) => Err(e),
    }
}

/// A change of the expansion rate.
pub open spec fn spec_set_charter_expansion_rate(
    s: State,
    ctx: SetCharter,
    expansion_rate_amount: u64,
    expansion_rate_decimals: u8,
) -> Result<State, Rejection> {
    stored_charter(
        s,
        ctx.charter,
        match spec_charter_for(s, ctx.charter, ctx.user) {
            Ok(c) => Ok(Charter { expansion_rate_amount, expansion_rate_decimals, ..c }),
            Err(e) => Err(e),
        },
    )
}

/// Sets the expansion rate of a charter. Only the charter's authority may.
pub fn set_charter_expansion_rate(
    ledger: &mut Ledger,
    ctx: &SetCharter,
    expansion_rate_amount: u64,
    expansion_rate_decimals: u8,
) -> (r: Result<(), Rejection>)
    ensures
        outcome(
            old(ledger)@,
            final(ledger)@,
            r,
            spec_set_charter_expansion_rate(
                old(ledger)@,
                *ctx,
                expansion_rate_amount,
                expansion_rate_decimals,
            ),
        ),
{
    match charter_for(ledger, &ctx.charter, &ctx.user) {
        Ok(c) => {
            ledger.set_data(
                ctx.charter,
                AccountData::Charter(
                    Charter { expansion_rate_amount, expansion_rate_decimals, ..c },
                ),
            );
            Ok(())
        },
        Err(e) => Err(e),
    }
}

/// A change of the two contribution rates.
pub open spec fn spec_set_charter_contribution_rate(
    s: State,
    ctx: SetCharter,
    payment: Rate,
    vote: Rate,
) -> Result<State, Rejection> {
    stored_charter(
        s,
        ctx.charter,
        match spec_charter_for(s, ctx.charter, ctx.user) {
            Ok(c) => Ok(
                Charter {
                    payment_contribution_rate_amount: payment.amount,
                    payment_contribution_rate_decimals: payment.decimals,
                    vote_contribution_rate_amount: vote.amount,
                    vote_contribution_rate_decimals: vote.decimals,
                    ..c
                },
            ),
            Err(e) => Err(e),
        },
    )
}

/// Sets the two contribution rates of a charter. Only the charter's
/// authority may.
pub fn set_charter_contribution_rate(
    ledger: &mut Ledger,
    ctx: &SetCharter,
    sol_contribution_rate_amount: u64,
    sol_contribution_rate_decimals: u8,
    vote_contribution_rate_amount: u64,
    vote_contribution_rate_decimals: u8,
) -> (r: Result<(), Rejection>)
    ensures
        outcome(
            old(ledger)@,
            final(ledger)@,
            r,
            spec_set_charter_contribution_rate(
                old(ledger)@,
                *ctx,
                Rate {
                    amount: sol_contribution_rate_amount,
                    decimals: sol_contribution_rate_decimals,
                },
                Rate {
                    amount: vote_contribution_rate_amount,
                    decimals: vote_contribution_rate_decimals,
                },
            ),
        ),
{
    match charter_for(ledger, &ctx.charter, &ctx.user) {
        Ok(c) => {
            ledger.set_data(
                ctx.charter,
                AccountData::Charter(
                    Charter {
                        payment_contribution_rate_amount: sol_contribution_rate_amount,
                        payment_contribution_rate_decimals: sol_contribution_rate_decimals,
                        vote_contribution_rate_amount,
                        vote_contribution_rate_decimals,
                        ..c
                    },
                ),
            );
            Ok(())
        },
        Err(e) => Err(e),
    }
}

/// A change of hands.
pub open spec fn spec_set_charter_authority(s: State, ctx: SetCharterAuthority) -> Result<
    State,
    Rejection,
> {
    stored_charter(
        s,
        ctx.charter,
        match spec_charter_for(s, ctx.charter, ctx.user) {
            Ok(c) => Ok(Charter { authority: ctx.authority, ..c }),
            Err(e) => Err(e),
        },
    )
}

/// Hands a charter to another authority. Only the charter's authority may.
pub fn set_charter_authority(ledger: &mut Ledger, ctx: &SetCharterAuthority) -> (r: Result<
    (),
    Rejection,
>)
    ensures
        outcome(old(ledger)@, final(ledger)@, r, spec_set_charter_authority(old(ledger)@, *ctx)),
{
    match charter_for(ledger, &ctx.charter, &ctx.user) {
        Ok(c) => {
            ledger.set_data(
                ctx.charter,
                AccountData::Charter(Charter { authority: ctx.authority, ..c }),
            );
            Ok(())
        },
        Err(e) => Err(e),
    }
}

/// A change of the community's vote deposit, which must be a token account.
pub open spec fn spec_set_charter_vote_deposit(s: State, ctx: SetCharterVoteDeposit) -> Result<
    State,
    Rejection,
> {
    if token_at(s, ctx.vote_deposit) is None {
        Err(Rejection::Ledger(LedgerError::AccountNotFound))
    } else {
        stored_charter(
            s,
            ctx.charter,
            match spec_charter_for(s, ctx.charter, ctx.user) {
                Ok(c) => Ok(Charter { vote_deposit: ctx.vote_deposit, ..c }),
                Err(e) => Err(e),
            },
        )
    }
}

/// Sets the community's vote deposit of a charter. Only the charter's
/// authority may.
pub fn set_charter_vote_deposit(ledger: &mut Ledger, ctx: &SetCharterVoteDeposit) -> (r: Result<
    (),
    Rejection,
>)
    ensures
        outcome(
            old(ledger)@,
            final(ledger)@,
            r,
            spec_set_charter_vote_deposit(old(ledger)@, *ctx),
        ),
{
    if ledger.token_account(&ctx.vote_deposit).is_none() {
        return Err(Rejection::Ledger(LedgerError::AccountNotFound));
    }
    match charter_for(ledger, &ctx.charter, &ctx.user) {
        Ok(c) => {
            ledger.set_data(
                ctx.charter,
                AccountData::Charter(Charter { vote_deposit: ctx.vote_deposit, ..c }),
            );
            Ok(())
        },
        Err(e) => Err(e),
    }
}

/// A treasury's deposit must be held in the treasury's currency.
pub open spec fn spec_deposit_checks(deposit: TokenAccount, mint: Address) -> Result<(), Rejection> {
    if deposit.mint != mint {
        Err(Rejection::Constraint(ConstraintError::Currency))
    } else {
        Ok(())
    }
}

/// Lets a deposit through where it is held in the currency of `mint`.
pub fn deposit_checks(deposit: &TokenAccount, mint: &Address) -> (r: Result<(), Rejection>)
    ensures
        r == spec_deposit_checks(*deposit, *mint),
{
    if deposit.mint != *mint {
        Err(Rejection::Constraint(ConstraintError::Currency))
    } else {
        Ok(())
    }
}

/// Why the creation of a treasury is turned down before anything is stored,
/// if it is.
pub open spec fn spec_init_charter_treasury_checks(
    ctx: InitCharterTreasury,
    charter: Charter,
    deposit: TokenAccount,
    derived: Derived,
) -> Result<(), Rejection> {
    if charter.authority != ctx.authority {
        Err(Rejection::Program(StrangemoodError::UnauthorizedAuthority))
    } else if deposit.mint != ctx.mint {
        Err(Rejection::Constraint(ConstraintError::Currency))
    } else if derived.record != Some(ctx.treasury) {
        Err(Rejection::Constraint(ConstraintError::Seeds))
    } else {
        Ok(())
    }
}

/// The checks of the creation of a treasury, on the charter and the deposit
/// that it names.
pub fn init_charter_treasury_checks(
    ctx: &InitCharterTreasury,
    charter: &Charter,
    deposit: &TokenAccount,
    derived: &Derived,
) -> (r: Result<(), Rejection>)
    ensures
        r == spec_init_charter_treasury_checks(*ctx, *charter, *deposit, *derived),
{
    if charter.authority != ctx.authority {
        Err(Rejection::Program(StrangemoodError::UnauthorizedAuthority))
    } else if deposit.mint != ctx.mint {
        Err(Rejection::Constraint(ConstraintError::Currency))
    } else if !is_derived(&ctx.treasury, &derived.record) {
        Err(Rejection::Constraint(ConstraintError::Seeds))
    } else {
        Ok(())
    }
}

/// The treasury that its creation writes.
pub open spec fn spec_new_treasury(ctx: InitCharterTreasury, scalar: Rate) -> CharterTreasury {
    CharterTreasury {
        is_initialized: true,
        charter: ctx.charter,
        deposit: ctx.deposit,
        mint: ctx.mint,
        expansion_scalar_amount: scalar.amount,
        expansion_scalar_decimals: scalar.decimals,
    }
}

/// The creation of a treasury, given the address derived for it: the ledger
/// afterwards, or why the creation is turned down.
pub open spec fn spec_init_charter_treasury(
    s: State,
    ctx: InitCharterTreasury,
    scalar: Rate,
    derived: Derived,
) -> Result<State, Rejection> {
    match (charter_at(s, ctx.charter), token_at(s, ctx.deposit), mint_at(s, ctx.mint)) {
        (Some(charter), Some(deposit), Some(_)) => match spec_init_charter_treasury_checks(
            ctx,
            charter,
            deposit,
            derived,
        ) {
            Err(e) => Err(e),
            Ok(()) => ledger_step(
                spec_open(s, ctx.treasury, AccountData::Treasury(spec_new_treasury(ctx, scalar))),
            ),
        },
        _ => Err(Rejection::Ledger(LedgerError::AccountNotFound)),
    }
}

/// Creates a treasury, given the address derived for it. A creation that is
/// turned down leaves the ledger as it was.
pub fn init_charter_treasury_with(
    ledger: &mut Ledger,
    ctx: &InitCharterTreasury,
    scalar: Rate,
    derived: &Derived,
) -> (r: Result<(), Rejection>)
    ensures
        outcome(
            old(ledger)@,
            final(ledger)@,
            r,
            spec_init_charter_treasury(old(ledger)@, *ctx, scalar, *derived),
        ),
{
    let (charter, deposit) = match (
        ledger.charter(&ctx.charter),
        ledger.token_account(&ctx.deposit),
        ledger.mint(&ctx.mint),
    ) {
        (Some(charter), Some(deposit), Some(_)) => (charter, deposit),
        _ => { return Err(Rejection::Ledger(LedgerError::AccountNotFound)); },
    };
    match init_charter_treasury_checks(ctx, &charter, &deposit, derived) {
        Ok(()) => {},
        Err(e) => { return Err(e); },
    }
    let treasury = CharterTreasury {
        is_initialized: true,
        charter: ctx.charter,
        deposit: ctx.deposit,
        mint: ctx.mint,
        expansion_scalar_amount: scalar.amount,
        expansion_scalar_decimals: scalar.decimals,
    };
    refused(ledger.open(&ctx.treasury, AccountData::Treasury(treasury)))
}

/// The address that the creation of a treasury derives: the canonical one of
/// the charter and the currency.
pub open spec fn spec_init_charter_treasury_derived(ctx: InitCharterTreasury) -> Derived {
    Derived {
        record: match spec_find(treasury_seeds(ctx.charter, ctx.mint)) {
            Some((a, _)) => Some(a),
            None => None,
        },
        listing_mint_authority: None,
        charter_mint_authority: None,
        escrow_authority: None,
    }
}

/// Derives the address that the creation of a treasury needs.
pub fn init_charter_treasury_derived(ctx: &InitCharterTreasury) -> (d: Derived)
    ensures
        d == spec_init_charter_treasury_derived(*ctx),
{
    Derived {
        record: match treasury_address(&ctx.charter, &ctx.mint) {
            Some((a, _)) => Some(a),
            None => None,
        },
        listing_mint_authority: None,
        charter_mint_authority: None,
        escrow_authority: None,
    }
}

/// Creates the treasury of a charter for one currency. Only the charter's
/// authority may. The treasury's bump seed is not used: its address is the
/// canonical one of the charter and the currency. A creation that is turned
/// down leaves the ledger as it was.
pub fn init_charter_treasury(
    ledger: &mut Ledger,
    ctx: &InitCharterTreasury,
    _treasury_bump: u8,
    expansion_scalar_amount: u64,
    expansion_scalar_decimals: u8,
) -> (r: Result<(), Rejection>)
    ensures
        outcome(
            old(ledger)@,
            final(ledger)@,
            r,
            spec_init_charter_treasury(
                old(ledger)@,
                *ctx,
                Rate { amount: expansion_scalar_amount, decimals: expansion_scalar_decimals },
                spec_init_charter_treasury_derived(*ctx),
            ),
        ),
{
    let derived = init_charter_treasury_derived(ctx);
    init_charter_treasury_with(
        ledger,
        ctx,
        Rate::new(expansion_scalar_amount, expansion_scalar_decimals),
        &derived,
    )
}

/// The treasury at an address, for a caller who must be the authority of
/// the charter that the treasury belongs to.
pub open spec fn spec_treasury_for(
    s: State,
    treasury: Address,
    charter: Address,
    authority: Address,
) -> Result<CharterTreasury, Rejection> {
    match (treasury_at(s, treasury), charter_at(s, charter)) {
        (Some(t), Some(c)) => match t.spec_authorize(charter, c, authority) {
            Ok(()) => Ok(t),
            Err(e) => Err(e),
        },
        _ => Err(Rejection::Ledger(LedgerError::AccountNotFound)),
    }
}

/// The treasury at an address, for a caller who must be the authority of
/// the charter that the treasury belongs to.
pub fn treasury_for(ledger: &Ledger, treasury: &Address, charter: &Address, authority: &Address) -> (r:
    Result<CharterTreasury, Rejection>)
    ensures
        r == spec_treasury_for(ledger@, *treasury, *charter, *authority),
{
    match (ledger.treasury(treasury), ledger.charter(charter)) {
        (Some(t), Some(c)) => match t.authorize(charter, &c, authority) {
            Ok(()) => Ok(t),
            Err(e) => Err(e),
        },
        _ => Err(Rejection::Ledger(LedgerError::AccountNotFound)),
    }
}

/// A change of a treasury's expansion scalar.
pub open spec fn spec_set_charter_treasury_expansion_scalar(
    s: State,
    ctx: SetCharterTreasuryExpansionScalar,
    expansion_scalar_amount: u64,
    expansion_scalar_decimals: u8,
) -> Result<State, Rejection> {
    match spec_treasury_for(s, ctx.treasury, ctx.charter, ctx.authority) {
        Ok(t) => Ok(
            with_data(
                s,
                ctx.treasury,
                AccountData::Treasury(
                    CharterTreasury { expansion_scalar_amount, expansion_scalar_decimals, ..t },
                ),
            ),
        ),
        Err(e) => Err(e),
    }
}

/// Sets the expansion scalar of a treasury. Only the authority of the
/// treasury's charter may.
pub fn set_charter_treasury_expansion_scalar(
    ledger: &mut Ledger,
    ctx: &SetCharterTreasuryExpansionScalar,
    expansion_scalar_amount: u64,
    expansion_scalar_decimals: u8,
) -> (r: Result<(), Rejection>)
    ensures
        outcome(
            old(ledger)@,
            final(ledger)@,
            r,
            spec_set_charter_treasury_expansion_scalar(
                old(ledger)@,
                *ctx,
                expansion_scalar_amount,
                expansion_scalar_decimals,
            ),
        ),
{
    match treasury_for(ledger, &ctx.treasury, &ctx.charter, &ctx.authority) {
        Ok(t) => {
            ledger.set_data(
                ctx.treasury,
                AccountData::Treasury(
                    CharterTreasury { expansion_scalar_amount, expansion_scalar_decimals, ..t },
                ),
            );
            Ok(())
        },
        Err(e) => Err(e),
    }
}

/// A change of a treasury's deposit, which must be a token account of the
/// mint supplied.
pub open spec fn spec_set_charter_treasury_deposit(
    s: State,
    ctx: SetCharterTreasuryDeposit,
) -> Result<State, Rejection> {
    match (token_at(s, ctx.deposit), mint_at(s, ctx.mint)) {
        (Some(deposit), Some(_)) => match spec_treasury_for(
            s,
            ctx.treasury,
            ctx.charter,
            ctx.authority,
        ) {
            Ok(t) => match spec_deposit_checks(deposit, ctx.mint) {
                Err(e) => Err(e),
                Ok(()) => Ok(
                    with_data(
                        s,
                        ctx.treasury,
                        AccountData::Treasury(CharterTreasury { deposit: ctx.deposit, ..t }),
                    ),
                ),
            },
            Err(e) => Err(e),
        },
        _ => Err(Rejection::Ledger(LedgerError::AccountNotFound)),
    }
}

/// Sets the deposit of a treasury. Only the authority of the treasury's
/// charter may.
pub fn set_charter_treasury_deposit(ledger: &mut Ledger, ctx: &SetCharterTreasuryDeposit) -> (r:
    Result<(), Rejection>)
    ensures
        outcome(
            old(ledger)@,
            final(ledger)@,
            r,
            spec_set_charter_treasury_deposit(old(ledger)@, *ctx),
        ),
{
    let deposit = match (ledger.token_account(&ctx.deposit), ledger.mint(&ctx.mint)) {
        (Some(deposit), Some(_)) => deposit,
        _ => { return Err(Rejection::Ledger(LedgerError::AccountNotFound)); },
    };
    match treasury_for(ledger, &ctx.treasury, &ctx.charter, &ctx.authority) {
        Ok(t) => {
            match deposit_checks(&deposit, &ctx.mint) {
                Ok(()) => {},
                Err(e) => { return Err(e); },
            }
            ledger.set_data(
                ctx.treasury,
                AccountData::Treasury(CharterTreasury { deposit: ctx.deposit, ..t }),
            );
            Ok(())
        },
        Err(e) => Err(e),
    }
}

} // verus!
