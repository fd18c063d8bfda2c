use crate::address::Address;
use crate::authority::{is_derived, resolve, spec_resolve, Domain};
use crate::error::LedgerError;
use crate::ledger::{
    outcome, spec_burn, spec_close_native, spec_close_token, spec_credit, spec_debit, spec_freeze,
    spec_mint_to, spec_open_token, spec_transfer, with_data, AccountData, Ledger, State,
};
use vstd::prelude::*;

verus! {

/// What an operation gives that is carried out on the word of a derived
/// authority: it is refused unless `authority` is the address derived, and is
/// `then` otherwise.
pub open spec fn signed(
    derived: Option<Address>,
    authority: Address,
    then: Result<State, LedgerError>,
) -> Result<State, LedgerError> {
    if derived == Some(authority) {
        then
    } else {
        Err(LedgerError::InvalidSeeds)
    }
}

/// Lets `authority` act where it is the address that the derivation gave.
pub fn authorize(authority: &Address, derived: &Option<Address>) -> (r: Result<(), LedgerError>)
    ensures
        r == if *derived == Some(*authority) {
            Ok::<(), LedgerError>(())
        } else {
            Err::<(), LedgerError>(LedgerError::InvalidSeeds)
        },
{
    if is_derived(authority, derived) {
        Ok(())
    } else {
        Err(LedgerError::InvalidSeeds)
    }
}

/// Minting and then freezing the account minted to.
pub open spec fn spec_mint_to_and_freeze(
    s: State,
    mint: Address,
    to: Address,
    authority: Address,
    amount: u64,
) -> Result<State, LedgerError> {
    match spec_mint_to(s, mint, to, authority, amount) {
        Ok(minted) => spec_freeze(minted, mint, to, authority),
        Err(e) => Err(e),
    }
}

/// Mints `amount` tokens of `mint` to `to` and freezes `to`, both or
/// neither, on the word of an authority that the caller has authenticated.
pub fn mint_and_freeze(
    ledger: &mut Ledger,
    mint: &Address,
    to: &Address,
    authority: &Address,
    amount: u64,
) -> (r: Result<(), LedgerError>)
    ensures
        outcome(
            old(ledger)@,
            final(ledger)@,
            r,
            spec_mint_to_and_freeze(old(ledger)@, *mint, *to, *authority, amount),
        ),
{
    let mut work = ledger.snapshot();
    match work.mint_to(mint, to, authority, amount) {
        Ok(()) => {},
        Err(e) => { return Err(e); },
    }
    match work.freeze_account(mint, to, authority) {
        Ok(()) => {},
        Err(e) => { return Err(e); },
    }
    *ledger = work;
    Ok(())
}

/// Mints `amount` tokens of `mint` to `to` and freezes `to`, both or
/// neither, on the word of the mint's derived authority.
pub fn mint_to_and_freeze(
    ledger: &mut Ledger,
    mint: &Address,
    to: &Address,
    authority: &Address,
    bump: u8,
    amount: u64,
) -> (r: Result<(), LedgerError>)
    ensures
        outcome(
            old(ledger)@,
            final(ledger)@,
            r,
            signed(
                spec_resolve(Domain::Mint, *mint, bump),
                *authority,
                spec_mint_to_and_freeze(old(ledger)@, *mint, *to, *authority, amount),
            ),
        ),
{
    match authorize(authority, &resolve(Domain::Mint, mint, bump)) {
        Ok(()) => mint_and_freeze(ledger, mint, to, authority, amount),
        Err(e) => Err(e),
    }
}

/// Mints `amount` tokens of `mint` to `to`, on the word of the mint's derived
/// authority.
pub fn mint_to(
    ledger: &mut Ledger,
    mint: &Address,
    to: &Address,
    authority: &Address,
    bump: u8,
    amount: u64,
) -> (r: Result<(), LedgerError>)
    ensures
        outcome(
            old(ledger)@,
            final(ledger)@,
            r,
            signed(
                spec_resolve(Domain::Mint, *mint, bump),
                *authority,
                spec_mint_to(old(ledger)@, *mint, *to, *authority, amount),
            ),
        ),
{
    match authorize(authority, &resolve(Domain::Mint, mint, bump)) {
        Ok(()) => ledger.mint_to(mint, to, authority, amount),
        Err(e) => Err(e),
    }
}

/// Freezes `account`, on the word of the mint's derived authority.
pub fn freeze_account(
    ledger: &mut Ledger,
    mint: &Address,
    account: &Address,
    authority: &Address,
    bump: u8,
) -> (r: Result<(), LedgerError>)
    ensures
        outcome(
            old(ledger)@,
            final(ledger)@,
            r,
            signed(
                spec_resolve(Domain::Mint, *mint, bump),
                *authority,
                spec_freeze(old(ledger)@, *mint, *account, *authority),
            ),
        ),
{
    match authorize(authority, &resolve(Domain::Mint, mint, bump)) {
        Ok(()) => ledger.freeze_account(mint, account, authority),
        Err(e) => Err(e),
    }
}

/// Escrow Custodian, the opening: opens a token account of `mint` at
/// `escrow`, which must store nothing yet, under the authority derived for
/// that very address.
pub fn open_escrow(
    ledger: &mut Ledger,
    escrow: &Address,
    mint: &Address,
    authority: &Address,
    bump: u8,
) -> (r: Result<(), LedgerError>)
    ensures
        outcome(
            old(ledger)@,
            final(ledger)@,
            r,
            signed(
                spec_resolve(Domain::Escrow, *escrow, bump),
                *authority,
                spec_open_token(old(ledger)@, *escrow, *mint, *authority),
            ),
        ),
{
    match authorize(authority, &resolve(Domain::Escrow, escrow, bump)) {
        Ok(()) => ledger.open_token(escrow, mint, authority),
        Err(e) => Err(e),
    }
}

/// Escrow Custodian, the release: moves `amount` tokens out of the escrow
/// `from`, on the word of the escrow's derived authority.
pub fn token_escrow_transfer(
    ledger: &mut Ledger,
    from: &Address,
    to: &Address,
    authority: &Address,
    amount: u64,
    bump: u8,
) -> (r: Result<(), LedgerError>)
    ensures
        outcome(
            old(ledger)@,
            final(ledger)@,
            r,
            signed(
                spec_resolve(Domain::Escrow, *from, bump),
                *authority,
                spec_transfer(old(ledger)@, *from, *to, *authority, amount),
            ),
        ),
{
    match authorize(authority, &resolve(Domain::Escrow, from, bump)) {
        Ok(()) => ledger.transfer(from, to, authority, amount),
        Err(e) => Err(e),
    }
}

/// Escrow Custodian, the funding: moves `amount` tokens from `from` to `to`
/// on the word of the owner of `from`, who signed.
pub fn token_transfer(
    ledger: &mut Ledger,
    from: &Address,
    to: &Address,
    authority: &Address,
    amount: u64,
) -> (r: Result<(), LedgerError>)
    ensures
        outcome(
            old(ledger)@,
            final(ledger)@,
            r,
            spec_transfer(old(ledger)@, *from, *to, *authority, amount),
        ),
{
    ledger.transfer(from, to, authority, amount)
}

/// Destroys `amount` tokens of `mint` in `account`, on the word of the mint's
/// derived authority.
pub fn burn(
    ledger: &mut Ledger,
    mint: &Address,
    account: &Address,
    authority: &Address,
    bump: u8,
    amount: u64,
) -> (r: Result<(), LedgerError>)
    ensures
        outcome(
            old(ledger)@,
            final(ledger)@,
            r,
            signed(
                spec_resolve(Domain::Mint, *mint, bump),
                *authority,
                spec_burn(old(ledger)@, *mint, *account, *authority, amount),
            ),
        ),
{
    match authorize(authority, &resolve(Domain::Mint, mint, bump)) {
        Ok(()) => ledger.burn(mint, account, authority, amount),
        Err(e) => Err(e),
    }
}

/// Moving native balance from one account to another: first taken, then given.
pub open spec fn spec_system_transfer(
    s: State,
    from: Address,
    to: Address,
    lamports: u64,
) -> Result<State, LedgerError> {
    match spec_debit(s, from, lamports) {
        Ok(debited) => spec_credit(debited, to, lamports),
        Err(e) => Err(e),
    }
}

/// Moves `lamports` of native balance from `from`, who signed, to `to`. The
/// ledger refuses where `from` holds less, or `to` would hold more than 64
/// bits can say.
pub fn system_transfer(ledger: &mut Ledger, from: &Address, to: &Address, lamports: u64) -> (r:
    Result<(), LedgerError>)
    ensures
        outcome(
            old(ledger)@,
            final(ledger)@,
            r,
            spec_system_transfer(old(ledger)@, *from, *to, lamports),
        ),
{
    let held = ledger.lamports(from);
    if held < lamports {
        return Err(LedgerError::InsufficientFunds);
    }
    let rest = held - lamports;
    let target = if *from == *to {
        rest
    } else {
        ledger.lamports(to)
    };
    let sum = match target.checked_add(lamports) {
        Some(sum) => sum,
        None => { return Err(LedgerError::Overflow); },
    };
    ledger.set_lamports(*from, rest);
    ledger.set_lamports(*to, sum);
    Ok(())
}

/// Erases what the account stores; its balance stays.
pub fn erase_data(ledger: &mut Ledger, account: &Address)
    ensures
        final(ledger)@ == with_data(old(ledger)@, *account, AccountData::Empty),
{
    ledger.set_data(*account, AccountData::Empty);
}

/// Moving native balance between two accounts of the program: first given,
/// then taken.
pub open spec fn spec_move_lamports(
    s: State,
    source: Address,
    destination: Address,
    amount: u64,
) -> Result<State, LedgerError> {
    match spec_credit(s, destination, amount) {
        Ok(credited) => spec_debit(credited, source, amount),
        Err(e) => Err(e),
    }
}

/// Moves `amount` of native balance from `source` to `destination`. The
/// ledger refuses where `destination` would hold more than 64 bits can say,
/// or `source` holds less than `amount`.
pub fn move_lamports(ledger: &mut Ledger, source: &Address, destination: &Address, amount: u64) -> (r:
    Result<(), LedgerError>)
    ensures
        outcome(
            old(ledger)@,
            final(ledger)@,
            r,
            spec_move_lamports(old(ledger)@, *source, *destination, amount),
        ),
{
    let sum = match ledger.lamports(destination).checked_add(amount) {
        Some(sum) => sum,
        None => { return Err(LedgerError::Overflow); },
    };
    let held = if *source == *destination {
        sum
    } else {
        ledger.lamports(source)
    };
    if held < amount {
        return Err(LedgerError::InsufficientFunds);
    }
    ledger.set_lamports(*destination, sum);
    ledger.set_lamports(*source, held - amount);
    Ok(())
}

/// Closes the account at `source`: its native balance goes to
/// `destination`, and neither balance nor data is left of it.
pub fn close_native_account(ledger: &mut Ledger, source: &Address, destination: &Address) -> (r:
    Result<(), LedgerError>)
    ensures
        outcome(
            old(ledger)@,
            final(ledger)@,
            r,
            spec_close_native(old(ledger)@, *source, *destination),
        ),
{
    ledger.close_native(source, destination)
}

/// Escrow Custodian, the closing: closes the escrow `from`, which must hold
/// no tokens, on the word of its derived authority; its native balance goes
/// to `to`.
pub fn close_token_escrow_account(
    ledger: &mut Ledger,
    from: &Address,
    to: &Address,
    authority: &Address,
    bump: u8,
) -> (r: Result<(), LedgerError>)
    ensures
        outcome(
            old(ledger)@,
            final(ledger)@,
            r,
            signed(
                spec_resolve(Domain::Escrow, *from, bump),
                *authority,
                spec_close_token(old(ledger)@, *from, *to, *authority),
            ),
        ),
{
    match authorize(authority, &resolve(Domain::Escrow, from, bump)) {
        Ok(()) => ledger.close_token(from, to, authority),
        Err(e) => Err(e),
    }
}

} // verus!
