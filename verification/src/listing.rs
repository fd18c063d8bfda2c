use crate::accounts::{
    Derived, InitListing, SetListing, SetListingAuthority, SetListingCharter, SetListingDeposit,
};
use crate::address::Address;
use crate::authority::{is_derived, find_for, resolve, spec_find_for, spec_resolve, Domain};
use crate::error::{ConstraintError, LedgerError, Rejection, StrangemoodError};
use crate::ledger::{
    charter_at, listing_at, outcome, spec_open, spec_open_mint, token_at, treasury_at,
    with_data, AccountData, Ledger, State, TokenAccount,
};
use crate::records::{
    authorized, uri_fits, uri_len, Charter, CharterTreasury, Listing, LISTING_URI_MAX,
};
use crate::transition::{ledger_step, tried};
use vstd::prelude::*;

verus! {

/// Why the creation of a listing is turned down before anything is stored,
/// if it is. The checks are made in this order, and the first that fails
/// decides: the payment deposit must be of the treasury's currency, the vote
/// deposit of the charter's governance currency.
pub open spec fn spec_init_listing_checks(
    ctx: InitListing,
    charter: Charter,
    treasury: CharterTreasury,
    payment_deposit: TokenAccount,
    vote_deposit: TokenAccount,
    derived: Derived,
) -> Result<(), Rejection> {
    if payment_deposit.mint != treasury.mint {
        Err(Rejection::Program(StrangemoodError::MintNotSupported))
    } else if vote_deposit.mint != charter.mint {
        Err(Rejection::Program(StrangemoodError::MintNotSupported))
    } else if treasury.charter != ctx.charter {
        Err(Rejection::Constraint(ConstraintError::Treasury))
    } else if derived.record != Some(ctx.listing) || derived.listing_mint_authority != Some(
        ctx.mint_authority_pda,
    ) {
        Err(Rejection::Constraint(ConstraintError::Seeds))
    } else {
        Ok(())
    }
}

/// The checks of the creation of a listing, on the records and accounts
/// that it names.
pub fn init_listing_checks(
    ctx: &InitListing,
    charter: &Charter,
    treasury: &CharterTreasury,
    payment_deposit: &TokenAccount,
    vote_deposit: &TokenAccount,
    derived: &Derived,
) -> (r: Result<(), Rejection>)
    ensures
        r == spec_init_listing_checks(
            *ctx,
            *charter,
            *treasury,
            *payment_deposit,
            *vote_deposit,
            *derived,
        ),
{
    if payment_deposit.mint != treasury.mint {
        Err(Rejection::Program(StrangemoodError::MintNotSupported))
    } else if vote_deposit.mint != charter.mint {
        Err(Rejection::Program(StrangemoodError::MintNotSupported))
    } else if treasury.charter != ctx.charter {
        Err(Rejection::Constraint(ConstraintError::Treasury))
    } else if !is_derived(&ctx.listing, &derived.record) || !is_derived(&ctx.mint_authority_pda, &derived.listing_mint_authority) {
        Err(Rejection::Constraint(ConstraintError::Seeds))
    } else {
        Ok(())
    }
}

/// The listing that its creation writes.
pub open spec fn spec_new_listing(
    ctx: InitListing,
    price: u64,
    refundable: bool,
    consumable: bool,
    available: bool,
    uri: String,
) -> Listing {
    Listing {
        is_initialized: true,
        is_available: available,
        charter: ctx.charter,
        authority: ctx.user,
        payment_deposit: ctx.payment_deposit,
        vote_deposit: ctx.vote_deposit,
        price,
        mint: ctx.mint,
        uri,
        is_refundable: refundable,
        is_consumable: consumable,
    }
}

/// The listing is stored and the mint of its claim tokens opened, both at
/// addresses that store nothing yet.
pub open spec fn spec_init_listing_effects(
    s: State,
    ctx: InitListing,
    decimals: u8,
    listing: Listing,
) -> Result<State, LedgerError> {
    match spec_open(s, ctx.listing, AccountData::Listing(listing)) {
        Ok(stored) => spec_open_mint(stored, ctx.mint, decimals, ctx.mint_authority_pda),
        Err(e) => Err(e),
    }
}

/// The creation of a listing, given the addresses derived for it: the ledger
/// afterwards, or why the creation is turned down. A listing whose metadata
/// pointer is longer than its account has room for is not created.
pub open spec fn spec_init_listing(
    s: State,
    ctx: InitListing,
    decimals: u8,
    listing: Listing,
    derived: Derived,
) -> Result<State, Rejection> {
    match (
        charter_at(s, ctx.charter),
        treasury_at(s, ctx.charter_treasury),
        token_at(s, ctx.payment_deposit),
        token_at(s, ctx.vote_deposit),
    ) {
        (Some(charter), Some(treasury), Some(payment_deposit), Some(vote_deposit)) => {
            match spec_init_listing_checks(
                ctx,
                charter,
                treasury,
                payment_deposit,
                vote_deposit,
                derived,
            ) {
                Err(e) => Err(e),
                Ok(()) => if uri_len(listing.uri) > LISTING_URI_MAX {
                    Err(Rejection::Ledger(LedgerError::DataTooLarge))
                } else {
                    ledger_step(spec_init_listing_effects(s, ctx, decimals, listing))
                },
            }
        },
        _ => Err(Rejection::Ledger(LedgerError::AccountNotFound)),
    }
}

fn init_listing_effects(work: &mut Ledger, ctx: &InitListing, decimals: u8, listing: Listing) -> (r:
    Result<(), LedgerError>)
    ensures
        tried(final(work)@, r, spec_init_listing_effects(old(work)@, *ctx, decimals, listing)),
{
    match work.open(&ctx.listing, AccountData::Listing(listing)) {
        Ok(()) => work.open_mint(&ctx.mint, decimals, &ctx.mint_authority_pda),
        Err(e) => Err(e),
    }
}

/// Creates a listing, given the addresses derived for it. Either the listing
/// and its mint are both there afterwards, or the creation is turned down
/// and the ledger is as it was.
pub fn init_listing_with(
    ledger: &mut Ledger,
    ctx: &InitListing,
    decimals: u8,
    price: u64,
    refundable: bool,
    consumable: bool,
    available: bool,
    uri: String,
    derived: &Derived,
) -> (r: Result<(), Rejection>)
    ensures
        outcome(
            old(ledger)@,
            final(ledger)@,
            r,
            spec_init_listing(
                old(ledger)@,
                *ctx,
                decimals,
                spec_new_listing(*ctx, price, refundable, consumable, available, uri),
                *derived,
            ),
        ),
{
    let (charter, treasury, payment_deposit, vote_deposit) = match (
        ledger.charter(&ctx.charter),
        ledger.treasury(&ctx.charter_treasury),
        ledger.token_account(&ctx.payment_deposit),
        ledger.token_account(&ctx.vote_deposit),
    ) {
        (Some(charter), Some(treasury), Some(payment_deposit), Some(vote_deposit)) => (
            charter,
            treasury,
            payment_deposit,
            vote_deposit,
        ),
        _ => { return Err(Rejection::Ledger(LedgerError::AccountNotFound)); },
    };
    match init_listing_checks(ctx, &charter, &treasury, &payment_deposit, &vote_deposit, derived) {
        Ok(()) => {},
        Err(e) => { return Err(e); },
    }
    if !uri_fits(&uri, LISTING_URI_MAX) {
        return Err(Rejection::Ledger(LedgerError::DataTooLarge));
    }
    let listing = Listing {
        is_initialized: true,
        is_available: available,
        charter: ctx.charter,
        authority: ctx.user,
        payment_deposit: ctx.payment_deposit,
        vote_deposit: ctx.vote_deposit,
        price,
        mint: ctx.mint,
        uri,
        is_refundable: refundable,
        is_consumable: consumable,
    };
    let mut work = ledger.snapshot();
    match init_listing_effects(&mut work, ctx, decimals, listing) {
        Ok(()) => {
            *ledger = work;
            Ok(())
        },
        Err(e) => Err(Rejection::Ledger(e)),
    }
}

/// The addresses that the creation of a listing derives: the listing's, the
/// canonical one of its mint, and the mint's authority from its bump seed.
pub open spec fn spec_init_listing_derived(ctx: InitListing, mint_bump: u8) -> Derived {
    Derived {
        record: match spec_find_for(Domain::Listing, ctx.mint) {
            Some((a, _)) => Some(a),
            None => None,
        },
        listing_mint_authority: spec_resolve(Domain::Mint, ctx.mint, mint_bump),
        charter_mint_authority: None,
        escrow_authority: None,
    }
}

/// Derives the addresses that the creation of a listing needs.
pub fn init_listing_derived(ctx: &InitListing, mint_bump: u8) -> (d: Derived)
    ensures
        d == spec_init_listing_derived(*ctx, mint_bump),
{
    Derived {
        record: match find_for(Domain::Listing, &ctx.mint) {
            Some((a, _)) => Some(a),
            None => None,
        },
        listing_mint_authority: resolve(Domain::Mint, &ctx.mint, mint_bump),
        charter_mint_authority: None,
        escrow_authority: None,
    }
}

/// Creates a listing with its own mint of claim tokens, which obeys the
/// mint's derived authority. The caller becomes the listing's authority. The
/// listing's bump seed is not used: its address is the canonical one of the
/// mint. Either the listing and its mint are both there afterwards, or the
/// creation is turned down and the ledger is as it was.
pub fn init_listing(
    ledger: &mut Ledger,
    ctx: &InitListing,
    mint_bump: u8,
    _listing_bump: u8,
    decimals: u8,
    price: u64,
    refundable: bool,
    consumable: bool,
    available: bool,
    uri: String,
) -> (r: Result<(), Rejection>)
    ensures
        outcome(
            old(ledger)@,
            final(ledger)@,
            r,
            spec_init_listing(
                old(ledger)@,
                *ctx,
                decimals,
                spec_new_listing(*ctx, price, refundable, consumable, available, uri),
                spec_init_listing_derived(*ctx, mint_bump),
            ),
        ),
{
    let derived = init_listing_derived(ctx, mint_bump);
    init_listing_with(
        ledger,
        ctx,
        decimals,
        price,
        refundable,
        consumable,
        available,
        uri,
        &derived,
    )
}

/// The listing at an address, for a caller who must be its authority.
pub open spec fn spec_listing_for(s: State, listing: Address, user: Address) -> Result<
    Listing,
    Rejection,
> {
    match listing_at(s, listing) {
        Some(l) => match authorized(l.authority, user) {
            Ok(()) => Ok(l),
            Err(e) => Err(e),
        },
        None => Err(Rejection::Ledger(LedgerError::AccountNotFound)),
    }
}

/// The listing at an address, for a caller who must be its authority.
pub fn listing_for(ledger: &Ledger, listing: &Address, user: &Address) -> (r: Result<
    Listing,
    Rejection,
>)
    ensures
        r == spec_listing_for(ledger@, *listing, *user),
{
    match ledger.listing(listing) {
        Some(l) => match l.authorize(user) {
            Ok(()) => Ok(l),
            Err(e) => Err(e),
        },
        None => Err(Rejection::Ledger(LedgerError::AccountNotFound)),
    }
}

/// The ledger in which the listing at `a` is `listing`, or the rejection
/// that came in its place.
pub open spec fn stored_listing(s: State, a: Address, listing: Result<Listing, Rejection>) -> Result<
    State,
    Rejection,
> {
    match listing {
        Ok(l) => Ok(with_data(s, a, AccountData::Listing(l))),
        Err(e) => Err(e),
    }
}

/// A change of price: only the listing's price is another afterwards.
/// Receipts written before keep the price that they were written with.
pub open spec fn spec_set_listing_price(s: State, ctx: SetListing, price: u64) -> Result<
    State,
    Rejection,
> {
    stored_listing(
        s,
        ctx.listing,
        match spec_listing_for(s, ctx.listing, ctx.user) {
            Ok(l) => Ok(Listing { price, ..l }),
            Err(e) => Err(e),
        },
    )
}

/// Sets the price of a listing. Only the listing's authority may.
pub fn set_listing_price(ledger: &mut Ledger, ctx: &SetListing, price: u64) -> (r: Result<
    (),
    Rejection,
>)
    ensures
        outcome(
            old(ledger)@,
            final(ledger)@,
            r,
            spec_set_listing_price(old(ledger)@, *ctx, price),
        ),
{
    match listing_for(ledger, &ctx.listing, &ctx.user) {
        Ok(l) => {
            ledger.set_data(ctx.listing, AccountData::Listing(Listing { price, ..l }));
            Ok(())
        },
        Err(e) => Err(e),
    }
}

/// A change of the metadata pointer, which must not be longer than the
/// listing's account has room for.
pub open spec fn spec_set_listing_uri(s: State, ctx: SetListing, uri: String) -> Result<
    State,
    Rejection,
> {
    stored_listing(
        s,
        ctx.listing,
        match spec_listing_for(s, ctx.listing, ctx.user) {
            Ok(l) => if uri_len(uri) > LISTING_URI_MAX {
                Err(Rejection::Ledger(LedgerError::DataTooLarge))
            } else {
                Ok(Listing { uri, ..l })
            },
            Err(e) => Err(e),
        },
    )
}

/// Sets the metadata pointer of a listing. Only the listing's authority may.
pub fn set_listing_uri(ledger: &mut Ledger, ctx: &SetListing, uri: String) -> (r: Result<
    (),
    Rejection,
>)
    ensures
        outcome(old(ledger)@, final(ledger)@, r, spec_set_listing_uri(old(ledger)@, *ctx, uri)),
{
    match listing_for(ledger, &ctx.listing, &ctx.user) {
        Ok(l) => {
            if !uri_fits(&uri, LISTING_URI_MAX) {
                return Err(Rejection::Ledger(LedgerError::DataTooLarge));
            }
            ledger.set_data(ctx.listing, AccountData::Listing(Listing { uri, ..l }));
            Ok(())
        },
        Err(e) => Err(e),
    }
}

/// Putting a listing up for sale or taking it off.
pub open spec fn spec_set_listing_availability(
    s: State,
    ctx: SetListing,
    is_available: bool,
) -> Result<State, Rejection> {
    stored_listing(
        s,
        ctx.listing,
        match spec_listing_for(s, ctx.listing, ctx.user) {
            Ok(l) => Ok(Listing { is_available, ..l }),
            Err(e) => Err(e),
        },
    )
}

/// Puts a listing up for sale or takes it off. Only the listing's authority
/// may.
pub fn set_listing_availability(ledger: &mut Ledger, ctx: &SetListing, is_available: bool) -> (r:
    Result<(), Rejection>)
    ensures
        outcome(
            old(ledger)@,
            final(ledger)@,
            r,
            spec_set_listing_availability(old(ledger)@, *ctx, is_available),
        ),
{
    match listing_for(ledger, &ctx.listing, &ctx.user) {
        Ok(l) => {
            ledger.set_data(ctx.listing, AccountData::Listing(Listing { is_available, ..l }));
            Ok(())
        },
        Err(e) => Err(e),
    }
}

/// A change of both deposits, which must be token accounts.
pub open spec fn spec_set_listing_deposits(s: State, ctx: SetListingDeposit) -> Result<
    State,
    Rejection,
> {
    if token_at(s, ctx.payment_deposit) is None || token_at(s, ctx.vote_deposit) is None {
        Err(Rejection::Ledger(LedgerError::AccountNotFound))
    } else {
        stored_listing(
            s,
            ctx.listing,
            match spec_listing_for(s, ctx.listing, ctx.user) {
                Ok(l) => Ok(
                    Listing {
                        vote_deposit: ctx.vote_deposit,
                        payment_deposit: ctx.payment_deposit,
                        ..l
                    },
                ),
                Err(e) => Err(e),
            },
        )
    }
}

/// Sets both deposits of a listing. Only the listing's authority may.
pub fn set_listing_deposits(ledger: &mut Ledger, ctx: &SetListingDeposit) -> (r: Result<
    (),
    Rejection,
>)
    ensures
        outcome(old(ledger)@, final(ledger)@, r, spec_set_listing_deposits(old(ledger)@, *ctx)),
{
    if ledger.token_account(&ctx.payment_deposit).is_none() || ledger.token_account(
        &ctx.vote_deposit,
    ).is_none() {
        return Err(Rejection::Ledger(LedgerError::AccountNotFound));
    }
    match listing_for(ledger, &ctx.listing, &ctx.user) {
        Ok(l) => {
            ledger.set_data(
                ctx.listing,
                AccountData::Listing(
                    Listing {
                        vote_deposit: ctx.vote_deposit,
                        payment_deposit: ctx.payment_deposit,
                        ..l
                    },
                ),
            );
            Ok(())
        },
        Err(e) => Err(e),
    }
}

/// A change of hands.
pub open spec fn spec_set_listing_authority(s: State, ctx: SetListingAuthority) -> Result<
    State,
    Rejection,
> {
    stored_listing(
        s,
        ctx.listing,
        match spec_listing_for(s, ctx.listing, ctx.user) {
            Ok(l) => Ok(Listing { authority: ctx.authority, ..l }),
            Err(e) => Err(e),
        },
    )
}

/// Hands a listing to another authority. Only the listing's authority may.
pub fn set_listing_authority(ledger: &mut Ledger, ctx: &SetListingAuthority) -> (r: Result<
    (),
    Rejection,
>)
    ensures
        outcome(old(ledger)@, final(ledger)@, r, spec_set_listing_authority(old(ledger)@, *ctx)),
{
    match listing_for(ledger, &ctx.listing, &ctx.user) {
        Ok(l) => {
            ledger.set_data(
                ctx.listing,
                AccountData::Listing(Listing { authority: ctx.authority, ..l }),
            );
            Ok(())
        },
        Err(e) => Err(e),
    }
}

/// A change of charter; the new one must be a charter.
pub open spec fn spec_set_listing_charter(s: State, ctx: SetListingCharter) -> Result<
    State,
    Rejection,
> {
    if charter_at(s, ctx.charter) is None {
        Err(Rejection::Ledger(LedgerError::AccountNotFound))
    } else {
        stored_listing(
            s,
            ctx.listing,
            match spec_listing_for(s, ctx.listing, ctx.user) {
                Ok(l) => Ok(Listing { charter: ctx.charter, ..l }),
                Err(e) => Err(e),
            },
        )
    }
}

/// Puts a listing under another charter. Only the listing's authority may.
pub fn set_listing_charter(ledger: &mut Ledger, ctx: &SetListingCharter) -> (r: Result<
    (),
    Rejection,
>)
    ensures
        outcome(old(ledger)@, final(ledger)@, r, spec_set_listing_charter(old(ledger)@, *ctx)),
{
    if ledger.charter(&ctx.charter).is_none() {
        return Err(Rejection::Ledger(LedgerError::AccountNotFound));
    }
    match listing_for(ledger, &ctx.listing, &ctx.user) {
        Ok(l) => {
            ledger.set_data(ctx.listing, AccountData::Listing(Listing { charter: ctx.charter, ..l }));
            Ok(())
        },
        Err(e) => Err(e),
    }
}

} // verus!
