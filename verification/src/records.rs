use crate::address::Address;
use crate::calculator::{expansion, Expansion, Rate};
use crate::error::{ConstraintError, Rejection, StrangemoodError};
use vstd::prelude::*;

verus! {

/// One purchase: what was bought, by whom, at what price, and where the
/// payment is held until the purchase is settled or cancelled.
#[derive(Clone, Copy, Debug, PartialEq, Eq)]
pub struct Receipt {
    pub is_initialized: bool,
    /// Copied from the listing when the purchase was made; never changed.
    pub is_refundable: bool,
    /// Whether the cashier may settle the purchase.
    pub is_cashable: bool,
    pub listing: Address,
    /// The account that holds, or will hold, the claim tokens.
    pub listing_token_account: Address,
    pub purchaser: Address,
    /// The party entitled to settle the purchase.
    pub cashier: Address,
    /// The account that holds the payment.
    pub escrow: Address,
    pub quantity: u64,
    /// The unit price when the purchase was made.
    pub price: u64,
    /// The salt that the receipt's address was derived from.
    pub nonce: u128,
}

/// An item for sale.
#[derive(Clone, Debug, PartialEq, Eq)]
pub struct Listing {
    pub is_initialized: bool,
    /// Whether the item can be bought.
    pub is_available: bool,
    pub charter: Address,
    pub authority: Address,
    /// Where the seller's share of a payment goes.
    pub payment_deposit: Address,
    /// Where the seller's share of the governance tokens goes.
    pub vote_deposit: Address,
    /// The unit price, in the payment currency.
    pub price: u64,
    /// The mint of the listing's own claim tokens.
    pub mint: Address,
    pub uri: String,
    pub is_refundable: bool,
    pub is_consumable: bool,
}

/// The policy of a marketplace: how a payment is divided and how many
/// governance tokens it earns.
#[derive(Clone, Debug, PartialEq, Eq)]
pub struct Charter {
    pub is_initialized: bool,
    pub expansion_rate_amount: u64,
    pub expansion_rate_decimals: u8,
    pub payment_contribution_rate_amount: u64,
    pub payment_contribution_rate_decimals: u8,
    pub vote_contribution_rate_amount: u64,
    pub vote_contribution_rate_decimals: u8,
    pub authority: Address,
    /// The mint of the governance tokens.
    pub mint: Address,
    /// The community's account of governance tokens.
    pub vote_deposit: Address,
    pub uri: String,
}

/// What a charter holds in one currency.
#[derive(Clone, Copy, Debug, PartialEq, Eq)]
pub struct CharterTreasury {
    pub is_initialized: bool,
    pub charter: Address,
    /// The treasury's account in the currency.
    pub deposit: Address,
    /// The mint of the currency.
    pub mint: Address,
    pub expansion_scalar_amount: u64,
    pub expansion_scalar_decimals: u8,
}

/// The bytes that a listing's metadata pointer may take: what is left of the
/// space given to a listing when it is created.
pub const LISTING_URI_MAX: usize = 187;

/// The bytes that a charter's metadata pointer may take: what is left of the
/// space given to a charter when it is created.
pub const CHARTER_URI_MAX: usize = 379;

/// The number of bytes that a text takes when it is stored, in UTF-8.
pub open spec fn uri_len(uri: String) -> nat {
    vstd::utf8::encode_utf8(uri@).len()
}

/// Whether a text takes at most `max` bytes when it is stored.
pub fn uri_fits(uri: &String, max: usize) -> (b: bool)
    ensures
        b == (uri_len(*uri) <= max),
{
    uri.as_str().as_bytes().len() <= max
}

/// The one rule by which records are changed: the caller must be the
/// authority that the record names.
pub open spec fn authorized(authority: Address, caller: Address) -> Result<(), Rejection> {
    if authority == caller {
        Ok(())
    } else {
        Err(Rejection::Program(StrangemoodError::UnauthorizedAuthority))
    }
}

impl CharterTreasury {
    /// Whether the treasury may be changed by `caller` as the authority of
    /// the charter at `address`: the treasury must belong to that charter,
    /// and the caller must be the charter's authority.
    pub open spec fn spec_authorize(self, address: Address, charter: Charter, caller: Address) -> Result<
        (),
        Rejection,
    > {
        if self.charter != address {
            Err(Rejection::Constraint(ConstraintError::Treasury))
        } else {
            authorized(charter.authority, caller)
        }
    }

    /// Lets the caller through where the treasury belongs to the charter at
    /// `address` and the caller is that charter's authority.
    pub fn authorize(&self, address: &Address, charter: &Charter, caller: &Address) -> (r: Result<
        (),
        Rejection,
    >)
        ensures
            r == self.spec_authorize(*address, *charter, *caller),
    {
        if self.charter != *address {
            Err(Rejection::Constraint(ConstraintError::Treasury))
        } else {
            charter.authorize(caller)
        }
    }
}

impl Listing {
    /// Whether `caller` is the authority of the listing.
    pub fn is_authority(&self, caller: &Address) -> (b: bool)
        ensures
            b == (self.authority == *caller),
    {
        self.authority == *caller
    }

    /// Lets the caller through where it is the authority of the listing.
    pub fn authorize(&self, caller: &Address) -> (r: Result<(), Rejection>)
        ensures
            r == authorized(self.authority, *caller),
    {
        if self.authority == *caller {
            Ok(())
        } else {
            Err(Rejection::Program(StrangemoodError::UnauthorizedAuthority))
        }
    }

    /// A copy of the listing.
    pub fn duplicate(&self) -> (l: Listing)
        ensures
            l == *self,
    {
        Listing {
            is_initialized: self.is_initialized,
            is_available: self.is_available,
            charter: self.charter,
            authority: self.authority,
            payment_deposit: self.payment_deposit,
            vote_deposit: self.vote_deposit,
            price: self.price,
            mint: self.mint,
            uri: self.uri.clone(),
            is_refundable: self.is_refundable,
            is_consumable: self.is_consumable,
        }
    }
}

impl Charter {
    /// Whether `caller` is the authority of the charter.
    pub fn is_authority(&self, caller: &Address) -> (b: bool)
        ensures
            b == (self.authority == *caller),
    {
        self.authority == *caller
    }

    /// Lets the caller through where it is the authority of the charter.
    pub fn authorize(&self, caller: &Address) -> (r: Result<(), Rejection>)
        ensures
            r == authorized(self.authority, *caller),
    {
        if self.authority == *caller {
            Ok(())
        } else {
            Err(Rejection::Program(StrangemoodError::UnauthorizedAuthority))
        }
    }

    /// The share of a payment that goes to the treasury.
    pub open spec fn spec_payment_contribution_rate(self) -> Rate {
        Rate {
            amount: self.payment_contribution_rate_amount,
            decimals: self.payment_contribution_rate_decimals,
        }
    }

    /// The share of the governance tokens that goes to the community.
    pub open spec fn spec_vote_contribution_rate(self) -> Rate {
        Rate {
            amount: self.vote_contribution_rate_amount,
            decimals: self.vote_contribution_rate_decimals,
        }
    }

    /// The governance tokens earned by one unit contributed in a currency
    /// with the given scalar: the charter's expansion rate times the scalar.
    pub open spec fn spec_expansion_rate(self, scalar_amount: u64, scalar_decimals: u8) -> Expansion {
        Expansion {
            amount: (self.expansion_rate_amount * scalar_amount) as u128,
            decimals: (self.expansion_rate_decimals + scalar_decimals) as u16,
        }
    }

    /// The governance tokens earned by one unit contributed in a currency
    /// with the given scalar: the charter's expansion rate times the scalar.
    pub fn expansion_rate(&self, scalar_amount: u64, scalar_decimals: u8) -> (e: Expansion)
        ensures
            e == self.spec_expansion_rate(scalar_amount, scalar_decimals),
            e.amount == self.expansion_rate_amount * scalar_amount,
            e.decimals == self.expansion_rate_decimals + scalar_decimals,
    {
        expansion(
            Rate::new(self.expansion_rate_amount, self.expansion_rate_decimals),
            Rate::new(scalar_amount, scalar_decimals),
        )
    }

    /// The share of a payment that goes to the treasury.
    pub fn payment_contribution_rate(&self) -> (r: Rate)
        ensures
            r == self.spec_payment_contribution_rate(),
    {
        Rate::new(self.payment_contribution_rate_amount, self.payment_contribution_rate_decimals)
    }

    /// The share of the governance tokens that goes to the community.
    pub fn vote_contribution_rate(&self) -> (r: Rate)
        ensures
            r == self.spec_vote_contribution_rate(),
    {
        Rate::new(self.vote_contribution_rate_amount, self.vote_contribution_rate_decimals)
    }

    /// A copy of the charter.
    pub fn duplicate(&self) -> (c: Charter)
        ensures
            c == *self,
    {
        Charter {
            is_initialized: self.is_initialized,
            expansion_rate_amount: self.expansion_rate_amount,
            expansion_rate_decimals: self.expansion_rate_decimals,
            payment_contribution_rate_amount: self.payment_contribution_rate_amount,
            payment_contribution_rate_decimals: self.payment_contribution_rate_decimals,
            vote_contribution_rate_amount: self.vote_contribution_rate_amount,
            vote_contribution_rate_decimals: self.vote_contribution_rate_decimals,
            authority: self.authority,
            mint: self.mint,
            vote_deposit: self.vote_deposit,
            uri: self.uri.clone(),
        }
    }
}

} // verus!
