use crate::address::Address;
use vstd::prelude::*;

verus! {

/// The accounts of a purchase. `user` pays and has signed.
#[derive(Clone, Copy, Debug, PartialEq, Eq)]
pub struct Purchase {
    /// The account that the payment is taken from.
    pub purchase_token_account: Address,
    pub listing: Address,
    pub listing_payment_deposit: Address,
    /// The mint of the payment currency.
    pub listing_payment_deposit_mint: Address,
    /// The party that will be entitled to settle the purchase.
    pub cashier: Address,
    /// The account that the claim tokens go to.
    pub listing_token_account: Address,
    pub listing_mint: Address,
    pub listing_mint_authority: Address,
    /// Where the receipt is to be stored.
    pub receipt: Address,
    /// Where the escrow is to be opened.
    pub escrow: Address,
    pub escrow_authority: Address,
    pub user: Address,
}

/// The accounts of a settlement. `cashier` has signed.
#[derive(Clone, Copy, Debug, PartialEq, Eq)]
pub struct Cash {
    pub cashier: Address,
    pub receipt: Address,
    pub escrow: Address,
    pub escrow_authority: Address,
    pub listing_token_account: Address,
    pub listings_payment_deposit: Address,
    pub listings_vote_deposit: Address,
    pub listing: Address,
    pub listing_mint: Address,
    pub listing_mint_authority: Address,
    pub charter_treasury: Address,
    pub charter_treasury_deposit: Address,
    pub charter_vote_deposit: Address,
    pub charter_mint: Address,
    pub charter_mint_authority: Address,
    pub charter: Address,
}

/// The accounts of a cancellation. `purchaser` has signed.
#[derive(Clone, Copy, Debug, PartialEq, Eq)]
pub struct Cancel {
    pub purchaser: Address,
    /// The account that the payment goes back to.
    pub return_deposit: Address,
    pub receipt: Address,
    pub escrow: Address,
    pub escrow_authority: Address,
    pub listing_token_account: Address,
    pub listing: Address,
    pub listing_mint: Address,
    pub listing_mint_authority: Address,
}

/// The accounts of a consumption. `authority` has signed.
#[derive(Clone, Copy, Debug, PartialEq, Eq)]
pub struct Consume {
    pub listing: Address,
    pub mint: Address,
    pub mint_authority: Address,
    /// The holder's account, which the claim tokens are burnt from.
    pub listing_token_account: Address,
    pub authority: Address,
}

/// The accounts of the override that makes a receipt cashable. `authority`
/// has signed.
#[derive(Clone, Copy, Debug, PartialEq, Eq)]
pub struct SetReceiptCashable {
    pub listing: Address,
    pub receipt: Address,
    pub authority: Address,
}

/// The accounts of the creation of a listing. `user` has signed and becomes
/// the listing's authority.
#[derive(Clone, Copy, Debug, PartialEq, Eq)]
pub struct InitListing {
    /// Where the listing is to be stored.
    pub listing: Address,
    pub mint_authority_pda: Address,
    /// Where the mint of the claim tokens is to be opened.
    pub mint: Address,
    pub payment_deposit: Address,
    pub vote_deposit: Address,
    pub charter: Address,
    pub charter_treasury: Address,
    pub user: Address,
}

/// The accounts of a change to a listing. `user` has signed.
#[derive(Clone, Copy, Debug, PartialEq, Eq)]
pub struct SetListing {
    pub listing: Address,
    pub user: Address,
}

/// The accounts of a change of a listing's deposits. `user` has signed.
#[derive(Clone, Copy, Debug, PartialEq, Eq)]
pub struct SetListingDeposit {
    pub listing: Address,
    pub payment_deposit: Address,
    pub vote_deposit: Address,
    pub user: Address,
}

/// The accounts of a change of a listing's authority. `user` has signed.
#[derive(Clone, Copy, Debug, PartialEq, Eq)]
pub struct SetListingAuthority {
    pub listing: Address,
    /// The authority to be.
    pub authority: Address,
    pub user: Address,
}

/// The accounts of a change of a listing's charter. `user` has signed.
#[derive(Clone, Copy, Debug, PartialEq, Eq)]
pub struct SetListingCharter {
    pub listing: Address,
    pub charter: Address,
    pub user: Address,
}

/// The accounts of the creation of a charter. `user` has signed.
#[derive(Clone, Copy, Debug, PartialEq, Eq)]
pub struct InitCharter {
    /// Where the charter is to be stored.
    pub charter: Address,
    pub mint: Address,
    pub authority: Address,
    pub vote_deposit: Address,
    pub user: Address,
}

/// The accounts of a change to a charter. `user` has signed.
#[derive(Clone, Copy, Debug, PartialEq, Eq)]
pub struct SetCharter {
    pub charter: Address,
    pub user: Address,
}

/// The accounts of a change of a charter's vote deposit. `user` has signed.
#[derive(Clone, Copy, Debug, PartialEq, Eq)]
pub struct SetCharterVoteDeposit {
    pub charter: Address,
    pub vote_deposit: Address,
    pub user: Address,
}

/// The accounts of a change of a charter's authority. `user` has signed.
#[derive(Clone, Copy, Debug, PartialEq, Eq)]
pub struct SetCharterAuthority {
    pub charter: Address,
    /// The authority to be.
    pub authority: Address,
    pub user: Address,
}

/// The accounts of the creation of a treasury. `authority` has signed.
#[derive(Clone, Copy, Debug, PartialEq, Eq)]
pub struct InitCharterTreasury {
    /// Where the treasury is to be stored.
    pub treasury: Address,
    pub charter: Address,
    pub deposit: Address,
    pub mint: Address,
    pub authority: Address,
}

/// The accounts of a change of a treasury's expansion scalar. `authority`
/// has signed.
#[derive(Clone, Copy, Debug, PartialEq, Eq)]
pub struct SetCharterTreasuryExpansionScalar {
    pub treasury: Address,
    pub charter: Address,
    pub authority: Address,
}

/// The accounts of a change of a treasury's deposit. `authority` has signed.
#[derive(Clone, Copy, Debug, PartialEq, Eq)]
pub struct SetCharterTreasuryDeposit {
    pub treasury: Address,
    pub charter: Address,
    pub deposit: Address,
    pub mint: Address,
    pub authority: Address,
}

/// The addresses that were derived for a transition, each `None` where the
/// seeds derive none. One that a transition does not use is not looked at.
#[derive(Clone, Copy, Debug, PartialEq, Eq)]
pub struct Derived {
    /// The address of the record that the transition creates or is about.
    pub record: Option<Address>,
    /// The authority over the mint of the listing's claim tokens.
    pub listing_mint_authority: Option<Address>,
    /// The authority over the mint of the governance tokens.
    pub charter_mint_authority: Option<Address>,
    /// The authority over the escrow.
    pub escrow_authority: Option<Address>,
}

} // verus!
