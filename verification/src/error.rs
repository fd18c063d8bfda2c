use vstd::prelude::*;

verus! {

/// The reasons for which the program itself turns a transition down.
#[derive(Clone, Copy, Debug, PartialEq, Eq, Structural)]
pub enum StrangemoodError {
    /// A deposit is not held in the currency of the treasury or charter.
    MintNotSupported,
    /// The charter supplied is not the listing's.
    UnauthorizedCharter,
    /// A deposit supplied is not the listing's.
    DepositIsNotFoundInListing,
    /// The claim-token account supplied is not the receipt's.
    UnexpectedListingTokenAccount,
    /// The vote deposit supplied is not the charter's.
    DepositIsNotFoundInCharter,
    /// The governance mint supplied is not the charter's.
    MintIsNotFoundInCharter,
    /// The caller is not the authority of the record.
    UnauthorizedAuthority,
    /// The receipt is not cashable yet.
    ReceiptNotCashable,
    /// The caller is not the receipt's cashier.
    OnlyCashableByTheCashier,
    /// The listing is not for sale.
    ListingUnavailable,
    /// The claim-token mint supplied is not the listing's.
    UnexpectedListingMint,
    /// The listing's claims cannot be consumed.
    ListingIsNotConsumable,
}

/// The reasons for which the accounts handed to a transition do not fit together.
#[derive(Clone, Copy, Debug, PartialEq, Eq, Structural)]
pub enum ConstraintError {
    /// The receipt does not name the listing, escrow, claim-token account or
    /// purchaser supplied.
    Receipt,
    /// The treasury is not the charter's, or does not hold the deposit supplied.
    Treasury,
    /// A deposit or treasury is not of the currency that goes with it.
    Currency,
    /// An address is not the one derived from the seeds that go with it.
    Seeds,
}

/// The reasons for which the ledger refuses an operation.
#[derive(Clone, Copy, Debug, PartialEq, Eq, Structural)]
pub enum LedgerError {
    /// No account of the kind needed is stored at an address.
    AccountNotFound,
    /// An account is stored already where one is to be opened.
    AccountInUse,
    /// A token account is not of the mint that it is used with.
    MintMismatch,
    /// The authority presented is not the one that the account or mint obeys.
    InvalidAuthority,
    /// The authority presented is not the address derived for the account or mint.
    InvalidSeeds,
    /// The account is frozen: nothing can be moved out of it.
    AccountFrozen,
    /// The account holds less than is to be taken from it.
    InsufficientFunds,
    /// An amount would exceed what 64 bits hold.
    Overflow,
    /// A token account with a balance left cannot be closed.
    BalanceNotZero,
    /// A record does not fit the space that its account was given.
    DataTooLarge,
}

/// Why a transition was turned down.
#[derive(Clone, Copy, Debug, PartialEq, Eq, Structural)]
pub enum Rejection {
    /// One of the program's own checks failed.
    Program(StrangemoodError),
    /// The accounts supplied do not fit together.
    Constraint(ConstraintError),
    /// The ledger refused one of the operations.
    Ledger(LedgerError),
}

/// The kinds of failure. None of them is retried: the caller corrects the
/// input and submits the transition again.
#[derive(Clone, Copy, Debug, PartialEq, Eq, Structural)]
pub enum ErrorKind {
    /// The currency of a deposit is not the one expected.
    ConfigurationMismatch,
    /// The caller's credential is not the stored authority, or a derived
    /// authority is not the expected one.
    AuthorizationFailure,
    /// The listing or receipt is not in a state, or not in the hands, that
    /// the transition asks for.
    StateGateViolation,
    /// Two records that must name each other do not.
    CrossReferenceMismatch,
    /// The ledger cannot carry an operation out: a movement of funds that an
    /// account cannot give or take, or a record that does not fit.
    LedgerLimit,
}

impl StrangemoodError {
    /// The kind of the failure.
    pub open spec fn spec_kind(self) -> ErrorKind {
        match self {
            StrangemoodError::MintNotSupported => ErrorKind::ConfigurationMismatch,
            StrangemoodError::UnauthorizedAuthority => ErrorKind::AuthorizationFailure,
            StrangemoodError::ReceiptNotCashable
            | StrangemoodError::OnlyCashableByTheCashier
            | StrangemoodError::ListingUnavailable
            | StrangemoodError::ListingIsNotConsumable
            | StrangemoodError::UnexpectedListingTokenAccount => ErrorKind::StateGateViolation,
            StrangemoodError::UnauthorizedCharter
            | StrangemoodError::DepositIsNotFoundInListing
            | StrangemoodError::DepositIsNotFoundInCharter
            | StrangemoodError::MintIsNotFoundInCharter
            | StrangemoodError::UnexpectedListingMint => ErrorKind::CrossReferenceMismatch,
        }
    }

    /// The kind of the failure.
    pub fn kind(&self) -> (k: ErrorKind)
        ensures
            k == self.spec_kind(),
    {
        match self {
            StrangemoodError::MintNotSupported => ErrorKind::ConfigurationMismatch,
            StrangemoodError::UnauthorizedAuthority => ErrorKind::AuthorizationFailure,
            StrangemoodError::ReceiptNotCashable
            | StrangemoodError::OnlyCashableByTheCashier
            | StrangemoodError::ListingUnavailable
            | StrangemoodError::ListingIsNotConsumable
            | StrangemoodError::UnexpectedListingTokenAccount => ErrorKind::StateGateViolation,
            StrangemoodError::UnauthorizedCharter
            | StrangemoodError::DepositIsNotFoundInListing
            | StrangemoodError::DepositIsNotFoundInCharter
            | StrangemoodError::MintIsNotFoundInCharter
            | StrangemoodError::UnexpectedListingMint => ErrorKind::CrossReferenceMismatch,
        }
    }

    /// The message that goes with the failure.
    pub fn message(&self) -> (m: &'static str)
        ensures
            m@ == self.spec_message(),
    {
        match self {
            StrangemoodError::MintNotSupported => "MintNotSupported",
            StrangemoodError::UnauthorizedCharter => "Unauthorized Charter",
            StrangemoodError::DepositIsNotFoundInListing => "Deposit not found in listing",
            StrangemoodError::UnexpectedListingTokenAccount => "Unexpected Listing Token Account",
            StrangemoodError::DepositIsNotFoundInCharter => "Deposit not found in charter",
            StrangemoodError::MintIsNotFoundInCharter => "Mint is not found in charter",
            StrangemoodError::UnauthorizedAuthority => {
                "Provided Authority Account Does Not Have Access"
            },
            StrangemoodError::ReceiptNotCashable => "Receipt is not currently cashable",
            StrangemoodError::OnlyCashableByTheCashier => "Only Cashable by the Cashier",
            StrangemoodError::ListingUnavailable => "Listing is Unavailable",
            StrangemoodError::UnexpectedListingMint => "Mint did not match Listing",
            StrangemoodError::ListingIsNotConsumable => "Listing is not consumable",
        }
    }

    /// The message that goes with the failure.
    pub open spec fn spec_message(self) -> Seq<char> {
        match self {
            StrangemoodError::MintNotSupported => "MintNotSupported"@,
            StrangemoodError::UnauthorizedCharter => "Unauthorized Charter"@,
            StrangemoodError::DepositIsNotFoundInListing => "Deposit not found in listing"@,
            StrangemoodError::UnexpectedListingTokenAccount => "Unexpected Listing Token Account"@,
            StrangemoodError::DepositIsNotFoundInCharter => "Deposit not found in charter"@,
            StrangemoodError::MintIsNotFoundInCharter => "Mint is not found in charter"@,
            StrangemoodError::UnauthorizedAuthority => {
                "Provided Authority Account Does Not Have Access"@
            },
            StrangemoodError::ReceiptNotCashable => "Receipt is not currently cashable"@,
            StrangemoodError::OnlyCashableByTheCashier => "Only Cashable by the Cashier"@,
            StrangemoodError::ListingUnavailable => "Listing is Unavailable"@,
            StrangemoodError::UnexpectedListingMint => "Mint did not match Listing"@,
            StrangemoodError::ListingIsNotConsumable => "Listing is not consumable"@,
        }
    }
}

impl ConstraintError {
    /// The kind of the failure.
    pub open spec fn spec_kind(self) -> ErrorKind {
        match self {
            ConstraintError::Receipt => ErrorKind::StateGateViolation,
            ConstraintError::Treasury => ErrorKind::CrossReferenceMismatch,
            ConstraintError::Currency => ErrorKind::ConfigurationMismatch,
            ConstraintError::Seeds => ErrorKind::AuthorizationFailure,
        }
    }

    /// The kind of the failure.
    pub fn kind(&self) -> (k: ErrorKind)
        ensures
            k == self.spec_kind(),
    {
        match self {
            ConstraintError::Receipt => ErrorKind::StateGateViolation,
            ConstraintError::Treasury => ErrorKind::CrossReferenceMismatch,
            ConstraintError::Currency => ErrorKind::ConfigurationMismatch,
            ConstraintError::Seeds => ErrorKind::AuthorizationFailure,
        }
    }
}

impl LedgerError {
    /// The kind of the failure: an authority that is not the right one is an
    /// authorization failure, a record that is missing or in the way a
    /// state-gate violation, a token account of another mint a configuration
    /// mismatch, anything else a limit of the ledger.
    pub open spec fn spec_kind(self) -> ErrorKind {
        match self {
            LedgerError::InvalidAuthority | LedgerError::InvalidSeeds => {
                ErrorKind::AuthorizationFailure
            },
            LedgerError::AccountNotFound | LedgerError::AccountInUse => {
                ErrorKind::StateGateViolation
            },
            LedgerError::MintMismatch => ErrorKind::ConfigurationMismatch,
            LedgerError::AccountFrozen
            | LedgerError::InsufficientFunds
            | LedgerError::Overflow
            | LedgerError::BalanceNotZero
            | LedgerError::DataTooLarge => ErrorKind::LedgerLimit,
        }
    }

    /// The kind of the failure.
    pub fn kind(&self) -> (k: ErrorKind)
        ensures
            k == self.spec_kind(),
    {
        match self {
            LedgerError::InvalidAuthority | LedgerError::InvalidSeeds => {
                ErrorKind::AuthorizationFailure
            },
            LedgerError::AccountNotFound | LedgerError::AccountInUse => {
                ErrorKind::StateGateViolation
            },
            LedgerError::MintMismatch => ErrorKind::ConfigurationMismatch,
            LedgerError::AccountFrozen
            | LedgerError::InsufficientFunds
            | LedgerError::Overflow
            | LedgerError::BalanceNotZero
            | LedgerError::DataTooLarge => ErrorKind::LedgerLimit,
        }
    }
}

impl Rejection {
    /// The kind of the failure.
    pub open spec fn spec_kind(self) -> ErrorKind {
        match self {
            Rejection::Program(e) => e.spec_kind(),
            Rejection::Constraint(e) => e.spec_kind(),
            Rejection::Ledger(e) => e.spec_kind(),
        }
    }

    /// The kind of the failure.
    pub fn kind(&self) -> (k: ErrorKind)
        ensures
            k == self.spec_kind(),
    {
        match self {
            Rejection::Program(e) => e.kind(),
            Rejection::Constraint(e) => e.kind(),
            Rejection::Ledger(e) => e.kind(),
        }
    }
}

} // verus!
