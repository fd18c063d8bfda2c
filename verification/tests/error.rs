use strangemood::error::{ConstraintError, ErrorKind, LedgerError, Rejection, StrangemoodError};

#[test]
fn program_errors_have_their_kinds() {
    let expected = [
        (StrangemoodError::MintNotSupported, ErrorKind::ConfigurationMismatch),
        (StrangemoodError::UnauthorizedCharter, ErrorKind::CrossReferenceMismatch),
        (StrangemoodError::DepositIsNotFoundInListing, ErrorKind::CrossReferenceMismatch),
        (StrangemoodError::UnexpectedListingTokenAccount, ErrorKind::StateGateViolation),
        (StrangemoodError::DepositIsNotFoundInCharter, ErrorKind::CrossReferenceMismatch),
        (StrangemoodError::MintIsNotFoundInCharter, ErrorKind::CrossReferenceMismatch),
        (StrangemoodError::UnauthorizedAuthority, ErrorKind::AuthorizationFailure),
        (StrangemoodError::ReceiptNotCashable, ErrorKind::StateGateViolation),
        (StrangemoodError::OnlyCashableByTheCashier, ErrorKind::StateGateViolation),
        (StrangemoodError::ListingUnavailable, ErrorKind::StateGateViolation),
        (StrangemoodError::UnexpectedListingMint, ErrorKind::CrossReferenceMismatch),
        (StrangemoodError::ListingIsNotConsumable, ErrorKind::StateGateViolation),
    ];
    for (error, kind) in expected {
        assert_eq!(error.kind(), kind);
        assert_eq!(Rejection::Program(error).kind(), kind);
    }
}

#[test]
fn program_errors_have_their_messages() {
    assert_eq!(StrangemoodError::MintNotSupported.message(), "MintNotSupported");
    assert_eq!(StrangemoodError::UnauthorizedCharter.message(), "Unauthorized Charter");
    assert_eq!(StrangemoodError::DepositIsNotFoundInListing.message(), "Deposit not found in listing");
    assert_eq!(StrangemoodError::UnexpectedListingTokenAccount.message(), "Unexpected Listing Token Account");
    assert_eq!(StrangemoodError::DepositIsNotFoundInCharter.message(), "Deposit not found in charter");
    assert_eq!(StrangemoodError::MintIsNotFoundInCharter.message(), "Mint is not found in charter");
    assert_eq!(StrangemoodError::UnauthorizedAuthority.message(), "Provided Authority Account Does Not Have Access");
    assert_eq!(StrangemoodError::ReceiptNotCashable.message(), "Receipt is not currently cashable");
    assert_eq!(StrangemoodError::OnlyCashableByTheCashier.message(), "Only Cashable by the Cashier");
    assert_eq!(StrangemoodError::ListingUnavailable.message(), "Listing is Unavailable");
    assert_eq!(StrangemoodError::UnexpectedListingMint.message(), "Mint did not match Listing");
    assert_eq!(StrangemoodError::ListingIsNotConsumable.message(), "Listing is not consumable");
}

#[test]
fn constraint_errors_have_their_kinds() {
    assert_eq!(ConstraintError::Receipt.kind(), ErrorKind::StateGateViolation);
    assert_eq!(ConstraintError::Treasury.kind(), ErrorKind::CrossReferenceMismatch);
    assert_eq!(ConstraintError::Currency.kind(), ErrorKind::ConfigurationMismatch);
    assert_eq!(ConstraintError::Seeds.kind(), ErrorKind::AuthorizationFailure);
    assert_eq!(
        Rejection::Constraint(ConstraintError::Seeds).kind(),
        ErrorKind::AuthorizationFailure
    );
}

#[test]
fn ledger_errors_have_their_kinds() {
    let expected = [
        (LedgerError::AccountNotFound, ErrorKind::StateGateViolation),
        (LedgerError::AccountInUse, ErrorKind::StateGateViolation),
        (LedgerError::MintMismatch, ErrorKind::ConfigurationMismatch),
        (LedgerError::InvalidAuthority, ErrorKind::AuthorizationFailure),
        (LedgerError::InvalidSeeds, ErrorKind::AuthorizationFailure),
        (LedgerError::AccountFrozen, ErrorKind::LedgerLimit),
        (LedgerError::InsufficientFunds, ErrorKind::LedgerLimit),
        (LedgerError::Overflow, ErrorKind::LedgerLimit),
        (LedgerError::BalanceNotZero, ErrorKind::LedgerLimit),
        (LedgerError::DataTooLarge, ErrorKind::LedgerLimit),
    ];
    for (error, kind) in expected {
        assert_eq!(error.kind(), kind);
        assert_eq!(Rejection::Ledger(error).kind(), kind);
    }
}
