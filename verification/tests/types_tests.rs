use wallet_batch::types::AbandonReason;
use wallet_batch::types::SkipReason;

#[test]
fn abandon_reasons_are_worded() {
    assert_eq!(AbandonReason::InternalFailure.message(), "internal failure");
    assert_eq!(AbandonReason::Timeout.message(), "timeout");
    assert_eq!(AbandonReason::ReferenceUnavailable.message(), "reference unavailable");
}

#[test]
fn skip_reasons_are_worded() {
    assert_eq!(SkipReason::UnreadableWallet.message(), "unreadable wallet");
    assert_eq!(SkipReason::AccountUnavailable.message(), "token account unavailable");
    assert_eq!(SkipReason::NonZeroBalance.message(), "token account not empty");
    assert_eq!(SkipReason::NothingToCollect.message(), "nothing to collect");
    assert_eq!(SkipReason::BalanceUnavailable.message(), "balance unavailable");
    assert_eq!(SkipReason::NoSubmissionNeeded.message(), "no submission needed");
    assert_eq!(SkipReason::NotApplicable.message(), "not applicable");
}
