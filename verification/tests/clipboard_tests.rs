use snappers::clipboard::{helper_readiness, payload_accepted, HelperProblem, READY_SIGNAL};

#[test]
fn accepts_ready_signal() {
    assert!(helper_readiness(6, "ready\n").is_ok());
}

#[test]
fn rejects_unexpected_ready_signal() {
    let err = helper_readiness(5, "nope\n").expect_err("unexpected ready payload");
    assert!(err.message(None).contains("unexpected readiness payload"));
}

#[test]
fn nothing_read_means_the_helper_ended() {
    assert_eq!(helper_readiness(0, ""), Err(HelperProblem::ExitedEarly));
    assert_eq!(
        HelperProblem::ExitedEarly.message(None),
        "clipboard helper exited before reporting readiness"
    );
    assert_eq!(
        HelperProblem::ExitedEarly.message(Some("exit status: 1")),
        "clipboard helper exited before becoming ready with status exit status: 1"
    );
}

#[test]
fn unexpected_payload_is_trimmed_at_the_end_only() {
    assert_eq!(
        helper_readiness(8, "  nope \n"),
        Err(HelperProblem::UnexpectedPayload("  nope".to_owned()))
    );
    assert_eq!(
        HelperProblem::UnexpectedPayload("nope".to_owned()).message(Some("exit status: 2")),
        "clipboard helper reported `nope` before exiting with status exit status: 2"
    );
    assert_eq!(
        HelperProblem::UnexpectedPayload("nope".to_owned()).message(None),
        "clipboard helper reported unexpected readiness payload `nope`"
    );
    assert!(helper_readiness(7, "ready \t\n").is_ok());
    assert_eq!(READY_SIGNAL, "ready");
}

#[test]
fn empty_payload_is_refused() {
    assert!(!payload_accepted(&[]));
    assert!(payload_accepted(&[1]));
}
