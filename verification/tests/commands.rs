//! The outcome of commands, and the progress of writes.

use sysproxy::networksetup::{
    describe_failure, parse_networksetup_output, run_networksetup, WriteSequence,
    EXIT_REQUIRES_ADMIN, NETWORKSETUP, SYSTEM_PROXY_WRITES,
};
use sysproxy::{CommandOutput, Error};

/// The output of a command that exited with `code`.
fn finished(code: i32, stdout: Vec<u8>, stderr: Vec<u8>) -> CommandOutput {
    CommandOutput {
        success: code == 0,
        code: Some(code),
        status: format!("exit status: {code}"),
        stdout,
        stderr,
    }
}

/// The first error of the library among the causes of `err`.
fn leaf_error(err: &Error) -> Option<&Error> {
    err.source()
}

#[test]
fn networksetup_nonzero_exit_returns_error() {
    for (stdout, stderr) in [
        (
            b"** Error: The parameters were not valid.\n".to_vec(),
            Vec::new(),
        ),
        (
            Vec::new(),
            b"** Error: The parameters were not valid.\n".to_vec(),
        ),
    ] {
        let output = finished(4, stdout, stderr);

        let result = parse_networksetup_output(&["-setwebproxy", "Wi-Fi"], output);

        assert!(matches!(
            result,
            Err(Error::NetworkSetup(message))
                if message.contains("The parameters were not valid")
        ));
    }
}

#[test]
fn admin_failure_is_recognised_from_the_exit_code_alone() {
    let output = finished(EXIT_REQUIRES_ADMIN, Vec::new(), Vec::new());

    assert!(matches!(
        parse_networksetup_output(&["-setwebproxystate", "Wi-Fi", "off"], output),
        Err(Error::RequiresAdminPrivileges)
    ));
}

#[test]
fn admin_failure_is_recognised_from_the_message_alone() {
    let output = finished(
        1,
        b"** Error: Command requires admin privileges.".to_vec(),
        Vec::new(),
    );

    assert!(matches!(
        parse_networksetup_output(&["-setwebproxystate", "Wi-Fi", "off"], output),
        Err(Error::RequiresAdminPrivileges)
    ));
}

#[test]
fn authentication_failures_are_not_reported_as_missing_admin_rights() {
    let output = finished(
        2,
        b"** Error: An error occurred while authenticating.".to_vec(),
        Vec::new(),
    );

    assert!(matches!(
        parse_networksetup_output(&["-setwebproxystate", "Wi-Fi", "off"], output),
        Err(Error::NetworkSetup(_))
    ));
}

#[test]
fn only_the_admin_exit_code_is_treated_as_a_privilege_failure() {
    assert_eq!(EXIT_REQUIRES_ADMIN, 14);

    for code in [13, 15] {
        let output = finished(code, Vec::new(), Vec::new());

        assert!(
            matches!(
                parse_networksetup_output(&["-setwebproxystate", "Wi-Fi", "off"], output),
                Err(Error::NetworkSetup(_))
            ),
            "exit code {code} must not be classified as a privilege failure"
        );
    }
}

#[test]
fn the_exit_code_still_classifies_when_the_output_is_not_valid_utf8() {
    for (stdout, stderr) in [
        (vec![0xff, 0xfe, 0x00], Vec::new()),
        (Vec::new(), vec![0xff, 0xfe, 0x00]),
    ] {
        let output = finished(EXIT_REQUIRES_ADMIN, stdout, stderr);

        assert!(matches!(
            parse_networksetup_output(&["-setwebproxystate", "Wi-Fi", "off"], output),
            Err(Error::RequiresAdminPrivileges)
        ));
    }
}

#[test]
fn a_failure_before_any_write_reports_that_nothing_landed() {
    let mut writes = WriteSequence::new(SYSTEM_PROXY_WRITES);

    let failure = writes.record(Err(Error::RequiresAdminPrivileges)).err();

    assert!(
        matches!(
            &failure,
            Some(Error::ProxyWrite { progress, .. })
                if progress.nothing_written() && progress.total() == SYSTEM_PROXY_WRITES
        ),
        "unexpected failure shape: {failure:?}"
    );
}

#[test]
fn progress_counts_the_writes_that_already_landed() {
    let mut writes = WriteSequence::new(SYSTEM_PROXY_WRITES);

    assert!(writes.record(Ok(())).is_ok());
    assert!(writes.record(Ok(())).is_ok());
    assert!(writes.record(Ok(())).is_ok());

    let failure = writes.record(Err(Error::RequiresAdminPrivileges)).err();

    assert!(
        matches!(
            &failure,
            Some(Error::ProxyWrite { progress, .. })
                if !progress.nothing_written() && progress.completed() == 3
        ),
        "unexpected failure shape: {failure:?}"
    );
}

#[test]
fn the_underlying_failure_stays_reachable_through_the_source_chain() {
    let mut writes = WriteSequence::new(SYSTEM_PROXY_WRITES);

    let failure = writes.record(Err(Error::RequiresAdminPrivileges)).err();

    let reached = failure.as_ref().and_then(leaf_error);
    assert!(
        matches!(reached, Some(Error::RequiresAdminPrivileges)),
        "leaf not reachable through the source chain: {failure:?}"
    );
}

#[test]
fn the_wrapper_does_not_repeat_the_leaf_message() {
    let mut writes = WriteSequence::new(SYSTEM_PROXY_WRITES);

    let failure = writes.record(Err(Error::RequiresAdminPrivileges)).err();
    let rendered = failure.map(|err| err.message()).unwrap_or_default();

    assert!(
        !rendered.contains("admin privileges"),
        "wrapper Display should not inline the leaf: {rendered}"
    );
    assert!(rendered.contains("0 of 7 writes completed"), "{rendered}");
}

#[test]
fn a_successful_write_is_not_failed_by_output_it_cannot_decode() {
    let output = finished(0, vec![0xff, 0xfe, 0x00], vec![0xff, 0xfe, 0x00]);

    assert!(
        parse_networksetup_output(&["-setwebproxystate", "Wi-Fi", "off"], output).is_ok(),
        "a command that exited 0 must be reported as success"
    );
}

#[test]
fn a_successful_write_advances_the_progress_counter() {
    let mut writes = WriteSequence::new(SYSTEM_PROXY_WRITES);

    let accepted = parse_networksetup_output(
        &["-setwebproxystate", "Wi-Fi", "off"],
        finished(0, vec![0xff, 0xfe, 0x00], Vec::new()),
    );
    assert!(writes.record(accepted).is_ok());

    let failure = writes.record(Err(Error::RequiresAdminPrivileges)).err();

    assert!(
        matches!(
            &failure,
            Some(Error::ProxyWrite { progress, .. }) if progress.completed() == 1
        ),
        "unexpected failure shape: {failure:?}"
    );
}

#[test]
fn a_failure_message_holds_arguments_status_and_both_outputs() {
    let output = finished(4, b" out \n".to_vec(), b"\terr\xff".to_vec());
    match parse_networksetup_output(&["-setwebproxy", "a\"b"], output) {
        Err(Error::NetworkSetup(message)) => assert_eq!(
            message,
            "args=[\"-setwebproxy\", \"a\\\"b\"], status=exit status: 4, error=out\nerr\u{fffd}"
        ),
        other => panic!("unexpected outcome: {other:?}"),
    }
}

#[test]
fn details_leave_out_an_empty_output() {
    for (stdout, stderr, details) in [("", "", ""), (" ", "e", "e"), ("o", "\n", "o")] {
        match describe_failure("[]", None, "signal: 9 (SIGKILL)", stdout, stderr) {
            Error::NetworkSetup(message) => assert_eq!(
                message,
                format!("args=[], status=signal: 9 (SIGKILL), error={details}")
            ),
            other => panic!("unexpected failure: {other:?}"),
        }
    }
}

#[test]
fn a_command_that_cannot_be_run_is_an_io_failure() {
    let cause = std::io::Error::new(std::io::ErrorKind::NotFound, "no such program");
    let mut writes = WriteSequence::new(2);
    let failure = writes.run(&["-setwebproxy"], Err(cause)).err();
    match failure.as_ref().and_then(leaf_error) {
        Some(Error::Io(e)) => assert_eq!(e.to_string(), "no such program"),
        other => panic!("unexpected cause: {other:?}"),
    }
    assert!(run_networksetup(&[], Ok(finished(0, Vec::new(), Vec::new()))).is_ok());
}

#[test]
fn every_failure_has_a_description() {
    let io = std::io::Error::new(std::io::ErrorKind::Other, "x");
    assert_eq!(Error::Io(io).message(), "failed to run networksetup");
    assert_eq!(
        Error::NetworkInterface.message(),
        "failed to get the network interface"
    );
    assert_eq!(
        Error::NoActiveNetworkService.message(),
        "no active network service"
    );
    assert_eq!(
        Error::SCDynamicStore.message(),
        "failed to open the dynamic store"
    );
    assert_eq!(
        Error::SCPreferences.message(),
        "failed to read the network preferences"
    );
    assert_eq!(
        Error::ParseStr("x".to_string()).message(),
        "failed to parse: x"
    );
    assert_eq!(
        Error::NetworkSetup("x".to_string()).message(),
        "networksetup failed: x"
    );
    assert_eq!(
        Error::RequiresAdminPrivileges.message(),
        "networksetup requires admin privileges"
    );
    assert_eq!(
        Error::SystemConfiguration("lock preferences").message(),
        "SystemConfiguration refused to lock preferences"
    );
    assert!(Error::SCPreferences.source().is_none());
}

#[test]
fn the_program_is_named_by_a_fixed_path() {
    assert_eq!(NETWORKSETUP, "/usr/sbin/networksetup");
}
