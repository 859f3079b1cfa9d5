use hpm_backend::command::{
    parse_command, report_corrupt_registry, report_failure, report_listing, report_run,
    report_success, report_usage_error, Command, CommandKind, UsageError,
};
use hpm_backend::error::{output_error, output_success, ErrorCode, ErrorPayload, Report};
use hpm_backend::sandbox::ChildStatus;
use hpm_backend::state::{update_state, State};

fn args(words: &[&str]) -> Vec<String> {
    words.iter().map(|w| w.to_string()).collect()
}

#[test]
fn error_codes_have_their_numbers() {
    assert_eq!(ErrorCode::Success.code(), 0);
    assert_eq!(ErrorCode::InvalidArgs.code(), 1);
    assert_eq!(ErrorCode::PackageNotFound.code(), 2);
    assert_eq!(ErrorCode::DependencyCycle.code(), 3);
    assert_eq!(ErrorCode::InstallFailed.code(), 4);
    assert_eq!(ErrorCode::RemoveFailed.code(), 5);
    assert_eq!(ErrorCode::VerificationFailed.code(), 6);
    assert_eq!(ErrorCode::UnknownCommand.code(), 99);
}

#[test]
fn error_document_has_code_and_message() {
    let payload = ErrorPayload::new(ErrorCode::InstallFailed, "boom");
    assert_eq!(payload.err.code, 4);
    assert_eq!(payload.err.message, "boom");
    assert_eq!(payload.to_json(), "{\"err\":{\"code\":4,\"message\":\"boom\"}}");
}

#[test]
fn error_message_is_escaped() {
    let payload = ErrorPayload::new(ErrorCode::VerificationFailed, "a \"b\"\n\\c\u{1}");
    assert_eq!(
        payload.to_json(),
        "{\"err\":{\"code\":6,\"message\":\"a \\\"b\\\"\\n\\\\c\\u0001\"}}"
    );
}

#[test]
fn negative_code_is_written_with_sign() {
    let mut payload = ErrorPayload::new(ErrorCode::Success, "");
    payload.err.code = -2147483648;
    assert_eq!(payload.to_json(), "{\"err\":{\"code\":-2147483648,\"message\":\"\"}}");
}

#[test]
fn every_error_exits_with_its_code() {
    let codes = [
        (ErrorCode::Success, 0),
        (ErrorCode::InvalidArgs, 1),
        (ErrorCode::PackageNotFound, 2),
        (ErrorCode::DependencyCycle, 3),
        (ErrorCode::InstallFailed, 4),
        (ErrorCode::RemoveFailed, 5),
        (ErrorCode::VerificationFailed, 6),
        (ErrorCode::UnknownCommand, 99),
    ];
    for (code, number) in codes {
        let report = output_error(code, "why");
        assert_eq!(report.exit_code, number);
        assert_eq!(report.stdout, None);
        assert_eq!(
            report.stderr,
            Some(format!("{{\"err\":{{\"code\":{},\"message\":\"why\"}}}}", number))
        );
    }
}

#[test]
fn success_documents() {
    assert_eq!(
        output_success(None),
        Report { stdout: Some("{\"success\":true}".to_string()), stderr: None, exit_code: 0 }
    );
    assert_eq!(
        output_success(Some("foo")),
        Report {
            stdout: Some("{\"success\":true,\"package_name\":\"foo\"}".to_string()),
            stderr: None,
            exit_code: 0
        }
    );
}

#[test]
fn no_arguments_are_invalid() {
    assert_eq!(parse_command(&args(&[])), Err(UsageError::NoCommand));
    let report = report_usage_error(UsageError::NoCommand);
    assert_eq!(report.exit_code, 1);
    assert_eq!(
        report.stderr,
        Some("{\"err\":{\"code\":1,\"message\":\"Invalid arguments\"}}".to_string())
    );
}

#[test]
fn unknown_command_is_reported_with_99() {
    assert_eq!(parse_command(&args(&["frobnicate", "x"])), Err(UsageError::UnknownCommand));
    assert_eq!(parse_command(&args(&["--help"])), Err(UsageError::UnknownCommand));
    assert_eq!(parse_command(&args(&["Install", "a", "b", "c", "d"])), Err(UsageError::UnknownCommand));
    let report = report_usage_error(UsageError::UnknownCommand);
    assert_eq!(report.exit_code, 99);
    assert_eq!(
        report.stderr,
        Some("{\"err\":{\"code\":99,\"message\":\"Unknown command\"}}".to_string())
    );
}

#[test]
fn install_needs_four_arguments() {
    assert_eq!(
        parse_command(&args(&["install", "foo", "1.0", "/opt/foo"])),
        Err(UsageError::MissingArguments(CommandKind::Install))
    );
    assert_eq!(
        parse_command(&args(&["install", "foo", "1.0", "/opt/foo", "H"])),
        Ok(Command::Install {
            name: "foo".to_string(),
            version: "1.0".to_string(),
            path: "/opt/foo".to_string(),
            checksum: "H".to_string(),
        })
    );
    assert_eq!(
        UsageError::MissingArguments(CommandKind::Install).message(),
        "Usage: backend install <package> <version> <path> <checksum>"
    );
    assert_eq!(report_usage_error(UsageError::MissingArguments(CommandKind::Install)).exit_code, 1);
}

#[test]
fn surplus_arguments_are_passed_over() {
    assert_eq!(
        parse_command(&args(&["verify", "/opt/foo", "H", "extra"])),
        Ok(Command::Verify { path: "/opt/foo".to_string(), checksum: "H".to_string() })
    );
}

#[test]
fn each_command_has_its_arity() {
    assert_eq!(
        parse_command(&args(&["remove", "foo", "1.0"])),
        Err(UsageError::MissingArguments(CommandKind::Remove))
    );
    assert_eq!(
        parse_command(&args(&["remove", "foo", "1.0", "/opt/foo"])),
        Ok(Command::Remove {
            name: "foo".to_string(),
            version: "1.0".to_string(),
            path: "/opt/foo".to_string()
        })
    );
    assert_eq!(
        parse_command(&args(&["verify", "/opt/foo"])),
        Err(UsageError::MissingArguments(CommandKind::Verify))
    );
    assert_eq!(
        parse_command(&args(&["verify-signature", "/f"])),
        Err(UsageError::MissingArguments(CommandKind::VerifySignature))
    );
    assert_eq!(
        parse_command(&args(&["verify-signature", "/f", "c2ln"])),
        Ok(Command::VerifySignature { path: "/f".to_string(), signature: "c2ln".to_string() })
    );
    assert_eq!(parse_command(&args(&["list-installed"])), Ok(Command::ListInstalled));
    assert_eq!(
        parse_command(&args(&["sandbox-test"])),
        Err(UsageError::MissingArguments(CommandKind::SandboxTest))
    );
    assert_eq!(
        parse_command(&args(&["sandbox-test", "/tmp/stage"])),
        Ok(Command::SandboxTest { path: "/tmp/stage".to_string() })
    );
    assert_eq!(
        parse_command(&args(&["run", "foo"])),
        Err(UsageError::MissingArguments(CommandKind::Run))
    );
}

#[test]
fn run_hands_the_rest_to_the_program() {
    assert_eq!(
        parse_command(&args(&["run", "foo", "tool"])),
        Ok(Command::Run { name: "foo".to_string(), bin: "tool".to_string(), args: Vec::new() })
    );
    assert_eq!(
        parse_command(&args(&["run", "foo", "tool", "-v", "x y"])),
        Ok(Command::Run {
            name: "foo".to_string(),
            bin: "tool".to_string(),
            args: vec!["-v".to_string(), "x y".to_string()]
        })
    );
}

#[test]
fn failures_carry_the_code_of_their_command() {
    let table = [
        (CommandKind::Install, 4, "Install failed: x"),
        (CommandKind::Remove, 5, "Remove failed: x"),
        (CommandKind::Verify, 6, "Verification failed: x"),
        (CommandKind::VerifySignature, 6, "Verification failed: x"),
        (CommandKind::ListInstalled, 99, "List failed: x"),
        (CommandKind::SandboxTest, 4, "Sandbox test failed: x"),
        (CommandKind::Run, 1, "Run failed: x"),
    ];
    for (kind, number, message) in table {
        let report = report_failure(kind, "x");
        assert_eq!(report.exit_code, number);
        assert_eq!(kind.failure_code().code(), number);
        assert_eq!(report.stdout, None);
        assert_eq!(
            report.stderr,
            Some(format!("{{\"err\":{{\"code\":{},\"message\":\"{}\"}}}}", number, message))
        );
    }
}

#[test]
fn success_reports_name_the_package_where_there_is_one() {
    let install = Command::Install {
        name: "foo".to_string(),
        version: "1.0".to_string(),
        path: "/opt/foo".to_string(),
        checksum: "H".to_string(),
    };
    assert_eq!(
        report_success(&install).stdout,
        Some("{\"success\":true,\"package_name\":\"foo\"}".to_string())
    );
    assert_eq!(install.kind(), CommandKind::Install);
    let remove = Command::Remove {
        name: "foo".to_string(),
        version: "1.0".to_string(),
        path: "/opt/foo".to_string(),
    };
    assert_eq!(
        report_success(&remove).stdout,
        Some("{\"success\":true,\"package_name\":\"foo\"}".to_string())
    );
    let verify = Command::Verify { path: "/opt/foo".to_string(), checksum: "H".to_string() };
    assert_eq!(report_success(&verify).stdout, Some("{\"success\":true}".to_string()));
    assert_eq!(report_success(&verify).exit_code, 0);
    let test = Command::SandboxTest { path: "/tmp/stage".to_string() };
    assert_eq!(report_success(&test).stdout, Some("{\"success\":true}".to_string()));
}

#[test]
fn listing_prints_the_registry() {
    let mut state = State::new();
    update_state(&mut state, "foo", "1.0", "H");
    assert_eq!(
        report_listing(&state),
        Report {
            stdout: Some("{\"packages\":{\"foo\":{\"1.0\":\"H\"}}}".to_string()),
            stderr: None,
            exit_code: 0
        }
    );
}

#[test]
fn run_ends_with_the_payloads_code() {
    assert_eq!(
        report_run(ChildStatus::Exited(0), ""),
        Report { stdout: None, stderr: None, exit_code: 0 }
    );
    assert_eq!(
        report_run(ChildStatus::Exited(3), ""),
        Report { stdout: None, stderr: None, exit_code: 3 }
    );
    assert_eq!(
        report_run(ChildStatus::Other, ""),
        Report { stdout: None, stderr: None, exit_code: 1 }
    );
    assert_eq!(
        report_run(ChildStatus::Exited(1), "Unshare failed"),
        Report {
            stdout: None,
            stderr: Some(
                "{\"err\":{\"code\":1,\"message\":\"Run failed: Sandbox child failed: Unshare failed\"}}"
                    .to_string()
            ),
            exit_code: 1
        }
    );
}

#[test]
fn unreadable_registry_is_a_verification_failure() {
    assert_eq!(
        report_corrupt_registry("expected value at line 1 column 1"),
        Report {
            stdout: None,
            stderr: Some(
                "{\"err\":{\"code\":6,\"message\":\"Registry unreadable: expected value at line 1 column 1\"}}"
                    .to_string()
            ),
            exit_code: 6
        }
    );
}
