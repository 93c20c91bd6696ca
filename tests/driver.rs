use rusky::cli::{parse_command, skip_install, Command};
use rusky::model::Error;
use rusky::plan::{install_plan, uninstall_plan, Op};
use rusky::session::{failure_of_op, Session};

fn args(list: &[&str]) -> Vec<String> {
    list.iter().map(|s| s.to_string()).collect()
}

/// Drives a session, answering each operation with `answer`; returns the
/// outcome and the number of operations performed.
fn drive(ops: Vec<Op>, answer: impl Fn(&Op) -> bool) -> (Result<(), Error>, usize) {
    let mut s = Session::new(ops);
    let mut performed = 0;
    while let Some(op) = s.pending() {
        let ok = answer(op);
        performed += 1;
        s.report(ok);
    }
    (s.outcome().unwrap(), performed)
}

#[test]
fn session_runs_every_operation_on_success() {
    let (r, n) = drive(install_plan(".rusky", false), |_| true);
    assert_eq!(r, Ok(()));
    assert_eq!(n, 31);
}

#[test]
fn missing_git_stops_before_any_write() {
    let (r, n) = drive(install_plan(".rusky", false), |op| !matches!(op, Op::CheckTool));
    assert_eq!(r, Err(Error::ToolMissing));
    assert_eq!(n, 1);
}

#[test]
fn write_failure_aborts_install() {
    let (r, n) = drive(install_plan(".rusky", false), |op| {
        !matches!(op, Op::WriteFile { name, .. } if name == "post-merge")
    });
    assert_eq!(r, Err(Error::IoError));
    assert_eq!(n, 4 + 2 * 10 + 1);
}

#[test]
fn config_write_failure_is_reported() {
    let (r, _) = drive(install_plan(".rusky", false), |op| !matches!(op, Op::SetConfig { .. }));
    assert_eq!(r, Err(Error::ConfigWriteFailed));
}

#[test]
fn unset_of_absent_key_is_an_error() {
    let (r, n) = drive(uninstall_plan(), |op| !matches!(op, Op::UnsetConfig { .. }));
    assert_eq!(r, Err(Error::ConfigUnsetFailed));
    assert_eq!(n, 2);
}

#[test]
fn skipped_install_succeeds_without_operations() {
    let (r, n) = drive(install_plan(".rusky", true), |_| panic!("no operation expected"));
    assert_eq!(r, Ok(()));
    assert_eq!(n, 0);
}

#[test]
fn outcome_is_unknown_while_pending() {
    let s = Session::new(uninstall_plan());
    assert!(s.outcome().is_none());
    assert!(matches!(s.pending(), Some(Op::CheckTool)));
}

#[test]
fn failure_kinds_per_operation() {
    assert_eq!(failure_of_op(&Op::CheckTool), Error::ToolMissing);
    assert_eq!(failure_of_op(&Op::CreateDirAll { path: "d".to_string() }), Error::IoError);
    assert_eq!(
        failure_of_op(&Op::SetMode { dir: "d".to_string(), name: "n".to_string(), mode: 0o755 }),
        Error::IoError
    );
    assert_eq!(
        failure_of_op(&Op::UnsetConfig { key: "core.hooksPath".to_string() }),
        Error::ConfigUnsetFailed
    );
}

#[test]
fn error_messages() {
    assert_eq!(Error::ToolMissing.message(), "git command not found");
    assert_eq!(Error::ConfigWriteFailed.message(), "failed to set hooks path");
    assert_eq!(Error::ConfigUnsetFailed.message(), "failed to unset hooks path");
}

#[test]
fn skip_only_on_zero() {
    assert!(skip_install(Some("0")));
    assert!(!skip_install(Some("1")));
    assert!(!skip_install(Some("")));
    assert!(!skip_install(Some("00")));
    assert!(!skip_install(None));
}

#[test]
fn parse_install_default_and_given_dir() {
    assert!(matches!(parse_command(&args(&["install"])), Command::Install { dir } if dir == ".rusky"));
    assert!(matches!(parse_command(&args(&["install", "hooks"])), Command::Install { dir } if dir == "hooks"));
}

#[test]
fn parse_other_commands() {
    assert!(matches!(parse_command(&args(&["uninstall"])), Command::Uninstall));
    assert!(matches!(parse_command(&args(&["set", ".rusky/pre-commit", "cargo fmt"])),
        Command::SetHook { file, command } if file == ".rusky/pre-commit" && command == "cargo fmt"));
    assert!(matches!(parse_command(&args(&["add", "f", "x"])),
        Command::AddHook { file, command } if file == "f" && command == "x"));
}

#[test]
fn parse_unknown_or_missing_gives_help() {
    assert!(matches!(parse_command(&args(&[])), Command::Help));
    assert!(matches!(parse_command(&args(&["frobnicate"])), Command::Help));
    assert!(matches!(parse_command(&args(&["set", "only-file"])), Command::Help));
}
