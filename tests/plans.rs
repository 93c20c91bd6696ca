use rusky::editor::{added_content, set_content};
use rusky::hooks::{HookEvent, DISPATCHER_SCRIPT, STUB_MODE, STUB_SCRIPT};
use rusky::plan::{hooks_path, install_plan, uninstall_plan, Op};

fn stub_writes(ops: &[Op]) -> Vec<(String, String, String)> {
    ops.iter()
        .filter_map(|op| match op {
            Op::WriteFile { dir, name, content } if content == STUB_SCRIPT => {
                Some((dir.clone(), name.clone(), content.clone()))
            }
            _ => None,
        })
        .collect()
}

#[test]
fn stub_script_is_exact() {
    assert_eq!(STUB_SCRIPT, "#!/usr/bin/env sh\n. \"${0%/*}/rusky\"");
    assert_eq!(STUB_MODE, 0o755);
}

#[test]
fn hooks_path_appends_underscore() {
    assert_eq!(hooks_path(".rusky"), ".rusky/_");
    assert_eq!(hooks_path("tools/hooks"), "tools/hooks/_");
}

#[test]
fn event_names_are_the_thirteen_git_hooks() {
    let names: Vec<&str> = HookEvent::all().iter().map(|e| e.name()).collect();
    assert_eq!(
        names,
        vec![
            "pre-commit",
            "prepare-commit-msg",
            "commit-msg",
            "post-commit",
            "applypatch-msg",
            "pre-applypatch",
            "post-applypatch",
            "pre-rebase",
            "post-rewrite",
            "post-checkout",
            "post-merge",
            "pre-push",
            "pre-auto-gc",
        ]
    );
}

#[test]
fn install_plan_writes_every_stub_executable() {
    let ops = install_plan("hooks", false);
    let stubs = stub_writes(&ops);
    assert_eq!(stubs.len(), 13);
    for e in HookEvent::all() {
        let name = e.name();
        assert!(stubs.iter().any(|(d, n, _)| d == "hooks/_" && n == name));
        assert!(ops.iter().any(|op| matches!(op,
            Op::SetMode { dir, name: n, mode } if dir == "hooks/_" && n == name && *mode == 0o755)));
    }
}

#[test]
fn install_plan_order() {
    let ops = install_plan(".rusky", false);
    assert_eq!(ops.len(), 4 + 2 * 13 + 1);
    assert!(matches!(ops[0], Op::CheckTool));
    assert!(matches!(&ops[1], Op::CreateDirAll { path } if path == ".rusky/_"));
    assert!(matches!(&ops[2],
        Op::WriteFile { dir, name, content } if dir == ".rusky/_" && name == ".gitignore" && content == "*"));
    assert!(matches!(&ops[3],
        Op::WriteFile { dir, name, content } if dir == ".rusky/_" && name == "rusky" && content == DISPATCHER_SCRIPT));
    assert!(matches!(&ops[4],
        Op::WriteFile { name, .. } if name == "pre-commit"));
    assert!(matches!(&ops[5],
        Op::SetMode { name, mode, .. } if name == "pre-commit" && *mode == 0o755));
    assert!(matches!(&ops[30],
        Op::SetConfig { key, value } if key == "core.hooksPath" && value == ".rusky/_"));
}

#[test]
fn install_plan_binds_hooks_path_last() {
    let ops = install_plan("some/dir", false);
    let configs: Vec<&Op> = ops.iter().filter(|op| matches!(op, Op::SetConfig { .. })).collect();
    assert_eq!(configs.len(), 1);
    assert!(matches!(ops.last(),
        Some(Op::SetConfig { key, value }) if key == "core.hooksPath" && value == "some/dir/_"));
}

#[test]
fn install_plan_checks_git_before_any_write() {
    let ops = install_plan(".rusky", false);
    assert!(matches!(ops[0], Op::CheckTool));
}

#[test]
fn skipped_install_plans_nothing() {
    assert!(install_plan(".rusky", true).is_empty());
}

#[test]
fn install_plan_twice_is_the_same_plan() {
    let a = format!("{:?}", install_plan(".rusky", false));
    let b = format!("{:?}", install_plan(".rusky", false));
    assert_eq!(a, b);
}

#[test]
fn uninstall_plan_unsets_only() {
    let ops = uninstall_plan();
    assert_eq!(ops.len(), 2);
    assert!(matches!(ops[0], Op::CheckTool));
    assert!(matches!(&ops[1], Op::UnsetConfig { key } if key == "core.hooksPath"));
    assert!(!ops.iter().any(|op| matches!(op, Op::WriteFile { .. } | Op::CreateDirAll { .. })));
}

#[test]
fn add_appends_without_separator() {
    assert_eq!(added_content("A", "X"), "AX");
    let stub = "#!/usr/bin/env sh\n. \"${0%/*}/rusky\"";
    assert_eq!(added_content(stub, "cargo fmt"), format!("{stub}cargo fmt"));
}

#[test]
fn set_replaces_everything() {
    assert_eq!(set_content("X"), "X");
    assert_eq!(set_content(""), "");
}

#[test]
fn fresh_repository_install_layout() {
    let ops = install_plan(".rusky", false);
    let mut files: Vec<String> = ops
        .iter()
        .filter_map(|op| match op {
            Op::WriteFile { dir, name, .. } if dir == ".rusky/_" => Some(name.clone()),
            _ => None,
        })
        .collect();
    files.sort();
    files.dedup();
    assert_eq!(files.len(), 15);
    assert!(files.contains(&"rusky".to_string()));
    assert!(files.contains(&".gitignore".to_string()));
    assert!(files.contains(&"pre-commit".to_string()));
    assert!(matches!(ops.last(),
        Some(Op::SetConfig { key, value }) if key == "core.hooksPath" && value == ".rusky/_"));
}
