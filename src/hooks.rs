use vstd::prelude::*;
use vstd::string::*;

verus! {

/// The thirteen git lifecycle points for which a stub file is installed.
#[derive(Clone, Copy, Debug, PartialEq, Eq, Structural)]
pub enum HookEvent {
    PreCommit,
    PrepareCommitMsg,
    CommitMsg,
    PostCommit,
    ApplypatchMsg,
    PreApplypatch,
    PostApplypatch,
    PreRebase,
    PostRewrite,
    PostCheckout,
    PostMerge,
    PrePush,
    PreAutoGc,
}

/// Every hook event, in installation order.
pub open spec fn all_events() -> Seq<HookEvent> {
    seq![
        HookEvent::PreCommit,
        HookEvent::PrepareCommitMsg,
        HookEvent::CommitMsg,
        HookEvent::PostCommit,
        HookEvent::ApplypatchMsg,
        HookEvent::PreApplypatch,
        HookEvent::PostApplypatch,
        HookEvent::PreRebase,
        HookEvent::PostRewrite,
        HookEvent::PostCheckout,
        HookEvent::PostMerge,
        HookEvent::PrePush,
        HookEvent::PreAutoGc,
    ]
}

/// File name git uses for each event.
pub open spec fn event_name(e: HookEvent) -> Seq<char> {
    match e {
        HookEvent::PreCommit => "pre-commit"@,
        HookEvent::PrepareCommitMsg => "prepare-commit-msg"@,
        HookEvent::CommitMsg => "commit-msg"@,
        HookEvent::PostCommit => "post-commit"@,
        HookEvent::ApplypatchMsg => "applypatch-msg"@,
        HookEvent::PreApplypatch => "pre-applypatch"@,
        HookEvent::PostApplypatch => "post-applypatch"@,
        HookEvent::PreRebase => "pre-rebase"@,
        HookEvent::PostRewrite => "post-rewrite"@,
        HookEvent::PostCheckout => "post-checkout"@,
        HookEvent::PostMerge => "post-merge"@,
        HookEvent::PrePush => "pre-push"@,
        HookEvent::PreAutoGc => "pre-auto-gc"@,
    }
}

/// File names of all events, in installation order.
pub open spec fn event_names() -> Seq<Seq<char>> {
    all_events().map_values(|e: HookEvent| event_name(e))
}

/// Content of every stub: a shebang, then a line that sources the dispatcher
/// next to the stub, found from the stub's own invocation path.
pub const STUB_SCRIPT: &'static str = "#!/usr/bin/env sh\n. \"${0%/*}/rusky\"";

/// The dispatcher the stubs source. It runs the user's hook file of the same
/// name, one directory above the stub, with the same arguments and standard
/// input, and exits with its status; without such a file it exits 0.
pub const DISPATCHER_SCRIPT: &'static str = "#!/usr/bin/env sh\n\
if [ \"$RUSKY\" = \"2\" ]; then set -x; fi\n\
hook_name=\"${0##*/}\"\n\
hook_file=\"${0%/*}/../$hook_name\"\n\
if [ ! -f \"$hook_file\" ]; then exit 0; fi\n\
sh -e \"$hook_file\" \"$@\"\n\
status=$?\n\
if [ $status != 0 ]; then echo \"rusky - $hook_name hook exited with code $status\" 1>&2; fi\n\
exit $status\n";

/// Name of the dispatcher file inside the managed directory.
pub const DISPATCHER_NAME: &'static str = "rusky";

/// Name of the ignore marker inside the managed directory.
pub const IGNORE_NAME: &'static str = ".gitignore";

/// Content of the ignore marker: ignore everything.
pub const IGNORE_CONTENT: &'static str = "*";

/// Default managed directory, relative to the working directory.
pub const DEFAULT_DIR: &'static str = ".rusky";

/// The git configuration key that redirects hook lookup.
pub const HOOKS_PATH_KEY: &'static str = "core.hooksPath";

/// Permission bits of a stub: rwxr-xr-x.
pub const STUB_MODE: u32 = 0o755;

impl HookEvent {
    /// The file name git uses for this event.
    pub fn name(&self) -> (r: &'static str)
        ensures
            r@ == event_name(*self),
    {
        match self {
            HookEvent::PreCommit => "pre-commit",
            HookEvent::PrepareCommitMsg => "prepare-commit-msg",
            HookEvent::CommitMsg => "commit-msg",
            HookEvent::PostCommit => "post-commit",
            HookEvent::ApplypatchMsg => "applypatch-msg",
            HookEvent::PreApplypatch => "pre-applypatch",
            HookEvent::PostApplypatch => "post-applypatch",
            HookEvent::PreRebase => "pre-rebase",
            HookEvent::PostRewrite => "post-rewrite",
            HookEvent::PostCheckout => "post-checkout",
            HookEvent::PostMerge => "post-merge",
            HookEvent::PrePush => "pre-push",
            HookEvent::PreAutoGc => "pre-auto-gc",
        }
    }

    /// All events, in installation order.
    pub fn all() -> (r: Vec<HookEvent>)
        ensures
            r@ == all_events(),
    {
        let r = vec![
            HookEvent::PreCommit,
            HookEvent::PrepareCommitMsg,
            HookEvent::CommitMsg,
            HookEvent::PostCommit,
            HookEvent::ApplypatchMsg,
            HookEvent::PreApplypatch,
            HookEvent::PostApplypatch,
            HookEvent::PreRebase,
            HookEvent::PostRewrite,
            HookEvent::PostCheckout,
            HookEvent::PostMerge,
            HookEvent::PrePush,
            HookEvent::PreAutoGc,
        ];
        assert(r@ =~= all_events());
        r
    }
}

} // verus!
