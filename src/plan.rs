use vstd::prelude::*;
use vstd::string::*;
use crate::hooks::{
    event_names, HookEvent, DISPATCHER_NAME, DISPATCHER_SCRIPT, HOOKS_PATH_KEY, IGNORE_CONTENT,
    IGNORE_NAME, STUB_MODE, STUB_SCRIPT,
};
use crate::model::{join, Effect};

verus! {

/// One step of an install or uninstall, carried out by the driver.
#[derive(Debug)]
pub enum Op {
    /// Run `git --version` and require success.
    CheckTool,
    /// Create a directory and its parents; an existing one is kept.
    CreateDirAll { path: String },
    /// Write `content` to the file `name` in `dir`, replacing what was there.
    WriteFile { dir: String, name: String, content: String },
    /// Set the permission bits of the file `name` in `dir`.
    SetMode { dir: String, name: String, mode: u32 },
    /// Run `git config <key> <value>`.
    SetConfig { key: String, value: String },
    /// Run `git config --unset <key>`.
    UnsetConfig { key: String },
}

impl View for Op {
    type V = Effect;

    open spec fn view(&self) -> Effect {
        match self {
            Op::CheckTool => Effect::CheckTool,
            Op::CreateDirAll { path } => Effect::CreateDirAll { path: path@ },
            Op::WriteFile { dir, name, content } => Effect::WriteFile {
                dir: dir@,
                name: name@,
                content: content@,
            },
            Op::SetMode { dir, name, mode } => Effect::SetMode { dir: dir@, name: name@, mode: *mode },
            Op::SetConfig { key, value } => Effect::SetConfig { key: key@, value: value@ },
            Op::UnsetConfig { key } => Effect::UnsetConfig { key: key@ },
        }
    }
}

/// The effects of a sequence of operations.
pub open spec fn effects(ops: Seq<Op>) -> Seq<Effect> {
    ops.map_values(|o: Op| o@)
}

/// The managed subdirectory `_` of `dir`, where stubs and the dispatcher live.
pub open spec fn hooks_dir(dir: Seq<char>) -> Seq<char> {
    join(dir, seq!['_'])
}

/// For each name, write a stub into `dir`, then make it executable.
pub open spec fn stub_effects(dir: Seq<char>, names: Seq<Seq<char>>) -> Seq<Effect>
    decreases names.len(),
{
    if names.len() == 0 {
        seq![]
    } else {
        stub_effects(dir, names.drop_last()) + seq![
            Effect::WriteFile { dir, name: names.last(), content: STUB_SCRIPT@ },
            Effect::SetMode { dir, name: names.last(), mode: STUB_MODE },
        ]
    }
}

/// What install does before the stubs: check git, create the managed
/// directory, write the ignore marker and the dispatcher.
pub open spec fn install_prelude(h: Seq<char>) -> Seq<Effect> {
    seq![
        Effect::CheckTool,
        Effect::CreateDirAll { path: h },
        Effect::WriteFile { dir: h, name: IGNORE_NAME@, content: IGNORE_CONTENT@ },
        Effect::WriteFile { dir: h, name: DISPATCHER_NAME@, content: DISPATCHER_SCRIPT@ },
    ]
}

/// The whole install into `dir`; nothing at all when `skip` is set.
pub open spec fn install_effects(dir: Seq<char>, skip: bool) -> Seq<Effect> {
    if skip {
        seq![]
    } else {
        install_prelude(hooks_dir(dir)) + stub_effects(hooks_dir(dir), event_names()) + seq![
            Effect::SetConfig { key: HOOKS_PATH_KEY@, value: hooks_dir(dir) },
        ]
    }
}

/// Uninstall: check git, then unset the hook path. Files stay on disk.
pub open spec fn uninstall_effects() -> Seq<Effect> {
    seq![Effect::CheckTool, Effect::UnsetConfig { key: HOOKS_PATH_KEY@ }]
}

/// The managed subdirectory of `dir`: `dir/_`.
pub fn hooks_path(dir: &str) -> (r: String)
    ensures
        r@ == hooks_dir(dir@),
{
    let r = String::from_str(dir).concat("/_");
    proof {
        reveal_strlit("/_");
        assert(r@ =~= hooks_dir(dir@));
    }
    r
}

/// The operations that install the hooks into `dir`, or none when `skip`
/// (the opt-out setting) is set.
pub fn install_plan(dir: &str, skip: bool) -> (r: Vec<Op>)
    ensures
        effects(r@) == install_effects(dir@, skip),
{
    let mut ops: Vec<Op> = Vec::new();
    if skip {
        assert(effects(ops@) =~= install_effects(dir@, skip));
        return ops;
    }
    let h = hooks_path(dir);
    ops.push(Op::CheckTool);
    ops.push(Op::CreateDirAll { path: h.clone() });
    ops.push(
        Op::WriteFile {
            dir: h.clone(),
            name: String::from_str(IGNORE_NAME),
            content: String::from_str(IGNORE_CONTENT),
        },
    );
    ops.push(
        Op::WriteFile {
            dir: h.clone(),
            name: String::from_str(DISPATCHER_NAME),
            content: String::from_str(DISPATCHER_SCRIPT),
        },
    );
    let events = HookEvent::all();
    proof {
        assert(effects(ops@) =~= install_prelude(h@) + stub_effects(h@, event_names().take(0)));
    }
    let mut i: usize = 0;
    while i < events.len()
        invariant
            events@ == crate::hooks::all_events(),
            i <= events@.len(),
            effects(ops@) == install_prelude(h@) + stub_effects(h@, event_names().take(i as int)),
        decreases events@.len() - i,
    {
        let name = events[i].name();
        let ghost before = ops@;
        ops.push(
            Op::WriteFile {
                dir: h.clone(),
                name: String::from_str(name),
                content: String::from_str(STUB_SCRIPT),
            },
        );
        ops.push(Op::SetMode { dir: h.clone(), name: String::from_str(name), mode: STUB_MODE });
        proof {
            let next = event_names().take(i + 1);
            assert(next.drop_last() =~= event_names().take(i as int));
            assert(next.last() == name@);
            assert(effects(ops@) =~= effects(before) + seq![ops@[ops@.len() - 2]@, ops@[ops@.len() - 1]@]);
            assert(stub_effects(h@, next) == stub_effects(h@, next.drop_last()) + seq![
                Effect::WriteFile { dir: h@, name: next.last(), content: STUB_SCRIPT@ },
                Effect::SetMode { dir: h@, name: next.last(), mode: STUB_MODE },
            ]);
            assert(effects(ops@) =~= install_prelude(h@) + stub_effects(h@, next));
        }
        i = i + 1;
    }
    ops.push(Op::SetConfig { key: String::from_str(HOOKS_PATH_KEY), value: h });
    proof {
        assert(event_names().take(13) =~= event_names());
        assert(effects(ops@) =~= install_effects(dir@, skip));
    }
    ops
}

/// The operations that uninstall: check git, then unset `core.hooksPath`.
pub fn uninstall_plan() -> (r: Vec<Op>)
    ensures
        effects(r@) == uninstall_effects(),
{
    let r = vec![Op::CheckTool, Op::UnsetConfig { key: String::from_str(HOOKS_PATH_KEY) }];
    assert(effects(r@) =~= uninstall_effects());
    r
}

} // verus!
