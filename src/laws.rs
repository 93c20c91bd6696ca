use vstd::prelude::*;
use crate::hooks::{
    all_events, event_name, event_names, HookEvent, DISPATCHER_NAME, DISPATCHER_SCRIPT,
    HOOKS_PATH_KEY, IGNORE_CONTENT, IGNORE_NAME, STUB_MODE, STUB_SCRIPT,
};
use crate::model::{
    apply, fill, join, lemma_fill, lemma_fill_other, lemma_fill_settled, lemma_run_append, run,
    Effect, Error, World,
};
use crate::plan::{hooks_dir, install_effects, install_prelude, stub_effects, uninstall_effects};

verus! {

/// The world after a successful install into `dir`.
pub open spec fn installed(w: World, dir: Seq<char>) -> World {
    let h = hooks_dir(dir);
    World {
        dirs: w.dirs.insert(h),
        files: fill(
            w.files.insert(join(h, IGNORE_NAME@), IGNORE_CONTENT@).insert(
                join(h, DISPATCHER_NAME@),
                DISPATCHER_SCRIPT@,
            ),
            h,
            event_names(),
            STUB_SCRIPT@,
        ),
        modes: fill(w.modes, h, event_names(), STUB_MODE),
        config: w.config.insert(HOOKS_PATH_KEY@, h),
        ..w
    }
}

proof fn lemma_stubs_run(w: World, h: Seq<char>, names: Seq<Seq<char>>)
    requires
        w.dirs.contains(h),
    ensures
        run(w, stub_effects(h, names)) == (World {
            files: fill(w.files, h, names, STUB_SCRIPT@),
            modes: fill(w.modes, h, names, STUB_MODE),
            ..w
        }, Ok::<(), Error>(())),
    decreases names.len(),
{
    if names.len() > 0 {
        let init = names.drop_last();
        let tail = seq![
            Effect::WriteFile { dir: h, name: names.last(), content: STUB_SCRIPT@ },
            Effect::SetMode { dir: h, name: names.last(), mode: STUB_MODE },
        ];
        lemma_run_append(w, stub_effects(h, init), tail);
        lemma_stubs_run(w, h, init);
        let w1 = run(w, stub_effects(h, init)).0;
        let w2 = apply(w1, tail[0]).unwrap();
        let w3 = apply(w2, tail[1]).unwrap();
        assert(tail.drop_first() =~= seq![tail[1]]);
        assert(seq![tail[1]].drop_first() =~= Seq::<Effect>::empty());
        assert(run(w3, Seq::<Effect>::empty()) == (w3, Ok::<(), Error>(())));
        assert(run(w2, seq![tail[1]]) == (w3, Ok::<(), Error>(())));
        assert(run(w1, tail) == (w3, Ok::<(), Error>(())));
    }
}

proof fn lemma_single_run(w: World, e: Effect)
    ensures
        run(w, seq![e]) == (match apply(w, e) {
            Some(w1) => (w1, Ok::<(), Error>(())),
            None => (w, Err(crate::model::failure_of(e))),
        }),
{
    assert(seq![e].drop_first() =~= Seq::<Effect>::empty());
    if let Some(w1) = apply(w, e) {
        assert(run(w1, Seq::<Effect>::empty()) == (w1, Ok::<(), Error>(())));
    }
}

/// Install succeeds exactly when git runs and the repository configuration can
/// be written. Without git it fails with `ToolMissing` and changes nothing; on
/// success the world is `installed(w, dir)`.
pub proof fn install_outcome(w: World, dir: Seq<char>)
    ensures
        run(w, install_effects(dir, false)).1 == (if !w.tool {
            Err(Error::ToolMissing)
        } else if !w.repo {
            Err(Error::ConfigWriteFailed)
        } else {
            Ok(())
        }),
        !w.tool ==> run(w, install_effects(dir, false)).0 == w,
        w.tool && w.repo ==> run(w, install_effects(dir, false)).0 == installed(w, dir),
{
    let h = hooks_dir(dir);
    let pre = install_prelude(h);
    let stubs = stub_effects(h, event_names());
    let cfg = seq![Effect::SetConfig { key: HOOKS_PATH_KEY@, value: h }];
    assert(install_effects(dir, false) == (pre + stubs) + cfg);
    lemma_run_append(w, pre + stubs, cfg);
    lemma_run_append(w, pre, stubs);
    if !w.tool {
        assert(run(w, pre) == (w, Err::<(), Error>(Error::ToolMissing)));
    } else {
        let w1 = World { dirs: w.dirs.insert(h), ..w };
        let w2 = World { files: w1.files.insert(join(h, IGNORE_NAME@), IGNORE_CONTENT@), ..w1 };
        let w3 = World {
            files: w2.files.insert(join(h, DISPATCHER_NAME@), DISPATCHER_SCRIPT@),
            ..w2
        };
        assert(pre.drop_first() =~= seq![pre[1], pre[2], pre[3]]);
        assert(seq![pre[1], pre[2], pre[3]].drop_first() =~= seq![pre[2], pre[3]]);
        assert(seq![pre[2], pre[3]].drop_first() =~= seq![pre[3]]);
        lemma_single_run(w2, pre[3]);
        assert(run(w1, seq![pre[2], pre[3]]) == (w3, Ok::<(), Error>(())));
        assert(run(w, seq![pre[1], pre[2], pre[3]]) == (w3, Ok::<(), Error>(())));
        assert(run(w, pre) == (w3, Ok::<(), Error>(())));
        lemma_stubs_run(w3, h, event_names());
        let w4 = run(w3, stubs).0;
        lemma_single_run(w4, cfg[0]);
        if w.repo {
            assert(run(w, install_effects(dir, false)).0 =~= installed(w, dir));
        }
    }
}

/// With the opt-out set, install does nothing and succeeds.
pub proof fn install_skipped(w: World, dir: Seq<char>)
    ensures
        run(w, install_effects(dir, true)) == (w, Ok::<(), Error>(())),
{
}

/// Without a working git, install fails with `ToolMissing` before any write.
pub proof fn install_without_tool(w: World, dir: Seq<char>)
    requires
        !w.tool,
    ensures
        run(w, install_effects(dir, false)) == (w, Err::<(), Error>(Error::ToolMissing)),
{
    install_outcome(w, dir);
}

/// The position of each event in installation order.
pub open spec fn event_index(e: HookEvent) -> int {
    match e {
        HookEvent::PreCommit => 0,
        HookEvent::PrepareCommitMsg => 1,
        HookEvent::CommitMsg => 2,
        HookEvent::PostCommit => 3,
        HookEvent::ApplypatchMsg => 4,
        HookEvent::PreApplypatch => 5,
        HookEvent::PostApplypatch => 6,
        HookEvent::PreRebase => 7,
        HookEvent::PostRewrite => 8,
        HookEvent::PostCheckout => 9,
        HookEvent::PostMerge => 10,
        HookEvent::PrePush => 11,
        HookEvent::PreAutoGc => 12,
    }
}

proof fn lemma_event_index(e: HookEvent)
    ensures
        0 <= event_index(e) < event_names().len(),
        event_names()[event_index(e)] == event_name(e),
{
    assert(all_events()[event_index(e)] == e);
}

/// After a successful install into `dir`, each event has a stub in `dir/_`
/// holding exactly the stub script, with mode rwxr-xr-x.
pub proof fn install_writes_stubs(w: World, dir: Seq<char>, e: HookEvent)
    requires
        run(w, install_effects(dir, false)).1 is Ok,
    ensures
        run(w, install_effects(dir, false)).0.files.contains_key(join(hooks_dir(dir), event_name(e))),
        run(w, install_effects(dir, false)).0.files[join(hooks_dir(dir), event_name(e))] == STUB_SCRIPT@,
        run(w, install_effects(dir, false)).0.modes.contains_key(join(hooks_dir(dir), event_name(e))),
        run(w, install_effects(dir, false)).0.modes[join(hooks_dir(dir), event_name(e))] == STUB_MODE,
{
    install_outcome(w, dir);
    let h = hooks_dir(dir);
    let f0 = w.files.insert(join(h, IGNORE_NAME@), IGNORE_CONTENT@).insert(
        join(h, DISPATCHER_NAME@),
        DISPATCHER_SCRIPT@,
    );
    let k = event_index(e);
    lemma_event_index(e);
    lemma_fill(f0, h, event_names(), STUB_SCRIPT@);
    lemma_fill(w.modes, h, event_names(), STUB_MODE);
    assert(fill(f0, h, event_names(), STUB_SCRIPT@).contains_key(join(h, event_names()[k])));
    assert(fill(w.modes, h, event_names(), STUB_MODE).contains_key(join(h, event_names()[k])));
    assert(installed(w, dir).files == fill(f0, h, event_names(), STUB_SCRIPT@));
}

/// After a successful install into `dir`, `core.hooksPath` is `dir/_`.
pub proof fn install_binds_hooks_path(w: World, dir: Seq<char>)
    requires
        run(w, install_effects(dir, false)).1 is Ok,
    ensures
        run(w, install_effects(dir, false)).0.config.contains_key(HOOKS_PATH_KEY@),
        run(w, install_effects(dir, false)).0.config[HOOKS_PATH_KEY@] == hooks_dir(dir),
{
    install_outcome(w, dir);
}

/// Uninstall after a successful install succeeds and removes `core.hooksPath`,
/// leaving every directory, file and permission as install left them.
pub proof fn uninstall_after_install(w: World, dir: Seq<char>)
    requires
        run(w, install_effects(dir, false)).1 is Ok,
    ensures
        ({
            let w1 = run(w, install_effects(dir, false)).0;
            let w2 = run(w1, uninstall_effects());
            &&& w2.1 is Ok
            &&& !w2.0.config.contains_key(HOOKS_PATH_KEY@)
            &&& w2.0.dirs == w1.dirs
            &&& w2.0.files == w1.files
            &&& w2.0.modes == w1.modes
        }),
{
    install_outcome(w, dir);
    let w1 = run(w, install_effects(dir, false)).0;
    let u = uninstall_effects();
    assert(u.drop_first() =~= seq![u[1]]);
    lemma_single_run(w1, u[1]);
}

proof fn lemma_join_apart(h: Seq<char>, a: Seq<char>, b: Seq<char>)
    requires
        a != b,
    ensures
        join(h, a) != join(h, b),
{
    if join(h, a) == join(h, b) {
        let n: int = h.len() as int + 1;
        assert(join(h, a).subrange(n, join(h, a).len() as int) =~= a);
        assert(join(h, b).subrange(n, join(h, b).len() as int) =~= b);
    }
}

proof fn lemma_names_apart(h: Seq<char>)
    ensures
        forall|i: int|
            0 <= i < event_names().len() ==> #[trigger] join(h, event_names()[i]) != join(
                h,
                IGNORE_NAME@,
            ) && join(h, event_names()[i]) != join(h, DISPATCHER_NAME@),
{
    reveal_strlit(".gitignore");
    reveal_strlit("rusky");
    reveal_strlit("pre-commit");
    reveal_strlit("prepare-commit-msg");
    reveal_strlit("commit-msg");
    reveal_strlit("post-commit");
    reveal_strlit("applypatch-msg");
    reveal_strlit("pre-applypatch");
    reveal_strlit("post-applypatch");
    reveal_strlit("pre-rebase");
    reveal_strlit("post-rewrite");
    reveal_strlit("post-checkout");
    reveal_strlit("post-merge");
    reveal_strlit("pre-push");
    reveal_strlit("pre-auto-gc");
    assert forall|i: int| 0 <= i < event_names().len() implies #[trigger] join(
        h,
        event_names()[i],
    ) != join(h, IGNORE_NAME@) && join(h, event_names()[i]) != join(h, DISPATCHER_NAME@) by {
        let n = event_names()[i];
        assert(n == event_name(all_events()[i]));
        assert(n.len() != DISPATCHER_NAME@.len());
        assert(n.len() != IGNORE_NAME@.len() || n[0] != IGNORE_NAME@[0]);
        lemma_join_apart(h, n, IGNORE_NAME@);
        lemma_join_apart(h, n, DISPATCHER_NAME@);
    }
}

/// Install is idempotent: installing into `dir` again right after a
/// successful install succeeds and leaves the world exactly as it was.
pub proof fn install_idempotent(w: World, dir: Seq<char>)
    requires
        run(w, install_effects(dir, false)).1 is Ok,
    ensures
        ({
            let w1 = run(w, install_effects(dir, false)).0;
            run(w1, install_effects(dir, false)) == (w1, Ok::<(), Error>(()))
        }),
{
    install_outcome(w, dir);
    let w1 = installed(w, dir);
    install_outcome(w1, dir);
    let h = hooks_dir(dir);
    let ig = join(h, IGNORE_NAME@);
    let rk = join(h, DISPATCHER_NAME@);
    let f0 = w.files.insert(ig, IGNORE_CONTENT@).insert(rk, DISPATCHER_SCRIPT@);
    lemma_names_apart(h);
    lemma_fill(f0, h, event_names(), STUB_SCRIPT@);
    lemma_fill(w.modes, h, event_names(), STUB_MODE);
    lemma_fill_other(f0, h, event_names(), STUB_SCRIPT@, ig);
    lemma_fill_other(f0, h, event_names(), STUB_SCRIPT@, rk);
    let f1 = w1.files;
    assert(f1.insert(ig, IGNORE_CONTENT@).insert(rk, DISPATCHER_SCRIPT@) =~= f1);
    lemma_fill_settled(f1, h, event_names(), STUB_SCRIPT@);
    lemma_fill_settled(w1.modes, h, event_names(), STUB_MODE);
    assert(w1.dirs.insert(h) =~= w1.dirs);
    assert(w1.config.insert(HOOKS_PATH_KEY@, h) =~= w1.config);
    assert(installed(w1, dir) =~= w1);
}

} // verus!
