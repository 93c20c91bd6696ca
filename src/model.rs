use vstd::prelude::*;

verus! {

/// Why an install or uninstall stopped.
#[derive(Clone, Copy, Debug, PartialEq, Eq, Structural)]
pub enum Error {
    /// `git --version` could not be run or did not succeed.
    ToolMissing,
    /// A directory, file or permission change failed.
    IoError,
    /// Setting `core.hooksPath` failed.
    ConfigWriteFailed,
    /// Unsetting `core.hooksPath` failed, also when it was not set.
    ConfigUnsetFailed,
}

impl Error {
    /// The line printed on standard error when a command stops with this error.
    pub fn message(&self) -> (r: &'static str)
        ensures
            r@ == match *self {
                Error::ToolMissing => "git command not found"@,
                Error::IoError => "failed to write the hooks directory"@,
                Error::ConfigWriteFailed => "failed to set hooks path"@,
                Error::ConfigUnsetFailed => "failed to unset hooks path"@,
            },
    {
        match self {
            Error::ToolMissing => "git command not found",
            Error::IoError => "failed to write the hooks directory",
            Error::ConfigWriteFailed => "failed to set hooks path",
            Error::ConfigUnsetFailed => "failed to unset hooks path",
        }
    }
}

/// What one operation does, over plain values.
pub ghost enum Effect {
    CheckTool,
    CreateDirAll { path: Seq<char> },
    WriteFile { dir: Seq<char>, name: Seq<char>, content: Seq<char> },
    SetMode { dir: Seq<char>, name: Seq<char>, mode: u32 },
    SetConfig { key: Seq<char>, value: Seq<char> },
    UnsetConfig { key: Seq<char> },
}

/// The part of the outside world that install and uninstall read and change.
pub ghost struct World {
    /// `git --version` runs and succeeds.
    pub tool: bool,
    /// The working directory lies in a repository whose configuration git can change.
    pub repo: bool,
    /// Directories that exist.
    pub dirs: Set<Seq<char>>,
    /// Content of each file, by path.
    pub files: Map<Seq<char>, Seq<char>>,
    /// Permission bits set on files, by path.
    pub modes: Map<Seq<char>, u32>,
    /// The repository's configuration.
    pub config: Map<Seq<char>, Seq<char>>,
}

/// The path of `name` inside directory `dir`.
pub open spec fn join(dir: Seq<char>, name: Seq<char>) -> Seq<char> {
    dir + seq!['/'] + name
}

/// The world after one operation, or `None` where it fails.
pub open spec fn apply(w: World, e: Effect) -> Option<World> {
    match e {
        Effect::CheckTool => if w.tool { Some(w) } else { None },
        Effect::CreateDirAll { path } => Some(World { dirs: w.dirs.insert(path), ..w }),
        Effect::WriteFile { dir, name, content } => if w.dirs.contains(dir) {
            Some(World { files: w.files.insert(join(dir, name), content), ..w })
        } else {
            None
        },
        Effect::SetMode { dir, name, mode } => if w.files.contains_key(join(dir, name)) {
            Some(World { modes: w.modes.insert(join(dir, name), mode), ..w })
        } else {
            None
        },
        Effect::SetConfig { key, value } => if w.repo {
            Some(World { config: w.config.insert(key, value), ..w })
        } else {
            None
        },
        Effect::UnsetConfig { key } => if w.repo && w.config.contains_key(key) {
            Some(World { config: w.config.remove(key), ..w })
        } else {
            None
        },
    }
}

/// The error that a failed operation reports.
pub open spec fn failure_of(e: Effect) -> Error {
    match e {
        Effect::CheckTool => Error::ToolMissing,
        Effect::CreateDirAll { .. } => Error::IoError,
        Effect::WriteFile { .. } => Error::IoError,
        Effect::SetMode { .. } => Error::IoError,
        Effect::SetConfig { .. } => Error::ConfigWriteFailed,
        Effect::UnsetConfig { .. } => Error::ConfigUnsetFailed,
    }
}

/// Operations performed in order, stopping at the first that fails.
pub open spec fn run(w: World, es: Seq<Effect>) -> (World, Result<(), Error>)
    decreases es.len(),
{
    if es.len() == 0 {
        (w, Ok(()))
    } else {
        match apply(w, es[0]) {
            Some(w1) => run(w1, es.drop_first()),
            None => (w, Err(failure_of(es[0]))),
        }
    }
}

/// Running two sequences one after the other is running the first, then,
/// where it succeeded, the second.
pub proof fn lemma_run_append(w: World, a: Seq<Effect>, b: Seq<Effect>)
    ensures
        run(w, a + b) == (if run(w, a).1 is Ok {
            run(run(w, a).0, b)
        } else {
            run(w, a)
        }),
    decreases a.len(),
{
    if a.len() == 0 {
        assert(a + b =~= b);
    } else {
        assert((a + b).drop_first() =~= a.drop_first() + b);
        if let Some(w1) = apply(w, a[0]) {
            lemma_run_append(w1, a.drop_first(), b);
        }
    }
}

/// `m` with each name of `names`, joined to `dir`, mapped to `v`.
pub open spec fn fill<V>(m: Map<Seq<char>, V>, dir: Seq<char>, names: Seq<Seq<char>>, v: V) -> Map<
    Seq<char>,
    V,
>
    decreases names.len(),
{
    if names.len() == 0 {
        m
    } else {
        fill(m, dir, names.drop_last(), v).insert(join(dir, names.last()), v)
    }
}

/// After `fill`, each joined name maps to the value.
pub proof fn lemma_fill<V>(m: Map<Seq<char>, V>, dir: Seq<char>, names: Seq<Seq<char>>, v: V)
    ensures
        forall|i: int|
            0 <= i < names.len() ==> #[trigger] fill(m, dir, names, v).contains_key(
                join(dir, names[i]),
            ) && fill(m, dir, names, v)[join(dir, names[i])] == v,
    decreases names.len(),
{
    if names.len() > 0 {
        let init = names.drop_last();
        lemma_fill(m, dir, init, v);
        let prev = fill(m, dir, init, v);
        assert forall|i: int| 0 <= i < names.len() implies #[trigger] fill(
            m,
            dir,
            names,
            v,
        ).contains_key(join(dir, names[i])) && fill(m, dir, names, v)[join(dir, names[i])] == v by {
            if i < names.len() - 1 {
                assert(names[i] == init[i]);
                assert(prev.contains_key(join(dir, init[i])));
            }
        }
    }
}

/// `fill` leaves a key that is none of the joined names as it was.
pub proof fn lemma_fill_other<V>(
    m: Map<Seq<char>, V>,
    dir: Seq<char>,
    names: Seq<Seq<char>>,
    v: V,
    k: Seq<char>,
)
    requires
        forall|i: int| 0 <= i < names.len() ==> k != #[trigger] join(dir, names[i]),
    ensures
        fill(m, dir, names, v).contains_key(k) == m.contains_key(k),
        fill(m, dir, names, v)[k] == m[k],
    decreases names.len(),
{
    if names.len() > 0 {
        let init = names.drop_last();
        assert forall|i: int| 0 <= i < init.len() implies k != #[trigger] join(dir, init[i]) by {
            assert(init[i] == names[i]);
        }
        lemma_fill_other(m, dir, init, v, k);
        assert(k != join(dir, names[names.len() - 1]));
    }
}

/// Filling keys that already hold the value changes nothing.
pub proof fn lemma_fill_settled<V>(m: Map<Seq<char>, V>, dir: Seq<char>, names: Seq<Seq<char>>, v: V)
    requires
        forall|i: int|
            0 <= i < names.len() ==> #[trigger] m.contains_key(join(dir, names[i])) && m[join(
                dir,
                names[i],
            )] == v,
    ensures
        fill(m, dir, names, v) == m,
    decreases names.len(),
{
    if names.len() > 0 {
        let init = names.drop_last();
        assert forall|i: int| 0 <= i < init.len() implies #[trigger] m.contains_key(
            join(dir, init[i]),
        ) && m[join(dir, init[i])] == v by {
            assert(init[i] == names[i]);
        }
        lemma_fill_settled(m, dir, init, v);
        assert(m.contains_key(join(dir, names[names.len() - 1])));
        assert(m.insert(join(dir, names.last()), v) =~= m);
    }
}

} // verus!
