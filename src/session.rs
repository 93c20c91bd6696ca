use vstd::prelude::*;
use crate::model::{apply, failure_of, run, Effect, Error, World};
use crate::plan::{effects, Op};

verus! {

/// Outcome once the driver has reported `oks` for the first operations of
/// `es`: `None` while an operation is still owed.
pub open spec fn replay(es: Seq<Effect>, oks: Seq<bool>) -> Option<Result<(), Error>>
    decreases oks.len(),
{
    if es.len() == 0 {
        Some(Ok(()))
    } else if oks.len() == 0 {
        None
    } else if !oks[0] {
        Some(Err(failure_of(es[0])))
    } else {
        replay(es.drop_first(), oks.drop_first())
    }
}

/// What a world answers, operation by operation, until one fails.
pub open spec fn answers(w: World, es: Seq<Effect>) -> Seq<bool>
    decreases es.len(),
{
    if es.len() == 0 {
        seq![]
    } else {
        match apply(w, es[0]) {
            Some(w1) => seq![true] + answers(w1, es.drop_first()),
            None => seq![false],
        }
    }
}

/// A driver that reports what the world answered ends with the outcome that
/// running the operations in that world gives.
pub proof fn replay_matches_run(w: World, es: Seq<Effect>)
    ensures
        replay(es, answers(w, es)) == Some(run(w, es).1),
    decreases es.len(),
{
    if es.len() > 0 {
        if let Some(w1) = apply(w, es[0]) {
            let rest = answers(w1, es.drop_first());
            assert((seq![true] + rest).drop_first() =~= rest);
            replay_matches_run(w1, es.drop_first());
        }
    }
}

/// The ghost state of a session: its operations and what has been reported.
pub ghost struct SessionView {
    pub effects: Seq<Effect>,
    pub reported: Seq<bool>,
}

/// Walks a plan one operation at a time: the driver performs `pending`,
/// reports whether it succeeded, and stops once `outcome` is known.
pub struct Session {
    ops: Vec<Op>,
    next: usize,
    failed: Option<Error>,
    reported: Ghost<Seq<bool>>,
}

proof fn lemma_replay_prefix(es: Seq<Effect>, oks: Seq<bool>, n: int)
    requires
        0 <= n <= es.len(),
        n <= oks.len(),
        forall|i: int| 0 <= i < n ==> oks[i],
    ensures
        replay(es, oks) == replay(es.skip(n), oks.skip(n)),
    decreases n,
{
    if n > 0 {
        assert(es.skip(1) =~= es.drop_first());
        assert(oks.skip(1) =~= oks.drop_first());
        lemma_replay_prefix(es.drop_first(), oks.drop_first(), n - 1);
        assert(es.drop_first().skip(n - 1) =~= es.skip(n));
        assert(oks.drop_first().skip(n - 1) =~= oks.skip(n));
    } else {
        assert(es.skip(0) =~= es);
        assert(oks.skip(0) =~= oks);
    }
}

impl View for Session {
    type V = SessionView;

    closed spec fn view(&self) -> SessionView {
        SessionView { effects: effects(self.ops@), reported: self.reported@ }
    }
}

impl Session {
    /// The session's internal consistency.
    pub closed spec fn inv(&self) -> bool {
        &&& self.next <= self.ops@.len()
        &&& self.reported@.len() == self.next + (if self.failed is Some { 1int } else { 0 })
        &&& forall|i: int| 0 <= i < self.next ==> self.reported@[i]
        &&& self.failed is Some ==> {
            &&& self.next < self.ops@.len()
            &&& !self.reported@[self.next as int]
            &&& self.failed == Some(failure_of(self.ops@[self.next as int]@))
        }
    }

    proof fn lemma_state(&self)
        requires
            self.inv(),
        ensures
            replay(self@.effects, self@.reported) == (if self.failed is Some {
                Some(Err(self.failed.unwrap()))
            } else if self.next == self.ops@.len() {
                Some(Ok(()))
            } else {
                None
            }),
    {
        let es = self@.effects;
        let oks = self@.reported;
        let n = self.next as int;
        lemma_replay_prefix(es, oks, n);
        let es2 = es.skip(n);
        let oks2 = oks.skip(n);
        if self.failed is Some {
            assert(es2[0] == self.ops@[n]@);
            assert(oks2[0] == oks[n]);
        } else {
            assert(oks2.len() == 0);
        }
    }

    /// A session over `ops`, with nothing reported yet.
    pub fn new(ops: Vec<Op>) -> (s: Session)
        ensures
            s.inv(),
            s@.effects == effects(ops@),
            s@.reported == Seq::<bool>::empty(),
    {
        Session { ops, next: 0, failed: None, reported: Ghost(Seq::empty()) }
    }

    /// The operation to perform now, or `None` once the outcome is known.
    pub fn pending(&self) -> (r: Option<&Op>)
        requires
            self.inv(),
        ensures
            r is Some <==> replay(self@.effects, self@.reported) is None,
            r is Some ==> self@.reported.len() < self@.effects.len() && r.unwrap()@
                == self@.effects[self@.reported.len() as int],
    {
        proof {
            self.lemma_state();
        }
        if self.failed.is_none() && self.next < self.ops.len() {
            Some(&self.ops[self.next])
        } else {
            None
        }
    }

    /// Records whether the pending operation succeeded.
    pub fn report(&mut self, ok: bool)
        requires
            old(self).inv(),
            replay(old(self)@.effects, old(self)@.reported) is None,
        ensures
            final(self).inv(),
            final(self)@.effects == old(self)@.effects,
            final(self)@.reported == old(self)@.reported.push(ok),
    {
        proof {
            self.lemma_state();
        }
        let ghost prev = self.reported@;
        let len = self.ops.len();
        assert(self.failed is None && self.next < len);
        if ok {
            self.next = self.next + 1;
        } else {
            self.failed = Some(failure_of_op(&self.ops[self.next]));
        }
        self.reported = Ghost(prev.push(ok));
    }

    /// `Ok` once every operation succeeded, the first failure's error once one
    /// failed, `None` while operations are pending.
    pub fn outcome(&self) -> (r: Option<Result<(), Error>>)
        requires
            self.inv(),
        ensures
            r == replay(self@.effects, self@.reported),
    {
        proof {
            self.lemma_state();
        }
        match self.failed {
            Some(e) => Some(Err(e)),
            None => if self.next == self.ops.len() {
                Some(Ok(()))
            } else {
                None
            },
        }
    }
}

/// The error that a failure of `op` reports.
pub fn failure_of_op(op: &Op) -> (r: Error)
    ensures
        r == failure_of(op@),
{
    match op {
        Op::CheckTool => Error::ToolMissing,
        Op::CreateDirAll { .. } => Error::IoError,
        Op::WriteFile { .. } => Error::IoError,
        Op::SetMode { .. } => Error::IoError,
        Op::SetConfig { .. } => Error::ConfigWriteFailed,
        Op::UnsetConfig { .. } => Error::ConfigUnsetFailed,
    }
}

} // verus!
