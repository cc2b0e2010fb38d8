use vstd::prelude::*;

verus! {

/// State of the guard around the single model instance. A holder is named by
/// the identifier of the request that holds it.
#[derive(Debug, Clone, Copy, PartialEq, Eq, Structural)]
pub enum GuardStatus {
    Available,
    Held(u64),
    Poisoned,
}

/// Answer to one attempt at acquiring the guard.
#[derive(Debug, Clone, Copy, PartialEq, Eq, Structural)]
pub enum Acquire {
    /// The caller now holds the guard.
    Granted,
    /// Another request holds it: wait and try again.
    Wait,
    /// A previous holder ended abnormally: the model cannot be trusted.
    Poisoned,
}

/// One operation on the guard, as a request handler performs it.
#[derive(Debug, Clone, Copy, PartialEq, Eq, Structural)]
pub enum GuardOp {
    Acquire(u64),
    Release { who: u64, abnormal: bool },
}

/// Status and answer after `who` tries to acquire the guard in status `s`.
pub open spec fn acquire_next(s: GuardStatus, who: u64) -> (GuardStatus, Acquire) {
    match s {
        GuardStatus::Available => (GuardStatus::Held(who), Acquire::Granted),
        GuardStatus::Held(_) => (s, Acquire::Wait),
        GuardStatus::Poisoned => (s, Acquire::Poisoned),
    }
}

/// Status after `who` gives the guard back; only the holder can release it.
pub open spec fn release_next(s: GuardStatus, who: u64, abnormal: bool) -> GuardStatus {
    match s {
        GuardStatus::Held(h) => if h == who {
            if abnormal {
                GuardStatus::Poisoned
            } else {
                GuardStatus::Available
            }
        } else {
            s
        },
        _ => s,
    }
}

pub open spec fn op_next(s: GuardStatus, op: GuardOp) -> GuardStatus {
    match op {
        GuardOp::Acquire(who) => acquire_next(s, who).0,
        GuardOp::Release { who, abnormal } => release_next(s, who, abnormal),
    }
}

/// Status after the operations `ops`, in order, starting from `s`.
pub open spec fn run(s: GuardStatus, ops: Seq<GuardOp>) -> GuardStatus
    decreases ops.len(),
{
    if ops.len() == 0 {
        s
    } else {
        op_next(run(s, ops.drop_last()), ops.last())
    }
}

/// The guard serialising access to the model: at most one request holds it.
#[derive(Debug)]
pub struct AccessGuard {
    pub status: GuardStatus,
}

impl AccessGuard {
    /// A guard that nobody holds.
    pub fn new() -> (g: AccessGuard)
        ensures
            g.status == GuardStatus::Available,
    {
        AccessGuard { status: GuardStatus::Available }
    }

    /// Current status of the guard.
    pub fn status(&self) -> (r: GuardStatus)
        ensures
            r == self.status,
    {
        self.status
    }

    /// One attempt by request `who` to take the guard; never blocks.
    pub fn try_acquire(&mut self, who: u64) -> (r: Acquire)
        ensures
            (final(self).status, r) == acquire_next(old(self).status, who),
    {
        match self.status {
            GuardStatus::Available => {
                self.status = GuardStatus::Held(who);
                Acquire::Granted
            },
            GuardStatus::Held(_) => Acquire::Wait,
            GuardStatus::Poisoned => Acquire::Poisoned,
        }
    }

    /// Request `who` gives the guard back, `abnormal` when its work ended in a
    /// panic. Returns whether `who` held it; otherwise nothing changes.
    pub fn release(&mut self, who: u64, abnormal: bool) -> (r: bool)
        ensures
            r == (old(self).status == GuardStatus::Held(who)),
            final(self).status == release_next(old(self).status, who, abnormal),
    {
        match self.status {
            GuardStatus::Held(h) => {
                if h == who {
                    self.status = if abnormal {
                        GuardStatus::Poisoned
                    } else {
                        GuardStatus::Available
                    };
                    true
                } else {
                    false
                }
            },
            _ => false,
        }
    }
}

/// Mutual exclusion: while `a` holds the guard and has not released it, the
/// guard stays with `a` and every other attempt to acquire it is told to wait.
pub proof fn holder_keeps_guard(a: u64, ops: Seq<GuardOp>)
    requires
        forall|i: int| 0 <= i < ops.len() ==> !(#[trigger] ops[i] is Release && ops[i]->who == a),
    ensures
        run(GuardStatus::Held(a), ops) == GuardStatus::Held(a),
        forall|i: int|
            0 <= i < ops.len() && #[trigger] ops[i] is Acquire ==> acquire_next(
                run(GuardStatus::Held(a), ops.take(i)),
                ops[i]->Acquire_0,
            ).1 == Acquire::Wait,
    decreases ops.len(),
{
    if ops.len() > 0 {
        let pre = ops.drop_last();
        assert forall|i: int| 0 <= i < pre.len() implies !(#[trigger] pre[i] is Release
            && pre[i]->who == a) by {
            assert(pre[i] == ops[i]);
        }
        holder_keeps_guard(a, pre);
        assert forall|i: int|
            0 <= i < ops.len() && #[trigger] ops[i] is Acquire implies acquire_next(
                run(GuardStatus::Held(a), ops.take(i)),
                ops[i]->Acquire_0,
            ).1 == Acquire::Wait by {
            if i < pre.len() {
                assert(ops.take(i) =~= pre.take(i));
                assert(pre[i] == ops[i]);
            } else {
                assert(ops.take(i) =~= pre);
            }
        }
    }
}

/// Poisoning is terminal: whatever happens afterwards, the guard stays
/// poisoned and every attempt to acquire it reports so.
pub proof fn poisoned_is_terminal(ops: Seq<GuardOp>)
    ensures
        run(GuardStatus::Poisoned, ops) == GuardStatus::Poisoned,
        forall|who: u64|
            #[trigger] acquire_next(run(GuardStatus::Poisoned, ops), who).1 == Acquire::Poisoned,
    decreases ops.len(),
{
    if ops.len() > 0 {
        poisoned_is_terminal(ops.drop_last());
    }
}

/// A holder that releases normally, for instance after the model reported a
/// failure, leaves the guard free: the next request is granted it at once.
pub proof fn normal_release_frees_guard(a: u64, b: u64)
    ensures
        acquire_next(release_next(acquire_next(GuardStatus::Available, a).0, a, false), b)
            == (GuardStatus::Held(b), Acquire::Granted),
{
}

} // verus!
