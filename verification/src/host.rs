//! The host-facing object: a segmenter whose operations are issued now and
//! run later, one per tick of the host's microtask queue.
//!
//! Issuing `load_dict` or `cut` does no engine work at all: it returns a
//! fresh, still-pending completion handle and appends the operation, with
//! its own deferral, to a FIFO queue. The host scheduler then calls
//! [`AsyncJieba::run_next`] once per tick; each call elapses the front
//! operation's deferral, runs that operation to completion under exclusive
//! engine access, and settles exactly its handle. Two operations issued in
//! order therefore take effect in that order, and no caller can observe a
//! settled handle without at least one scheduler hand-off.

use vstd::prelude::*;
use crate::bridge::Completion;
use crate::bridge::CompletionView;
use crate::bridge::Failure;
use crate::bridge::FailureKind;
use crate::bridge::Value;
use crate::bridge::ValueView;
use crate::bridge::settle;
use crate::engine::Engine;
use crate::screen::within_budget;
use crate::seg::dict_accepted;
use crate::seg::joined;
use crate::seg::tokens_of;
use crate::tick::NextTick;
use crate::tick::TickState;

verus! {

/// One deferred operation: load a dictionary source, or cut a sentence with
/// the given heuristic flag.
pub enum Op {
    Load(String),
    Cut(String, bool),
}

/// The mathematical image of an [`Op`].
pub enum OpView {
    Load(Seq<char>),
    Cut(Seq<char>, bool),
}

impl View for Op {
    type V = OpView;

    open spec fn view(&self) -> OpView {
        match self {
            Op::Load(d) => OpView::Load(d@),
            Op::Cut(s, h) => OpView::Cut(s@, *h),
        }
    }
}

/// A queued operation: the handle it will settle, the deferral that must
/// elapse first, and the operation itself.
struct QueuedOp {
    handle: usize,
    tick: NextTick,
    op: Op,
}

/// The mathematical image of one queue entry.
pub struct QueuedView {
    pub handle: int,
    pub elapsed: bool,
    pub op: OpView,
}

/// The heuristic flag a `cut` call carries, with the default applied.
pub open spec fn flag_of(hmm: Option<bool>) -> bool {
    match hmm {
        Some(b) => b,
        None => false,
    }
}

/// How one deferred operation changes the absorbed dictionary history: only
/// a load that is within budget and accepted, on an unpoisoned instance,
/// extends it.
pub open spec fn step_history(poisoned: bool, hist: Seq<Seq<char>>, op: OpView) -> Seq<
    Seq<char>,
> {
    if poisoned {
        hist
    } else {
        match op {
            OpView::Load(d) => if dict_accepted(d) && within_budget(hist, d) {
                hist.push(d)
            } else {
                hist
            },
            OpView::Cut(_, _) => hist,
        }
    }
}

/// What settlement one deferred operation's handle receives, given the
/// poison mark and the dictionary history at the moment the operation held
/// exclusive access.
pub open spec fn step_settlement(
    poisoned: bool,
    hist: Seq<Seq<char>>,
    op: OpView,
    c: CompletionView,
) -> bool {
    if poisoned {
        c matches CompletionView::Rejected(k, _) && k == FailureKind::LockPoisoned
    } else {
        match op {
            OpView::Load(d) => if dict_accepted(d) && within_budget(hist, d) {
                c == CompletionView::Resolved(ValueView::Done)
            } else {
                c matches CompletionView::Rejected(k, _) && k == FailureKind::EngineFailure
            },
            OpView::Cut(s, h) => c == CompletionView::Resolved(
                ValueView::Tokens(tokens_of(hist, s, h)),
            ),
        }
    }
}

/// The public object: one engine, the FIFO queue of deferred operations,
/// and the state of every completion handle ever issued, by handle number.
pub struct AsyncJieba {
    engine: Engine,
    queue: Vec<QueuedOp>,
    states: Vec<Completion>,
}

impl AsyncJieba {
    /// The dictionary sources the engine has absorbed, oldest first.
    pub closed spec fn dict_history(self) -> Seq<Seq<char>> {
        self.engine.dict_history()
    }

    /// Whether a prior operation failed catastrophically while holding
    /// exclusive engine access.
    pub closed spec fn lock_poisoned(self) -> bool {
        self.engine.lock_poisoned()
    }

    /// The state of every completion handle issued so far, by handle number.
    pub closed spec fn handles(self) -> Seq<CompletionView> {
        self.states@.map_values(|c: Completion| c@)
    }

    /// The operations issued but not yet run, in issue order.
    pub closed spec fn queued(self) -> Seq<QueuedView> {
        self.queue@.map_values(
            |q: QueuedOp| QueuedView { handle: q.handle as int, elapsed: q.tick.elapsed(), op: q.op@ },
        )
    }

    /// Every queued operation settles a handle that exists and is still
    /// pending, no two queued operations share a handle, and the engine
    /// matches its recorded history.
    pub closed spec fn wf(self) -> bool {
        &&& self.engine.wf()
        &&& forall|i: int|
            0 <= i < self.queue@.len() ==> (#[trigger] self.queue@[i]).handle
                < self.states@.len() && self.states@[self.queue@[i].handle as int] is Pending
        &&& forall|i: int, j: int|
            0 <= i < j < self.queue@.len() ==> (#[trigger] self.queue@[i]).handle != (
            #[trigger] self.queue@[j]).handle
    }

    /// A fresh instance: empty dictionary, no handles, nothing queued, lock
    /// intact.
    pub fn new() -> (j: AsyncJieba)
        ensures
            j.wf(),
            !j.lock_poisoned(),
            j.dict_history() == Seq::<Seq<char>>::empty(),
            j.handles() == Seq::<CompletionView>::empty(),
            j.queued() == Seq::<QueuedView>::empty(),
    {
        let j = AsyncJieba { engine: Engine::new(), queue: Vec::new(), states: Vec::new() };
        proof {
            assert(j.handles() =~= Seq::<CompletionView>::empty());
            assert(j.queued() =~= Seq::<QueuedView>::empty());
        }
        j
    }

    /// Issue one operation: create its still-pending handle and append it,
    /// with a fresh deferral, to the queue. No engine work happens here.
    fn issue(&mut self, op: Op) -> (h: usize)
        requires
            old(self).wf(),
        ensures
            final(self).wf(),
            h == old(self).handles().len(),
            final(self).handles() == old(self).handles().push(CompletionView::Pending),
            final(self).queued() == old(self).queued().push(
                (QueuedView { handle: h as int, elapsed: false, op: op@ }),
            ),
            final(self).dict_history() == old(self).dict_history(),
            final(self).lock_poisoned() == old(self).lock_poisoned(),
    {
        let h = self.states.len();
        self.states.push(Completion::Pending);
        self.queue.push(QueuedOp { handle: h, tick: NextTick::new(), op });
        proof {
            assert(self.states@.map_values(|c: Completion| c@) =~= old(self).states@.map_values(
                |c: Completion| c@,
            ).push(CompletionView::Pending));
            assert(self.queued() =~= old(self).queued().push(
                QueuedView { handle: h as int, elapsed: false, op: self.queue@.last().op@ },
            ));
        }
        h
    }

    /// Request a dictionary load. Returns its completion handle, still
    /// pending: the load itself runs only on a later scheduler tick, and
    /// the dictionary visible to `cut` is unchanged until then.
    pub fn load_dict(&mut self, dict: String) -> (h: usize)
        requires
            old(self).wf(),
        ensures
            final(self).wf(),
            h == old(self).handles().len(),
            final(self).handles() == old(self).handles().push(CompletionView::Pending),
            final(self).queued() == old(self).queued().push(
                (QueuedView { handle: h as int, elapsed: false, op: OpView::Load(dict@) }),
            ),
            final(self).dict_history() == old(self).dict_history(),
            final(self).lock_poisoned() == old(self).lock_poisoned(),
    {
        self.issue(Op::Load(dict))
    }

    /// Request a cut of `sentence`; a missing heuristic flag means
    /// disabled. Returns its completion handle, still pending: the engine
    /// is consulted only on a later scheduler tick.
    pub fn cut(&mut self, sentence: String, hmm: Option<bool>) -> (h: usize)
        requires
            old(self).wf(),
        ensures
            final(self).wf(),
            h == old(self).handles().len(),
            final(self).handles() == old(self).handles().push(CompletionView::Pending),
            final(self).queued() == old(self).queued().push(
                (QueuedView {
                    handle: h as int,
                    elapsed: false,
                    op: OpView::Cut(sentence@, flag_of(hmm)),
                }),
            ),
            final(self).dict_history() == old(self).dict_history(),
            final(self).lock_poisoned() == old(self).lock_poisoned(),
    {
        let flag = match hmm {
            Some(b) => b,
            None => false,
        };
        self.issue(Op::Cut(sentence, flag))
    }

    /// Simulate a catastrophic failure while exclusive engine access is
    /// held. From here on every operation that runs settles its handle with
    /// a `LockPoisoned` rejection; only a new instance recovers.
    pub fn poison(&mut self)
        requires
            old(self).wf(),
        ensures
            final(self).wf(),
            final(self).lock_poisoned(),
            final(self).dict_history() == old(self).dict_history(),
            final(self).handles() == old(self).handles(),
            final(self).queued() == old(self).queued(),
    {
        self.engine.poison();
    }

    /// One tick of the host's microtask queue: elapse the front operation's
    /// deferral, run it to completion under exclusive engine access, and
    /// settle exactly its handle. Returns whether anything was queued.
    pub fn run_next(&mut self) -> (ran: bool)
        requires
            old(self).wf(),
        ensures
            final(self).wf(),
            ran == (old(self).queued().len() > 0),
            !ran ==> *final(self) == *old(self),
            ran ==> final(self).queued() == old(self).queued().skip(1),
            ran ==> final(self).lock_poisoned() == old(self).lock_poisoned(),
            ran ==> final(self).dict_history() == step_history(
                old(self).lock_poisoned(),
                old(self).dict_history(),
                old(self).queued()[0].op,
            ),
            ran ==> final(self).handles().len() == old(self).handles().len(),
            ran ==> 0 <= old(self).queued()[0].handle < old(self).handles().len() && old(
                self,
            ).handles()[old(self).queued()[0].handle] is Pending,
            ran ==> forall|i: int|
                0 <= i < old(self).handles().len() && i != old(self).queued()[0].handle
                    ==> final(self).handles()[i] == old(self).handles()[i],
            ran ==> step_settlement(
                old(self).lock_poisoned(),
                old(self).dict_history(),
                old(self).queued()[0].op,
                final(self).handles()[old(self).queued()[0].handle],
            ),
            ran && !old(self).lock_poisoned() ==> (old(self).queued()[0].op matches
                OpView::Cut(s, h) ==> joined(
                tokens_of(old(self).dict_history(), s, h),
            ) == s),
    {
        if self.queue.len() == 0 {
            return false;
        }
        let mut entry = self.queue.remove(0);
        // The scheduler tick this operation was deferred to has now run.
        entry.tick.elapse();
        if entry.tick.poll() == TickState::Pending {
            // An elapsed deferral reports ready, so this branch is provably
            // dead: the engine work below never runs before the hand-off.
            proof {
                assert(false);
            }
        }
        let result: Result<Value, Failure> = match entry.op {
            Op::Load(d) => match self.engine.load_dictionary(d) {
                Ok(()) => Ok(Value::Done),
                Err(f) => Err(f),
            },
            Op::Cut(s, flag) => match self.engine.cut(s.as_str(), flag) {
                Ok(t) => Ok(Value::Tokens(t)),
                Err(f) => Err(f),
            },
        };
        let settled = settle(result);
        self.states.set(entry.handle, settled);
        proof {
            assert(self.queued() =~= old(self).queued().skip(1));
        }
        true
    }

    /// How many completion handles this instance has issued.
    pub fn handle_count(&self) -> (n: usize)
        ensures
            n == self.handles().len(),
    {
        self.states.len()
    }

    /// How many operations are still queued.
    pub fn pending_count(&self) -> (n: usize)
        ensures
            n == self.queued().len(),
    {
        self.queue.len()
    }

    /// The current state of one completion handle.
    pub fn handle_state(&self, h: usize) -> (c: &Completion)
        requires
            h < self.handles().len(),
        ensures
            c@ == self.handles()[h as int],
    {
        &self.states[h]
    }
}

/// Law: for a fixed dictionary history, sentence and heuristic flag, a cut
/// settles the same way every time — segmentation is a pure function of the
/// engine state.
pub proof fn lemma_cut_deterministic(
    hist: Seq<Seq<char>>,
    s: Seq<char>,
    h: bool,
    c1: CompletionView,
    c2: CompletionView,
)
    requires
        step_settlement(false, hist, OpView::Cut(s, h), c1),
        step_settlement(false, hist, OpView::Cut(s, h), c2),
    ensures
        c1 == c2,
{
}

/// Law: before any dictionary has been loaded, a cut is driven by the
/// engine's built-in defaults alone — repeated cuts of one sentence settle
/// identically on a fresh instance.
pub proof fn lemma_default_cut_deterministic(
    s: Seq<char>,
    h: bool,
    c1: CompletionView,
    c2: CompletionView,
)
    requires
        step_settlement(false, Seq::<Seq<char>>::empty(), OpView::Cut(s, h), c1),
        step_settlement(false, Seq::<Seq<char>>::empty(), OpView::Cut(s, h), c2),
    ensures
        c1 == c2,
{
    lemma_cut_deterministic(Seq::<Seq<char>>::empty(), s, h, c1, c2);
}

/// Law: a load followed immediately by a cut never observes a half-applied
/// dictionary. The cut's tokens reflect the fully-post-load history when
/// the load was accepted, and the untouched pre-load history when it was
/// rejected — never anything in between.
pub proof fn lemma_no_half_applied_dictionary(
    hist: Seq<Seq<char>>,
    d: Seq<char>,
    s: Seq<char>,
    h: bool,
    cl: CompletionView,
    cc: CompletionView,
)
    requires
        step_settlement(false, hist, OpView::Load(d), cl),
        step_settlement(
            false,
            step_history(false, hist, OpView::Load(d)),
            OpView::Cut(s, h),
            cc,
        ),
    ensures
        dict_accepted(d) && within_budget(hist, d) ==> cc == CompletionView::Resolved(
            ValueView::Tokens(tokens_of(hist.push(d), s, h)),
        ),
        !(dict_accepted(d) && within_budget(hist, d)) ==> cc == CompletionView::Resolved(
            ValueView::Tokens(tokens_of(hist, s, h)),
        ),
{
}

/// Law: poisoning is fatal and permanent. On a poisoned instance every
/// operation — load or cut — settles as a `LockPoisoned` rejection, and the
/// dictionary history never changes again.
pub proof fn lemma_poisoned_rejects_every_operation(
    hist: Seq<Seq<char>>,
    op: OpView,
    c: CompletionView,
)
    requires
        step_settlement(true, hist, op, c),
    ensures
        c matches CompletionView::Rejected(k, _) && k == FailureKind::LockPoisoned,
        step_history(true, hist, op) == hist,
{
}

} // verus!
