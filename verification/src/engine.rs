//! The process-wide engine lifecycle state machine.
//!
//! The native rendering engine is a process-global, non-reentrant
//! resource: it may be initialized at most once per process, every
//! operation must run on the thread that initialized it, and only one
//! conversion job may be in flight at a time.  [`EngineCore`] is the
//! bookkeeping value that enforces those rules.  The callers that wrap
//! the native engine hold one `EngineCore` per engine kind behind a
//! lock, consult it before every native call, and record the outcome of
//! the native call in it afterwards; the native calls themselves happen
//! outside this library and their results enter as plain arguments.

use vstd::prelude::*;

use crate::error::Error;

verus! {

/// Lifecycle states of the process-wide native engine.
#[derive(Clone, Copy, PartialEq, Eq, Structural, Debug)]
pub enum EngineState {
    /// The native engine has not been initialized yet.
    New,
    /// The native engine is available for a new conversion job.
    Ready,
    /// A conversion job is in flight; acquiring global settings fails
    /// with [`Error::Blocked`] until the job is fully released.
    Busy,
    /// The engine has been torn down and cannot be used again for the
    /// life of the process.
    Dropped,
}

/// The mathematical state of an [`EngineCore`]: the lifecycle state,
/// whether an initialization attempt has already happened, and the
/// identity of the thread that successfully initialized the engine.
pub struct EngineView {
    pub state: EngineState,
    pub init_attempted: bool,
    pub init_thread: Option<usize>,
}

/// The state after an initialization attempt: the first attempt records
/// that initialization happened and, when the native call succeeded,
/// moves to `Ready` and pins the initializing thread; every later
/// attempt leaves the state unchanged.
pub open spec fn init_view(v: EngineView, thread: usize, native_ok: bool) -> EngineView {
    if v.init_attempted {
        v
    } else if native_ok {
        EngineView { state: EngineState::Ready, init_attempted: true, init_thread: Some(thread) }
    } else {
        EngineView { state: v.state, init_attempted: true, init_thread: v.init_thread }
    }
}

/// The result of an initialization attempt: only the first attempt in a
/// process succeeds.
pub open spec fn init_outcome(v: EngineView) -> Result<(), Error> {
    if v.init_attempted {
        Err(Error::IllegalInit)
    } else {
        Ok(())
    }
}

/// The state after an attempt to acquire the engine for a new job: the
/// thread-affinity check comes first, then the lifecycle gate; only a
/// `Ready` engine moves to `Busy`, in the same step as the check.
pub open spec fn acquire_view(v: EngineView, thread: usize) -> EngineView {
    if v.init_thread is Some && v.init_thread->0 != thread {
        v
    } else if v.state is Ready {
        EngineView { state: EngineState::Busy, init_attempted: v.init_attempted, init_thread: v.init_thread }
    } else {
        v
    }
}

/// The result of an attempt to acquire the engine for a new job.
pub open spec fn acquire_outcome(v: EngineView, thread: usize) -> Result<(), Error> {
    if v.init_thread is Some && v.init_thread->0 != thread {
        Err(Error::ThreadMismatch(v.init_thread->0, thread))
    } else {
        match v.state {
            EngineState::New => Err(Error::NotInitialized),
            EngineState::Dropped => Err(Error::NotInitialized),
            EngineState::Busy => Err(Error::Blocked),
            EngineState::Ready => Ok(()),
        }
    }
}

/// The state after the current job is fully released (its output handle
/// dropped, or its failed conversion cleaned up): the engine is ready
/// for the next job, however much of the output was actually read.  A
/// job only exists while the engine is busy, so no other state is
/// affected; in particular teardown is permanent.
pub open spec fn release_view(v: EngineView) -> EngineView {
    if v.state is Busy {
        EngineView { state: EngineState::Ready, init_attempted: v.init_attempted, init_thread: v.init_thread }
    } else {
        v
    }
}

/// The state after teardown: `Dropped`, permanently.
pub open spec fn teardown_view(v: EngineView) -> EngineView {
    EngineView { state: EngineState::Dropped, init_attempted: v.init_attempted, init_thread: v.init_thread }
}

/// Bookkeeping for one process-wide engine singleton.  Each engine kind
/// (page rendering, image rendering) owns one of these for the life of
/// the process.
pub struct EngineCore {
    state: EngineState,
    init_attempted: bool,
    init_thread: Option<usize>,
}

impl View for EngineCore {
    type V = EngineView;

    closed spec fn view(&self) -> EngineView {
        EngineView {
            state: self.state,
            init_attempted: self.init_attempted,
            init_thread: self.init_thread,
        }
    }
}

impl EngineCore {
    /// The state of an engine that no one has touched yet.
    pub fn new() -> (e: EngineCore)
        ensures
            e@ == (EngineView { state: EngineState::New, init_attempted: false, init_thread: None }),
    {
        EngineCore { state: EngineState::New, init_attempted: false, init_thread: None }
    }

    /// Whether an initialization attempt would be the first in this
    /// process.  The caller must consult this before invoking the
    /// native initialization primitive, so that the primitive never
    /// runs twice.
    pub fn can_initialize(&self) -> (r: bool)
        ensures
            r == !self@.init_attempted,
    {
        !self.init_attempted
    }

    /// Record an initialization attempt made by `thread`, where
    /// `native_ok` reports whether the native initialization call
    /// succeeded.  Only the first attempt in a process returns `Ok`;
    /// when the native call failed the engine stays unusable but the
    /// attempt still counts.
    pub fn initialize(&mut self, thread: usize, native_ok: bool) -> (r: Result<(), Error>)
        ensures
            final(self)@ == init_view(old(self)@, thread, native_ok),
            r == init_outcome(old(self)@),
    {
        if self.init_attempted {
            Err(Error::IllegalInit)
        } else {
            self.init_attempted = true;
            if native_ok {
                self.state = EngineState::Ready;
                self.init_thread = Some(thread);
            }
            Ok(())
        }
    }

    /// Gate a new job: check that `thread` is the initializing thread,
    /// then check the lifecycle state, and atomically flip `Ready` to
    /// `Busy` in the same step.  On any failure the state is unchanged,
    /// so no native resource may be allocated for the job.
    pub fn acquire_global(&mut self, thread: usize) -> (r: Result<(), Error>)
        ensures
            final(self)@ == acquire_view(old(self)@, thread),
            r == acquire_outcome(old(self)@, thread),
    {
        match self.init_thread {
            Some(expected) => {
                if expected != thread {
                    return Err(Error::ThreadMismatch(expected, thread));
                }
            },
            None => {},
        }
        match self.state {
            EngineState::New => Err(Error::NotInitialized),
            EngineState::Dropped => Err(Error::NotInitialized),
            EngineState::Busy => Err(Error::Blocked),
            EngineState::Ready => {
                self.state = EngineState::Busy;
                Ok(())
            },
        }
    }

    /// Record that the current job has been fully released; the engine
    /// is ready for the next job unless it was already torn down.
    pub fn release_output(&mut self)
        ensures
            final(self)@ == release_view(old(self)@),
    {
        match self.state {
            EngineState::Busy => {
                self.state = EngineState::Ready;
            },
            _ => {},
        }
    }

    /// Record teardown: the native engine has been deinitialized and
    /// can never be used again in this process.
    pub fn deinitialize(&mut self)
        ensures
            final(self)@ == teardown_view(old(self)@),
    {
        self.state = EngineState::Dropped;
    }

    /// Observe the current lifecycle state.
    pub fn state(&self) -> (s: EngineState)
        ensures
            s == self@.state,
    {
        self.state
    }
}

/// One step of the state machine other than initialization, for stating
/// laws that hold regardless of how such steps interleave.
pub enum EngineOp {
    /// A global-settings acquisition attempt by the given thread.
    AcquireGlobal(usize),
    /// The release of a job's output (or of its failed conversion).
    ReleaseOutput,
    /// Guard teardown.
    Teardown,
}

/// The state after one step.
pub open spec fn apply_op(v: EngineView, op: EngineOp) -> EngineView {
    match op {
        EngineOp::AcquireGlobal(thread) => acquire_view(v, thread),
        EngineOp::ReleaseOutput => release_view(v),
        EngineOp::Teardown => teardown_view(v),
    }
}

/// The state after a sequence of steps, applied left to right.
pub open spec fn apply_ops(v: EngineView, ops: Seq<EngineOp>) -> EngineView
    decreases ops.len(),
{
    if ops.len() == 0 {
        v
    } else {
        apply_op(apply_ops(v, ops.drop_last()), ops.last())
    }
}

/// No step other than initialization changes the fact that an
/// initialization attempt has happened.
pub proof fn lemma_ops_preserve_init_attempt(v: EngineView, ops: Seq<EngineOp>)
    ensures
        apply_ops(v, ops).init_attempted == v.init_attempted,
    decreases ops.len(),
{
    if ops.len() > 0 {
        lemma_ops_preserve_init_attempt(v, ops.drop_last());
    }
}

/// A reachable engine state: a usable engine records that
/// initialization happened and on which thread, and the initializing
/// thread is pinned for good once recorded.
pub open spec fn wf(v: EngineView) -> bool {
    (v.state is Ready || v.state is Busy) ==> (v.init_attempted && v.init_thread is Some)
}

/// Every state the state machine can reach is well-formed: the fresh
/// engine is, initialization keeps it so, and so does every later step;
/// moreover no step after initialization changes the recorded thread.
pub proof fn lemma_wf_preserved(v: EngineView, thread: usize, native_ok: bool, op: EngineOp)
    requires
        wf(v),
    ensures
        wf(EngineView { state: EngineState::New, init_attempted: false, init_thread: None }),
        wf(init_view(v, thread, native_ok)),
        wf(apply_op(v, op)),
        apply_op(v, op).init_thread == v.init_thread,
{
}

/// Teardown is permanent: once the engine is dropped, no sequence of
/// acquisitions, releases and teardowns brings it back, and a late
/// initialization attempt cannot either.
pub proof fn lemma_teardown_permanent(v: EngineView, ops: Seq<EngineOp>)
    requires
        v.state is Dropped,
        v.init_attempted,
    ensures
        apply_ops(v, ops).state is Dropped,
        apply_ops(v, ops).init_attempted,
    decreases ops.len(),
{
    if ops.len() > 0 {
        lemma_teardown_permanent(v, ops.drop_last());
    }
}

/// Single-initialization law: in any process, the first initialization
/// attempt succeeds and every later one fails with
/// [`Error::IllegalInit`] and changes nothing, regardless of which
/// acquisitions, releases and teardowns happen in between.
pub proof fn lemma_single_init(
    v: EngineView,
    t1: usize,
    ok1: bool,
    ops: Seq<EngineOp>,
    t2: usize,
    ok2: bool,
)
    requires
        !v.init_attempted,
    ensures
        init_outcome(v) == Ok::<(), Error>(()),
        ({
            let w = apply_ops(init_view(v, t1, ok1), ops);
            &&& init_outcome(w) == Err::<(), Error>(Error::IllegalInit)
            &&& init_view(w, t2, ok2) == w
        }),
{
    lemma_ops_preserve_init_attempt(init_view(v, t1, ok1), ops);
}

/// Thread-affinity law: once the engine records its initializing
/// thread, an acquisition attempt from any other thread fails with
/// [`Error::ThreadMismatch`] carrying both identities, and leaves the
/// engine untouched — so no native engine mutation can follow.
pub proof fn lemma_thread_affinity(v: EngineView, caller: usize)
    requires
        v.init_thread is Some,
        caller != v.init_thread->0,
    ensures
        acquire_view(v, caller) == v,
        acquire_outcome(v, caller) == Err::<(), Error>(
            Error::ThreadMismatch(v.init_thread->0, caller),
        ),
{
}

/// Busy-exclusion law: while a job is in flight, an acquisition attempt
/// from the initializing thread fails with [`Error::Blocked`] and
/// changes nothing; once the job is released the engine is `Ready`
/// again and the next acquisition from that thread succeeds, making the
/// engine `Busy`.
pub proof fn lemma_busy_exclusion(v: EngineView, t: usize)
    requires
        v.state is Busy,
        v.init_thread == Some(t),
    ensures
        acquire_outcome(v, t) == Err::<(), Error>(Error::Blocked),
        acquire_view(v, t) == v,
        release_view(v).state is Ready,
        acquire_outcome(release_view(v), t) == Ok::<(), Error>(()),
        acquire_view(release_view(v), t).state is Busy,
{
}

/// Relies on thread_id::get: a number unique to the calling thread,
/// used for the thread-affinity checks.  Nothing is promised of its
/// value.
#[verifier::external_body]
pub fn current_thread_id() -> (r: usize) {
    thread_id::get()
}

} // verus!
