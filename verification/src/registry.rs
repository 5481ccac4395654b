//! The callback registry: the bridge from the native engine's callback
//! signaling to one synchronous result per job.
//!
//! The native engine reports progress and failure through bare callbacks
//! that carry no caller-supplied context, so a process-wide registry
//! keyed by the job's native identity correlates each callback to the
//! job that is in flight.  A job registers itself immediately before the
//! native conversion call; during that call the error callback may fire
//! any number of times, each appending a message to the job's entry, and
//! the finished callback fires exactly once, which resolves the entry
//! into the job's outcome and removes it; the job deregisters again
//! right after the native call returns, on every path.

use std::collections::HashMap;
use vstd::prelude::*;

use crate::error::Error;

verus! {

broadcast use vstd::std_specs::hash::group_hash_axioms;

/// The separator between accumulated error messages in a
/// [`Error::ConversionFailed`] report.
pub open spec fn msg_separator() -> Seq<char> {
    ", "@
}

/// The messages of a sequence joined by the separator, in order.
pub open spec fn join_msgs(msgs: Seq<String>, sep: Seq<char>) -> Seq<char>
    decreases msgs.len(),
{
    if msgs.len() == 0 {
        Seq::empty()
    } else if msgs.len() == 1 {
        msgs[0]@
    } else {
        join_msgs(msgs.drop_last(), sep) + sep + msgs.last()@
    }
}

/// Join messages with the separator, as the failure report does.
pub fn join_messages(msgs: &Vec<String>) -> (s: String)
    ensures
        s@ == join_msgs(msgs@, msg_separator()),
{
    let n = msgs.len();
    let mut s = String::new();
    let mut i: usize = 0;
    while i < n
        invariant
            i <= n,
            n == msgs@.len(),
            s@ == join_msgs(msgs@.take(i as int), msg_separator()),
        decreases n - i,
    {
        proof {
            assert(msgs@.take(i + 1).drop_last() =~= msgs@.take(i as int));
            assert(msgs@.take(i + 1).last() == msgs@[i as int]);
        }
        if i > 0 {
            s.append(", ");
        }
        s.append(msgs[i].as_str());
        proof {
            reveal_strlit(", ");
            assert(s@ =~= join_msgs(msgs@.take(i + 1), msg_separator()));
        }
        i += 1;
    }
    proof {
        assert(msgs@.take(n as int) =~= msgs@);
    }
    s
}

/// The process-wide mapping from an in-flight job's native identity to
/// the error messages its callbacks have accumulated so far.
pub struct CallbackRegistry {
    jobs: HashMap<usize, Vec<String>>,
}

impl View for CallbackRegistry {
    type V = Map<usize, Seq<String>>;

    closed spec fn view(&self) -> Map<usize, Seq<String>> {
        self.jobs@.map_values(|v: Vec<String>| v@)
    }
}

/// The registry after an error callback fires for `id` with `msg`: the
/// message is appended to the job's accumulator if the job is
/// registered, and dropped otherwise.
pub open spec fn record_view(m: Map<usize, Seq<String>>, id: usize, msg: String) -> Map<
    usize,
    Seq<String>,
> {
    if m.contains_key(id) {
        m.insert(id, m[id].push(msg))
    } else {
        m
    }
}

impl CallbackRegistry {
    /// An empty registry, with no job in flight.
    pub fn new() -> (r: CallbackRegistry)
        ensures
            r@ == Map::<usize, Seq<String>>::empty(),
    {
        let r = CallbackRegistry { jobs: HashMap::new() };
        proof {
            assert(r@ =~= Map::<usize, Seq<String>>::empty());
        }
        r
    }

    /// Register a job under its native identity with an empty message
    /// accumulator, immediately before the native conversion call.
    pub fn register(&mut self, id: usize)
        ensures
            final(self)@ == old(self)@.insert(id, Seq::<String>::empty()),
    {
        self.jobs.insert(id, Vec::new());
        proof {
            assert(final(self)@ =~= old(self)@.insert(id, Seq::<String>::empty()));
        }
    }

    /// Record one firing of the error callback for `id`; returns whether
    /// a job with that identity was registered.
    pub fn record_error(&mut self, id: usize, msg: String) -> (present: bool)
        ensures
            final(self)@ == record_view(old(self)@, id, msg),
            present == old(self)@.contains_key(id),
    {
        let ghost gmsg = msg;
        match self.jobs.remove(&id) {
            Some(mut msgs) => {
                msgs.push(msg);
                let ghost gmsgs = msgs@;
                self.jobs.insert(id, msgs);
                proof {
                    assert(gmsgs == old(self)@[id].push(gmsg));
                    assert(final(self)@ =~= old(self)@.insert(id, old(self)@[id].push(gmsg)));
                }
                true
            },
            None => {
                proof {
                    assert(final(self)@ =~= old(self)@);
                }
                false
            },
        }
    }

    /// Resolve one firing of the finished callback for `id` with the
    /// native status `code`: the job's entry is removed, and if the job
    /// was registered its outcome is returned — success for status 1,
    /// otherwise failure carrying every accumulated message joined in
    /// firing order.
    pub fn finish(&mut self, id: usize, code: i32) -> (r: Option<Result<(), Error>>)
        ensures
            final(self)@ == old(self)@.remove(id),
            !old(self)@.contains_key(id) ==> r is None,
            old(self)@.contains_key(id) && code == 1 ==> r == Some(Ok::<(), Error>(())),
            old(self)@.contains_key(id) && code != 1 ==> (r matches Some(res) && (
            res matches Err(Error::ConversionFailed(m)) && m@ == join_msgs(
                old(self)@[id],
                msg_separator(),
            ))),
    {
        let entry = self.jobs.remove(&id);
        proof {
            assert(final(self)@ =~= old(self)@.remove(id));
        }
        match entry {
            None => None,
            Some(msgs) => {
                if code == 1 {
                    Some(Ok(()))
                } else {
                    let joined = join_messages(&msgs);
                    Some(Err(Error::ConversionFailed(joined)))
                }
            },
        }
    }

    /// Remove a job's entry, if any; the deregistration that runs after
    /// the native conversion call returns, on success and failure alike.
    /// Removing an identity that is absent changes nothing.
    pub fn remove(&mut self, id: usize)
        ensures
            final(self)@ == old(self)@.remove(id),
    {
        self.jobs.remove(&id);
        proof {
            assert(final(self)@ =~= old(self)@.remove(id));
        }
    }

    /// Whether a job with this identity is registered.
    pub fn contains(&self, id: usize) -> (r: bool)
        ensures
            r == self@.contains_key(id),
    {
        self.jobs.contains_key(&id)
    }
}

/// The registry after the error callback fires once for each message of
/// `msgs`, in order.
pub open spec fn record_all_view(m: Map<usize, Seq<String>>, id: usize, msgs: Seq<String>) -> Map<
    usize,
    Seq<String>,
>
    decreases msgs.len(),
{
    if msgs.len() == 0 {
        m
    } else {
        record_view(record_all_view(m, id, msgs.drop_last()), id, msgs.last())
    }
}

/// Recording a sequence of messages for a registered job appends them
/// all, in order.
pub proof fn lemma_record_all(m: Map<usize, Seq<String>>, id: usize, msgs: Seq<String>)
    requires
        m.contains_key(id),
    ensures
        record_all_view(m, id, msgs) == m.insert(id, m[id] + msgs),
    decreases msgs.len(),
{
    if msgs.len() == 0 {
        assert(m[id] + msgs =~= m[id]);
        assert(m.insert(id, m[id]) =~= m);
    } else {
        lemma_record_all(m, id, msgs.drop_last());
        let prev = record_all_view(m, id, msgs.drop_last());
        assert(prev[id].push(msgs.last()) =~= m[id] + msgs);
        assert(record_view(prev, id, msgs.last()) =~= m.insert(id, m[id] + msgs));
    }
}

/// Callback correlation law: when a job is registered and its error
/// callback then fires once for each message of `msgs`, in that order,
/// the finished callback resolves the job to a failure report that joins
/// exactly those messages in firing order (for a non-success status),
/// and the job's identity is absent from the registry afterwards.
pub proof fn lemma_callback_correlation(m: Map<usize, Seq<String>>, id: usize, msgs: Seq<String>)
    requires
        m.contains_key(id),
        m[id] == Seq::<String>::empty(),
    ensures
        ({
            let fired = record_all_view(m, id, msgs);
            &&& fired[id] == msgs
            &&& join_msgs(fired[id], msg_separator()) == join_msgs(msgs, msg_separator())
            &&& fired.remove(id) == m.remove(id)
            &&& !fired.remove(id).contains_key(id)
        }),
{
    lemma_record_all(m, id, msgs);
    let fired = record_all_view(m, id, msgs);
    assert(m[id] + msgs =~= msgs);
    assert(fired.remove(id) =~= m.remove(id));
}

} // verus!
