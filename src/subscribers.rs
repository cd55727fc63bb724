use std::collections::HashMap;
use tokio::sync::mpsc::error::SendError;
use tokio::sync::mpsc::{UnboundedReceiver, UnboundedSender};
use vstd::prelude::*;
use vstd::std_specs::iter::IteratorSpec;

verus! {

broadcast use vstd::std_specs::hash::group_hash_axioms;

#[verifier::external_type_specification]
#[verifier::external_body]
#[verifier::reject_recursive_types(T)]
pub struct ExUnboundedSender<T>(UnboundedSender<T>);

#[verifier::external_type_specification]
#[verifier::external_body]
#[verifier::reject_recursive_types(T)]
pub struct ExUnboundedReceiver<T>(UnboundedReceiver<T>);

#[verifier::external_type_specification]
#[verifier::external_body]
#[verifier::reject_recursive_types(T)]
pub struct ExSendError<T>(SendError<T>);

/// Relies on tokio's `unbounded_channel`: it hands back the two ends of a new
/// channel and never fails.
pub assume_specification<T>[ tokio::sync::mpsc::unbounded_channel::<T> ]() -> (
    UnboundedSender<T>,
    UnboundedReceiver<T>,
);

/// Relies on tokio's `UnboundedSender::send`: it queues the message without
/// waiting, or fails when the receiving end has gone; which of the two happens
/// depends on the receiver, so nothing is promised of the outcome.
pub assume_specification<T>[ UnboundedSender::<T>::send ](
    tx: &UnboundedSender<T>,
    message: T,
) -> Result<(), SendError<T>>;

/// `deliveries` names each handle of `handles` exactly once, and no other.
pub open spec fn reaches_each_once(deliveries: Seq<(u64, bool)>, handles: Set<u64>) -> bool {
    &&& deliveries.len() == handles.len()
    &&& forall|h: u64|
        #[trigger] handles.contains(h) <==> exists|i: int|
            0 <= i < deliveries.len() && (#[trigger] deliveries[i]).0 == h
    &&& forall|i: int, j: int|
        0 <= i < j < deliveries.len() ==> (#[trigger] deliveries[i]).0 != (#[trigger] deliveries[j]).0
}

/// Unregistering is idempotent, and unregistering a handle that is not there
/// changes nothing.
pub proof fn lemma_unregister_idempotent(handles: Set<u64>, h: u64)
    ensures
        handles.remove(h).remove(h) == handles.remove(h),
        !handles.contains(h) ==> handles.remove(h) == handles,
{
    assert(handles.remove(h).remove(h) =~= handles.remove(h));
    if !handles.contains(h) {
        assert(handles.remove(h) =~= handles);
    }
}

/// The live subscribers: handle to the sending end of its delivery channel.
/// Handles are handed out in increasing order and never reused.
pub struct Users {
    senders: HashMap<u64, UnboundedSender<String>>,
    next_id: u64,
}

impl Users {
    /// Handles of the subscribers registered now.
    pub closed spec fn handles(&self) -> Set<u64> {
        self.senders@.dom()
    }

    /// The handle that the next registration will receive.
    pub closed spec fn next_handle(&self) -> u64 {
        self.next_id
    }

    /// Every registered handle is positive and below the next one to be given.
    pub open spec fn wf(&self) -> bool {
        &&& 1 <= self.next_handle()
        &&& forall|h: u64| #[trigger] self.handles().contains(h) ==> 1 <= h < self.next_handle()
    }

    /// A registry with nobody in it.
    pub fn new() -> (r: Users)
        ensures
            r.wf(),
            r.handles() == Set::<u64>::empty(),
            r.next_handle() == 1,
    {
        let r = Users { senders: HashMap::new(), next_id: 1 };
        assert(r.handles() =~= Set::<u64>::empty());
        r
    }

    /// Number of registered subscribers.
    pub fn len(&self) -> (r: usize)
        ensures
            r == self.handles().len(),
    {
        self.senders.len()
    }

    /// Whether `handle` is registered.
    pub fn contains(&self, handle: u64) -> (r: bool)
        ensures
            r == self.handles().contains(handle),
    {
        self.senders.contains_key(&handle)
    }

    /// Registers a new subscriber under a fresh handle and returns the handle
    /// with the receiving end of its channel. Returns `None`, changing nothing,
    /// once every handle has been given out.
    pub fn register(&mut self) -> (r: Option<(u64, UnboundedReceiver<String>)>)
        requires
            old(self).wf(),
        ensures
            final(self).wf(),
            old(self).next_handle() == u64::MAX <==> r is None,
            r is None ==> final(self).handles() == old(self).handles() && final(self).next_handle()
                == old(self).next_handle(),
            r matches Some((h, _)) ==> {
                &&& h == old(self).next_handle()
                &&& !old(self).handles().contains(h)
                &&& final(self).handles() == old(self).handles().insert(h)
                &&& final(self).next_handle() == h + 1
            },
    {
        if self.next_id == u64::MAX {
            return None;
        }
        let id = self.next_id;
        let (tx, rx) = tokio::sync::mpsc::unbounded_channel();
        self.senders.insert(id, tx);
        self.next_id = id + 1;
        assert forall|h: u64| #[trigger] self.handles().contains(h) implies 1 <= h
            < self.next_handle() by {
            if h != id {
                assert(old(self).handles().contains(h));
            }
        }
        Some((id, rx))
    }

    /// Removes `handle` if it is registered; returns whether it was. The next
    /// handle to be given out does not change, so no handle comes back.
    pub fn unregister(&mut self, handle: u64) -> (r: bool)
        requires
            old(self).wf(),
        ensures
            final(self).wf(),
            r == old(self).handles().contains(handle),
            final(self).handles() == old(self).handles().remove(handle),
            final(self).next_handle() == old(self).next_handle(),
    {
        let r = self.senders.remove(&handle).is_some();
        assert forall|h: u64| #[trigger] self.handles().contains(h) implies 1 <= h
            < self.next_handle() by {
            assert(old(self).handles().contains(h));
        }
        r
    }

    /// Offers `payload` to every registered subscriber, one at a time; a
    /// failed delivery does not stop the others. Returns, once for each
    /// registered handle, the handle and whether its channel took the payload.
    pub fn broadcast(&self, payload: &String) -> (r: Vec<(u64, bool)>)
        ensures
            reaches_each_once(r@, self.handles()),
    {
        let ghost m = self.senders@;
        let iter = self.senders.iter();
        let ghost seq = iter.remaining();
        assert(seq.no_duplicates());
        let mut out: Vec<(u64, bool)> = Vec::new();
        for entry in it: iter
            invariant
                it.seq() == seq,
                m == self.senders@,
                out@.len() == it.index(),
                forall|j: int| 0 <= j < it.index() ==> (#[trigger] out@[j]).0 == *seq[j].0,
        {
            let (h, tx) = entry;
            let delivered = tx.send(payload.clone()).is_ok();
            out.push((*h, delivered));
        }
        proof {
            assert forall|h: u64| #[trigger] m.contains_key(h) implies exists|i: int|
                0 <= i < out@.len() && (#[trigger] out@[i]).0 == h by {
                assert(seq.contains((&h, &m[h])));
                let j = choose|j: int| 0 <= j < seq.len() && seq[j] == (&h, &m[h]);
                assert(out@[j].0 == h);
            }
            assert forall|i: int, j: int| 0 <= i < j < out@.len() implies (#[trigger] out@[i]).0
                != (#[trigger] out@[j]).0 by {
                if out@[i].0 == out@[j].0 {
                    assert(m[*seq[i].0] == *seq[i].1);
                    assert(m[*seq[j].0] == *seq[j].1);
                    assert(seq[i] == seq[j]);
                }
            }
            assert forall|i: int| 0 <= i < out@.len() implies m.contains_key(
                (#[trigger] out@[i]).0,
            ) by {
                assert(m.contains_key(*seq[i].0));
            }
        }
        out
    }
}

} // verus!
