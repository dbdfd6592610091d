//! Tracks changes to a value and notifies subscribers.
//!
//! The tracked value is modified through [`ChangeTracker::modify`]; when the
//! modification actually changed the value, the `(old, new)` pair is fanned
//! out to every live subscriber over its bounded channel. A subscriber whose
//! channel refuses the send (full buffer or dropped receiver) is removed
//! silently; there are no retries.
//!
//! Each subscriber carries a ghost record of its subscription point and of
//! every pair handed to its channel. The well-formedness invariant states the
//! heart of the matter: a live subscriber has been handed exactly the changes
//! made since it subscribed, in order.

use vstd::prelude::*;

use crate::channel::{channel_new, sender_try_send};

verus! {

/// What a tracked value must provide: faithful duplication and comparison,
/// stated over the value's view. The embedding application implements this
/// for its state type.
pub trait Trackable: View + Sized {
    /// Duplicate the value.
    fn clone_value(&self) -> (r: Self)
        ensures
            r@ == self@,
    ;

    /// Compare two values.
    fn same_value(&self, other: &Self) -> (r: bool)
        ensures
            r == (self@ == other@),
    ;
}

/// One subscriber: a channel sender plus a ghost record of its subscription
/// point in the change history and of everything handed to it.
#[verifier::reject_recursive_types(T)]
pub struct ChangeSender<T: Trackable> {
    tx: futures::channel::mpsc::Sender<(T, T)>,
    start: Ghost<int>,
    sent: Ghost<Seq<(T::V, T::V)>>,
}

/// Tracks changes to a value of type `T` and notifies subscribers.
#[verifier::reject_recursive_types(T)]
pub struct ChangeTracker<T: Trackable> {
    value: T,
    senders: Vec<ChangeSender<T>>,
    history: Ghost<Seq<(T::V, T::V)>>,
}

impl<T: Trackable> ChangeTracker<T> {
    /// The view of the current value.
    pub closed spec fn val(&self) -> T::V {
        self.value@
    }

    /// The current value itself.
    pub closed spec fn value_spec(&self) -> T {
        self.value
    }

    /// All value-changing `(old, new)` pairs so far, in order.
    pub closed spec fn hist(&self) -> Seq<(T::V, T::V)> {
        self.history@
    }

    /// Number of live subscribers.
    pub closed spec fn sub_count(&self) -> int {
        self.senders.len() as int
    }

    /// The point in the history at which subscriber `i` subscribed.
    pub closed spec fn sub_start(&self, i: int) -> int {
        self.senders[i].start@
    }

    /// Everything handed to subscriber `i`'s channel so far, in order.
    pub closed spec fn sub_sent(&self, i: int) -> Seq<(T::V, T::V)> {
        self.senders[i].sent@
    }

    /// Subscriber `i` is in good standing: it subscribed at a point inside
    /// the history and has been handed exactly the changes since then.
    pub open spec fn sub_ok(&self, i: int) -> bool {
        &&& 0 <= self.sub_start(i) <= self.hist().len()
        &&& self.sub_sent(i) == self.hist().subrange(self.sub_start(i), self.hist().len() as int)
    }

    /// The history is the chain of the value's evolution: every recorded
    /// pair actually changed the value, consecutive pairs connect, and the
    /// last recorded new value is the current value.
    pub open spec fn chain_ok(&self) -> bool {
        &&& forall|i: int| 0 <= i < self.hist().len() ==> (#[trigger] self.hist()[i]).0 != self.hist()[i].1
        &&& forall|i: int|
            0 <= i < self.hist().len() - 1 ==> (#[trigger] self.hist()[i]).1 == self.hist()[i + 1].0
        &&& (self.hist().len() > 0 ==> self.hist().last().1 == self.val())
    }

    /// Well-formedness: the history is the chain of the value's evolution
    /// and every live subscriber is in good standing.
    pub open spec fn wf(&self) -> bool {
        &&& self.chain_ok()
        &&& forall|i: int| 0 <= i < self.sub_count() ==> #[trigger] self.sub_ok(i)
    }

    /// Create a new tracker owning the initial value.
    pub fn new(value: T) -> (r: Self)
        ensures
            r.val() == value@,
            r.value_spec() == value,
            r.hist() == Seq::<(T::V, T::V)>::empty(),
            r.sub_count() == 0,
            r.wf(),
    {
        Self { value, senders: Vec::new(), history: Ghost(Seq::empty()) }
    }

    /// Read-only access to the current value.
    pub fn as_ref(&self) -> (r: &T)
        ensures
            *r == self.value_spec(),
    {
        &self.value
    }

    /// Subscribe to changes: returns a receiver with a buffer of `capacity`
    /// that will see every later value-changing modification, until the
    /// receiver is dropped or falls behind. To unsubscribe, drop the
    /// receiver.
    pub fn get_changes(&mut self, capacity: usize) -> (rx: futures::channel::mpsc::Receiver<
        (T, T),
    >)
        ensures
            final(self).val() == old(self).val(),
            final(self).value_spec() == old(self).value_spec(),
            final(self).hist() == old(self).hist(),
            final(self).sub_count() == old(self).sub_count() + 1,
            forall|i: int|
                0 <= i < old(self).sub_count() ==> final(self).sub_start(i) == old(self).sub_start(
                    i,
                ) && final(self).sub_sent(i) == old(self).sub_sent(i),
            final(self).sub_start(old(self).sub_count()) == old(self).hist().len(),
            final(self).sub_sent(old(self).sub_count()) == Seq::<(T::V, T::V)>::empty(),
            old(self).wf() ==> final(self).wf(),
    {
        let (tx, rx) = channel_new(capacity);
        let ghost start = self.history@.len() as int;
        self.senders.push(
            ChangeSender { tx, start: Ghost(start), sent: Ghost(Seq::empty()) },
        );
        proof {
            if old(self).wf() {
                assert forall|i: int| 0 <= i < self.sub_count() implies #[trigger] self.sub_ok(
                    i,
                ) by {
                    if i < old(self).sub_count() {
                        assert(old(self).sub_ok(i));
                        assert(self.sub_start(i) == old(self).sub_start(i));
                        assert(self.sub_sent(i) == old(self).sub_sent(i));
                    } else {
                        assert(self.sub_sent(i) =~= Seq::<(T::V, T::V)>::empty());
                        assert(self.hist().subrange(
                            self.sub_start(i),
                            self.hist().len() as int,
                        ) =~= Seq::<(T::V, T::V)>::empty());
                    }
                }
                assert(self.wf());
            }
        }
        rx
    }

    /// Modify the value, notifying subscribers upon change.
    ///
    /// `f` is given the current value and returns the new one. When the new
    /// value differs from the old one (compared by view), the `(old, new)`
    /// pair is appended to the history and handed to every subscriber whose
    /// channel accepts it; the others are removed. The returned ghost
    /// sequence lists, in increasing order, the old indices of the
    /// subscribers that survived a value-changing modification.
    pub fn modify<F: FnOnce(&T) -> T>(&mut self, f: F) -> (kept: Ghost<Seq<int>>)
        requires
            old(self).wf(),
            call_requires(f, (&old(self).value_spec(),)),
        ensures
            final(self).wf(),
            exists|newv: T|
                {
                    &&& #[trigger] call_ensures(f, (&old(self).value_spec(),), newv)
                    &&& final(self).value_spec() == newv
                    &&& if newv@ == old(self).val() {
                        &&& final(self).hist() == old(self).hist()
                        &&& final(self).sub_count() == old(self).sub_count()
                        &&& forall|i: int|
                            0 <= i < final(self).sub_count() ==> final(self).sub_start(i) == old(
                                self,
                            ).sub_start(i) && final(self).sub_sent(i) == old(self).sub_sent(i)
                    } else {
                        &&& final(self).hist() == old(self).hist().push(
                            (old(self).val(), newv@),
                        )
                        &&& kept@.len() == final(self).sub_count()
                        &&& forall|a: int, b: int|
                            0 <= a < b < kept@.len() ==> #[trigger] kept@[a] < #[trigger] kept@[b]
                        &&& forall|i: int|
                            0 <= i < kept@.len() ==> {
                                &&& 0 <= #[trigger] kept@[i] < old(self).sub_count()
                                &&& final(self).sub_start(i) == old(self).sub_start(kept@[i])
                                &&& final(self).sub_sent(i) == old(self).sub_sent(
                                    kept@[i],
                                ).push((old(self).val(), newv@))
                            }
                    }
                },
    {
        let newval = f(&self.value);
        let unchanged = newval.same_value(&self.value);
        if unchanged {
            self.value = newval;
            proof {
                assert forall|i: int| 0 <= i < self.sub_count() implies #[trigger] self.sub_ok(
                    i,
                ) by {
                    assert(old(self).sub_ok(i));
                    assert(self.sub_start(i) == old(self).sub_start(i));
                    assert(self.sub_sent(i) == old(self).sub_sent(i));
                }
                assert(self.wf());
            }
            return Ghost(Seq::empty());
        }
        let ghost oldv = self.value@;
        let ghost newv = newval@;
        let ghost oldh = self.history@;
        let ghost pair = (oldv, newv);
        let ghost origsubs = self.senders@;

        proof {
            self.history@ = oldh.push(pair);
        }
        let mut pending: Vec<ChangeSender<T>> = Vec::new();
        core::mem::swap(&mut pending, &mut self.senders);
        let ghost newh = self.history@;

        let mut keptv: Vec<ChangeSender<T>> = Vec::new();
        let ghost mut kept_idx: Seq<int> = Seq::empty();
        let mut j: usize = 0;
        let n = pending.len();
        while j < n
            invariant
                n == origsubs.len(),
                0 <= j <= n,
                pending@ == origsubs.subrange(j as int, n as int),
                kept_idx.len() == keptv@.len(),
                forall|a: int, b: int|
                    0 <= a < b < kept_idx.len() ==> #[trigger] kept_idx[a] < #[trigger] kept_idx[b],
                forall|i: int|
                    0 <= i < kept_idx.len() ==> {
                        &&& 0 <= #[trigger] kept_idx[i] < j
                        &&& keptv@[i].start@ == origsubs[kept_idx[i]].start@
                        &&& keptv@[i].sent@ == origsubs[kept_idx[i]].sent@.push(pair)
                    },
                self.value@ == oldv,
                self.history@ == newh,
            decreases n - j,
        {
            let mut s = pending.remove(0);
            let ok = sender_try_send(
                &mut s.tx,
                (self.value.clone_value(), newval.clone_value()),
            );
            if ok {
                proof {
                    s.sent@ = s.sent@.push(pair);
                    kept_idx = kept_idx.push(j as int);
                }
                keptv.push(s);
            }
            proof {
                assert(origsubs.subrange(j as int, n as int).remove(0) =~= origsubs.subrange(
                    j + 1,
                    n as int,
                ));
            }
            j += 1;
        }
        core::mem::swap(&mut keptv, &mut self.senders);
        self.value = newval;
        proof {
            assert(self.hist() =~= oldh.push(pair));
            assert forall|i: int| 0 <= i < self.sub_count() implies #[trigger] self.sub_ok(
                i,
            ) by {
                let k = kept_idx[i];
                assert(0 <= k < old(self).sub_count());
                assert(old(self).sub_ok(k));
                assert(old(self).sub_sent(k) == origsubs[k].sent@);
                assert(old(self).sub_start(k) == origsubs[k].start@);
                assert(old(self).hist() == oldh);
                assert(origsubs[k].sent@ == oldh.subrange(origsubs[k].start@, oldh.len() as int));
                assert(oldh.subrange(origsubs[k].start@, oldh.len() as int).push(pair)
                    =~= newh.subrange(origsubs[k].start@, newh.len() as int));
                assert(self.sub_start(i) == origsubs[k].start@);
                assert(self.sub_sent(i) == origsubs[k].sent@.push(pair));
            }
            assert(self.wf());
        }
        Ghost(kept_idx)
    }
}

/// Law (live subscriber): under well-formedness, a live subscriber has been
/// handed the entire sequence of value-changing modifications made since its
/// subscription, in order.
pub proof fn lemma_live_subscriber_receives_all<T: Trackable>(t: &ChangeTracker<T>, i: int)
    requires
        t.wf(),
        0 <= i < t.sub_count(),
    ensures
        t.sub_sent(i) == t.hist().subrange(t.sub_start(i), t.hist().len() as int),
{
    assert(t.sub_ok(i));
}

/// Law (dropped subscriber): what a subscriber had been handed when it was
/// dropped is a prefix of the changes made since its subscription, however
/// the history grows afterwards.
pub proof fn lemma_dropped_subscriber_prefix<A>(hist_then: Seq<A>, hist_now: Seq<A>, start: int)
    requires
        hist_then.is_prefix_of(hist_now),
        0 <= start <= hist_then.len(),
    ensures
        hist_then.subrange(start, hist_then.len() as int).is_prefix_of(
            hist_now.subrange(start, hist_now.len() as int),
        ),
{
    let a = hist_then.subrange(start, hist_then.len() as int);
    let b = hist_now.subrange(start, hist_now.len() as int);
    assert(a =~= b.subrange(0, a.len() as int));
}

} // verus!
