use vstd::prelude::*;

verus! {

/// A bounded first-in-first-out buffer between arriving calls and the
/// execution stage: it admits a call while it has room and rejects fast when
/// full, so unconsumed work never grows without bound.
#[derive(Debug)]
pub struct AdmissionQueue<T> {
    capacity: usize,
    entries: Vec<T>,
}

/// The queue length after `n` further submissions with nothing leaving a
/// queue of capacity `cap` currently holding `len0` entries.
pub open spec fn queue_len_after(cap: nat, len0: nat, n: nat) -> nat
    decreases n,
{
    if n == 0 {
        len0
    } else {
        let prev = queue_len_after(cap, len0, (n - 1) as nat);
        if prev < cap {
            prev + 1
        } else {
            prev
        }
    }
}

/// How many of those `n` submissions are rejected.
pub open spec fn rejections_after(cap: nat, len0: nat, n: nat) -> nat
    decreases n,
{
    if n == 0 {
        0
    } else {
        let prev = rejections_after(cap, len0, (n - 1) as nat);
        if queue_len_after(cap, len0, (n - 1) as nat) < cap {
            prev
        } else {
            prev + 1
        }
    }
}

proof fn lemma_queue_len_closed_form(cap: nat, len0: nat, n: nat)
    requires
        len0 <= cap,
    ensures
        queue_len_after(cap, len0, n) == if len0 + n <= cap {
            len0 + n
        } else {
            cap
        },
        rejections_after(cap, len0, n) == if len0 + n <= cap {
            0
        } else {
            len0 + n - cap
        },
    decreases n,
{
    if n > 0 {
        lemma_queue_len_closed_form(cap, len0, (n - 1) as nat);
    }
}

/// Backpressure: submitting `cap + 1` calls to an empty queue of capacity
/// `cap`, while none can yet leave it, admits exactly `cap` of them and
/// rejects exactly one.
pub proof fn lemma_backpressure(cap: nat)
    requires
        cap >= 1,
    ensures
        queue_len_after(cap, 0, cap + 1) == cap,
        rejections_after(cap, 0, cap + 1) == 1,
{
    lemma_queue_len_closed_form(cap, 0, cap + 1);
}

impl<T> AdmissionQueue<T> {
    /// The entries now queued, in arrival order.
    pub closed spec fn spec_entries(&self) -> Seq<T> {
        self.entries@
    }

    /// The queue's capacity.
    pub closed spec fn spec_capacity(&self) -> usize {
        self.capacity
    }

    /// The queue never holds more than its capacity.
    pub open spec fn wf(&self) -> bool {
        &&& self.spec_capacity() >= 1
        &&& self.spec_entries().len() <= self.spec_capacity()
    }

    pub fn new(capacity: usize) -> (r: AdmissionQueue<T>)
        requires
            capacity >= 1,
        ensures
            r.wf(),
            r.spec_capacity() == capacity,
            r.spec_entries() == Seq::<T>::empty(),
    {
        AdmissionQueue { capacity, entries: Vec::new() }
    }

    /// Admit `item` at the back of the queue, or give it back at once when
    /// the queue is at capacity.
    pub fn submit(&mut self, item: T) -> (r: Result<(), T>)
        requires
            old(self).wf(),
        ensures
            final(self).wf(),
            final(self).spec_capacity() == old(self).spec_capacity(),
            r is Ok <==> old(self).spec_entries().len() < old(self).spec_capacity(),
            r is Ok ==> final(self).spec_entries() == old(self).spec_entries().push(item),
            r matches Err(given_back) ==> (given_back == item && final(self).spec_entries()
                == old(self).spec_entries()),
    {
        if self.entries.len() < self.capacity {
            self.entries.push(item);
            Ok(())
        } else {
            Err(item)
        }
    }

    /// Hand the oldest queued entry to the execution stage: entries leave in
    /// arrival order.
    pub fn pop_front(&mut self) -> (r: Option<T>)
        requires
            old(self).wf(),
        ensures
            final(self).wf(),
            final(self).spec_capacity() == old(self).spec_capacity(),
            old(self).spec_entries().len() == 0 ==> r is None && final(self).spec_entries()
                == old(self).spec_entries(),
            old(self).spec_entries().len() > 0 ==> r == Some(old(self).spec_entries()[0])
                && final(self).spec_entries() == old(self).spec_entries().subrange(
                1,
                old(self).spec_entries().len() as int,
            ),
    {
        if self.entries.len() > 0 {
            let item = self.entries.remove(0);
            proof {
                assert(self.entries@ =~= old(self).entries@.subrange(
                    1,
                    old(self).entries@.len() as int,
                ));
            }
            Some(item)
        } else {
            None
        }
    }

    /// Admit a burst of calls in arrival order while nothing leaves the
    /// queue: the queue fills to its capacity with the earliest calls and
    /// every later call is rejected. Returns how many were rejected.
    pub fn submit_all(&mut self, items: Vec<T>) -> (rejected: usize)
        requires
            old(self).wf(),
        ensures
            final(self).wf(),
            final(self).spec_capacity() == old(self).spec_capacity(),
            final(self).spec_entries().len() == queue_len_after(
                old(self).spec_capacity() as nat,
                old(self).spec_entries().len() as nat,
                items@.len(),
            ),
            rejected == rejections_after(
                old(self).spec_capacity() as nat,
                old(self).spec_entries().len() as nat,
                items@.len(),
            ),
            final(self).spec_entries() == old(self).spec_entries() + items@.take(
                items@.len() - rejected,
            ),
    {
        let ghost cap = old(self).spec_capacity() as nat;
        let ghost len0 = old(self).spec_entries().len() as nat;
        let ghost all = items@;
        let ghost mut j: nat = 0;
        let total: usize = items.len();
        let mut items = items;
        let mut rejected: usize = 0;
        proof {
            assert(all.take(0) =~= Seq::<T>::empty());
            assert(self.spec_entries() + all.take(0) =~= self.spec_entries());
        }
        while items.len() > 0
            invariant
                self.wf(),
                self.spec_capacity() == old(self).spec_capacity(),
                cap == old(self).spec_capacity() as nat,
                len0 == old(self).spec_entries().len() as nat,
                all.len() == total,
                j + items@.len() == all.len(),
                items@ == all.skip(j as int),
                rejected <= j,
                self.spec_entries().len() == queue_len_after(cap, len0, j),
                rejected == rejections_after(cap, len0, j),
                self.spec_entries() == old(self).spec_entries() + all.take(j - rejected),
                rejected > 0 ==> self.spec_entries().len() == self.spec_capacity(),
            decreases items.len(),
        {
            let x = items.remove(0);
            proof {
                assert(x == all[j as int]);
                assert(items@ =~= all.skip(j as int + 1));
            }
            let ghost entries_before = self.spec_entries();
            match self.submit(x) {
                Ok(()) => {
                    proof {
                        // Rejections only begin once the queue is full, and
                        // it never drains here, so the admitted calls are
                        // exactly the earliest ones.
                        assert(rejected == 0);
                        assert(entries_before.push(x) =~= old(self).spec_entries() + all.take(
                            j + 1 - rejected,
                        ));
                    }
                },
                Err(_) => {
                    rejected = rejected + 1;
                    proof {
                        assert(all.take(j - (rejected - 1)) =~= all.take(j + 1 - rejected));
                    }
                },
            }
            proof {
                j = j + 1;
            }
        }
        proof {
            assert(all.skip(j as int).len() == 0);
        }
        rejected
    }

    /// How many entries are queued.
    pub fn len(&self) -> (r: usize)
        ensures
            r == self.spec_entries().len(),
    {
        self.entries.len()
    }

    /// Whether the queue is empty.
    pub fn is_empty(&self) -> (r: bool)
        ensures
            r == (self.spec_entries().len() == 0),
    {
        self.entries.is_empty()
    }
}

} // verus!
