//! Who waits for what: the ready flag and the waker that a reader and the task
//! that reads the socket share.
use std::collections::HashMap;
use std::task::Waker;
use vstd::prelude::*;

verus! {

broadcast use vstd::std_specs::hash::group_hash_axioms;

/// `std::task::Waker`, which wakes a task.
#[verifier::external_type_specification]
#[verifier::external_body]
pub struct ExWaker(Waker);

/// The two wakers wake the same task.
pub uninterp spec fn same_task(a: Waker, b: Waker) -> bool;

/// `std::task::Waker::will_wake`: where it answers `true`, the two wakers wake
/// the same task. Where it answers `false`, they may or may not.
pub assume_specification[ Waker::will_wake ](waker: &Waker, other: &Waker) -> (same: bool)
    ensures
        same ==> same_task(*waker, *other),
;

/// `std::task::Waker::clone`: a clone wakes the same task.
pub assume_specification[ <Waker as Clone>::clone ](waker: &Waker) -> (copy: Waker)
    ensures
        same_task(copy, *waker),
;

/// A ready flag, and the waker of the task that waits for it to be raised.
#[derive(Debug)]
pub struct Readiness {
    pub ready: bool,
    pub waker: Option<Waker>,
}

impl Readiness {
    /// Nobody waits for a flag that is raised.
    pub open spec fn wf(self) -> bool {
        self.ready ==> self.waker is None
    }

    /// A flag that nobody waits for.
    pub fn new(ready: bool) -> (readiness: Readiness)
        ensures
            readiness == (Readiness { ready, waker: None }),
            readiness.wf(),
    {
        Readiness { ready, waker: None }
    }

    /// Whether the flag is raised. If it is not, the task behind `waker` waits
    /// for it from now on, and no other task does.
    pub fn poll(&mut self, waker: &Waker) -> (ready: bool)
        ensures
            ready == old(self).ready,
            final(self).ready == old(self).ready,
            ready ==> *final(self) == *old(self),
            !ready ==> (final(self).waker matches Some(w) && same_task(w, *waker)),
            old(self).wf() ==> final(self).wf(),
    {
        if self.ready {
            return true;
        }
        let keep = match &self.waker {
            Some(current) => current.will_wake(waker),
            None => false,
        };
        if !keep {
            self.waker = Some(waker.clone());
        }
        false
    }

    /// Raises the flag, and hands out the waker of the task that waited for it.
    pub fn raise(&mut self) -> (woken: Option<Waker>)
        ensures
            *final(self) == (Readiness { ready: true, waker: None }),
            woken == old(self).waker,
            final(self).wf(),
    {
        self.ready = true;
        self.waker.take()
    }

    /// Lowers the flag.
    pub fn lower(&mut self)
        ensures
            *final(self) == (Readiness { ready: false, waker: old(self).waker }),
            final(self).wf(),
    {
        self.ready = false;
    }
}

/// Each slot is still there, and a raised flag is still raised.
pub open spec fn slots_kept(before: Map<u64, Readiness>, after: Map<u64, Readiness>) -> bool {
    forall|id: u64| #[trigger]
        before.dom().contains(id) ==> after.dom().contains(id) && (before[id].ready
            ==> after[id].ready)
}

/// The slots after each stream of `ids` was found readable: its flag is raised
/// and nobody waits for it. The other slots stay.
pub open spec fn raised(slots: Map<u64, Readiness>, ids: Seq<u64>) -> Map<u64, Readiness> {
    Map::new(
        |id: u64| slots.dom().contains(id) || ids.contains(id),
        |id: u64|
            if ids.contains(id) {
                Readiness { ready: true, waker: None }
            } else {
                slots[id]
            },
    )
}

/// The wakers that wait for the streams of `ids`, in the order of `ids`, each
/// once.
pub open spec fn waiting(slots: Map<u64, Readiness>, ids: Seq<u64>) -> Seq<Waker>
    decreases ids.len(),
{
    if ids.len() == 0 {
        Seq::empty()
    } else {
        let before = waiting(slots, ids.drop_last());
        let id = ids.last();
        if slots.dom().contains(id) && slots[id].waker is Some && !ids.drop_last().contains(id) {
            before.push(slots[id].waker->0)
        } else {
            before
        }
    }
}

/// Where there are no slots, nobody waits.
proof fn lemma_nobody_waits(ids: Seq<u64>)
    ensures
        waiting(Map::empty(), ids) == Seq::<Waker>::empty(),
    decreases ids.len(),
{
    if ids.len() > 0 {
        lemma_nobody_waits(ids.drop_last());
    }
}

/// One more stream found readable, after those of `ids`.
proof fn lemma_raise_one(slots: Map<u64, Readiness>, ids: Seq<u64>, id: u64)
    ensures
        raised(slots, ids.push(id)) == raised(slots, ids).insert(
            id,
            Readiness { ready: true, waker: None },
        ),
        waiting(slots, ids.push(id)) == (if slots.dom().contains(id) && slots[id].waker is Some
            && !ids.contains(id) {
            waiting(slots, ids).push(slots[id].waker->0)
        } else {
            waiting(slots, ids)
        }),
{
    let more = ids.push(id);
    assert(more.drop_last() =~= ids);
    assert forall|x: u64| more.contains(x) <==> ids.contains(x) || x == id by {
        if ids.contains(x) {
            let k = choose|k: int| 0 <= k < ids.len() && ids[k] == x;
            assert(more[k] == x);
        }
        assert(more[ids.len() as int] == id);
    }
    assert(raised(slots, more) =~= raised(slots, ids).insert(
        id,
        Readiness { ready: true, waker: None },
    ));
}

/// The streams that a reader has waited for.
#[derive(Debug)]
pub struct StreamIo {
    slots: HashMap<u64, Readiness>,
}

impl View for StreamIo {
    type V = Map<u64, Readiness>;

    closed spec fn view(&self) -> Map<u64, Readiness> {
        self.slots@
    }
}

impl StreamIo {
    /// Nobody waits for a stream whose flag is raised.
    pub open spec fn wf(self) -> bool {
        forall|id: u64| #[trigger] self@.dom().contains(id) ==> self@[id].wf()
    }

    /// No stream has been waited for.
    pub fn new() -> (streams: StreamIo)
        ensures
            streams@ == Map::<u64, Readiness>::empty(),
            streams.wf(),
    {
        StreamIo { slots: HashMap::new() }
    }

    /// Whether no stream has been waited for.
    pub fn is_empty(&self) -> (empty: bool)
        ensures
            empty == (self@ == Map::<u64, Readiness>::empty()),
    {
        let empty = self.slots.is_empty();
        proof {
            if empty {
                assert(self@ =~= Map::<u64, Readiness>::empty());
            }
        }
        empty
    }

    /// Makes a slot for a stream, with the flag down, unless it has one.
    pub fn register(&mut self, stream_id: u64)
        ensures
            final(self)@ == (if old(self)@.dom().contains(stream_id) {
                old(self)@
            } else {
                old(self)@.insert(stream_id, Readiness { ready: false, waker: None })
            }),
            slots_kept(old(self)@, final(self)@),
            old(self).wf() ==> final(self).wf(),
    {
        self.slots.entry(stream_id).or_insert(Readiness::new(false));
        assert(old(self)@.dom().contains(stream_id) ==> final(self)@ =~= old(self)@);
    }

    /// Whether a stream's flag is raised. If it is not, the task behind `waker`
    /// waits for it from now on.
    pub fn poll(&mut self, stream_id: u64, waker: &Waker) -> (ready: bool)
        requires
            old(self)@.dom().contains(stream_id),
        ensures
            ready == old(self)@[stream_id].ready,
            ready ==> final(self)@ == old(self)@,
            final(self)@ == old(self)@.insert(stream_id, final(self)@[stream_id]),
            final(self)@[stream_id].ready == ready,
            !ready ==> (final(self)@[stream_id].waker matches Some(w) && same_task(w, *waker)),
            slots_kept(old(self)@, final(self)@),
            old(self).wf() ==> final(self).wf(),
    {
        let slot = self.slots.entry(stream_id).or_insert(Readiness::new(false));
        slot.poll(waker)
    }

    /// Raises the flags of the streams `ids`, which have become readable, and
    /// hands out the wakers of the tasks that waited for them. Where no stream
    /// has been waited for, nothing is noted of any.
    pub fn raise(&mut self, ids: &Vec<u64>) -> (woken: Vec<Waker>)
        ensures
            final(self)@ == (if old(self)@ == Map::<u64, Readiness>::empty() {
                old(self)@
            } else {
                raised(old(self)@, ids@)
            }),
            woken@ == waiting(old(self)@, ids@),
            slots_kept(old(self)@, final(self)@),
            old(self).wf() ==> final(self).wf(),
    {
        let mut woken: Vec<Waker> = Vec::new();
        if self.is_empty() {
            proof {
                lemma_nobody_waits(ids@);
            }
            return woken;
        }
        let mut i: usize = 0;
        assert(raised(self@, ids@.take(0)) =~= self@);
        while i < ids.len()
            invariant
                i <= ids.len(),
                self@ == raised(old(self)@, ids@.take(i as int)),
                woken@ == waiting(old(self)@, ids@.take(i as int)),
            decreases ids.len() - i,
        {
            proof {
                lemma_raise_one(old(self)@, ids@.take(i as int), ids@[i as int]);
                assert(ids@.take(i as int).push(ids@[i as int]) =~= ids@.take(i + 1));
            }
            let slot = self.slots.entry(ids[i]).or_insert(Readiness::new(false));
            if let Some(waker) = slot.raise() {
                woken.push(waker);
            }
            i = i + 1;
        }
        assert(ids@.take(i as int) =~= ids@);
        woken
    }
}

} // verus!
