use crate::handle_set::{
    members, set_contains, set_insert, set_items, set_len, set_new, set_remove, Handle,
};
use vstd::prelude::*;

verus! {

/// The ids of the handles in a list.
pub open spec fn handle_ids(handles: Seq<Handle>) -> Set<u64> {
    Set::new(|id: u64| exists|i: int| 0 <= i < handles.len() && #[trigger] handles[i].id == id)
}

/// What a readiness barrier is: the ids of the handles whose load is still
/// awaited, and a flag that is raised once and stays raised.
pub struct Barrier {
    pub ready: bool,
    pub pending: Set<u64>,
}

impl Barrier {
    /// A barrier that awaits nothing and has not been polled yet.
    pub open spec fn fresh() -> Barrier {
        Barrier { ready: false, pending: Set::empty() }
    }

    /// The barrier after a handle is registered.
    pub open spec fn register(self, id: u64) -> Barrier {
        Barrier { ready: self.ready, pending: self.pending.insert(id) }
    }

    /// The barrier after one poll in which the loader reports `loaded` as
    /// fully loaded: a raised flag ends all work; otherwise the reported
    /// handles are no longer awaited, and the flag is raised if none is left.
    pub open spec fn poll(self, loaded: Set<u64>) -> Barrier {
        if self.ready {
            self
        } else {
            Barrier {
                ready: self.pending.difference(loaded) =~= Set::<u64>::empty(),
                pending: self.pending.difference(loaded),
            }
        }
    }
}

/// A readiness barrier over the loads of a batch of resources.
pub struct LoadState {
    finished_loading: bool,
    pending: bevy::platform::collections::HashSet<u64>,
}

impl View for LoadState {
    type V = Barrier;

    closed spec fn view(&self) -> Barrier {
        Barrier { ready: self.finished_loading, pending: members(self.pending) }
    }
}

impl LoadState {
    /// The barrier is well formed: it awaits finitely many handles. Every
    /// barrier that this module hands out is.
    pub open spec fn wf(&self) -> bool {
        self@.pending.finite()
    }

    /// A barrier that awaits nothing and has not been polled yet.
    pub fn new() -> (state: LoadState)
        ensures
            state.wf(),
            state@ == Barrier::fresh(),
    {
        LoadState { finished_loading: false, pending: set_new() }
    }

    /// Adds a handle to those that are awaited. The flag is left as it is,
    /// also where it is raised already.
    pub fn register(&mut self, handle: Handle)
        requires
            old(self).wf(),
        ensures
            final(self).wf(),
            final(self)@ == old(self)@.register(handle.id),
    {
        let _ = set_insert(&mut self.pending, handle.id);
    }

    /// A barrier that awaits the given handles.
    pub fn from_handles(handles: &Vec<Handle>) -> (state: LoadState)
        ensures
            state.wf(),
            state@ == (Barrier { ready: false, pending: handle_ids(handles@) }),
    {
        let mut state = LoadState::new();
        let mut i: usize = 0;
        proof {
            assert(handles@.take(0) =~= Seq::<Handle>::empty());
            assert(handle_ids(handles@.take(0)) =~= Set::<u64>::empty());
        }
        while i < handles.len()
            invariant
                i <= handles.len(),
                state.wf(),
                state@ == (Barrier { ready: false, pending: handle_ids(handles@.take(i as int)) }),
            decreases handles.len() - i,
        {
            state.register(handles[i]);
            proof {
                lemma_handle_ids_push(handles@.take(i as int), handles@[i as int]);
                assert(handles@.take(i + 1) == handles@.take(i as int).push(handles@[i as int]));
            }
            i += 1;
        }
        assert(handles@.take(handles.len() as int) == handles@);
        state
    }

    /// One poll. `loaded` holds the handles that the loader reports as fully
    /// loaded, dependencies included; a handle whose load failed or has not
    /// ended is not among them and stays awaited.
    pub fn poll(&mut self, loaded: &Vec<Handle>)
        requires
            old(self).wf(),
        ensures
            final(self).wf(),
            final(self)@ == old(self)@.poll(handle_ids(loaded@)),
    {
        if self.finished_loading {
            return ;
        }
        let mut i: usize = 0;
        proof {
            assert(loaded@.take(0) =~= Seq::<Handle>::empty());
            assert(handle_ids(loaded@.take(0)) =~= Set::<u64>::empty());
            assert(members(self.pending) =~= old(self)@.pending.difference(
                handle_ids(loaded@.take(0)),
            ));
        }
        while i < loaded.len()
            invariant
                i <= loaded.len(),
                !self.finished_loading,
                members(self.pending).finite(),
                members(self.pending) == old(self)@.pending.difference(
                    handle_ids(loaded@.take(i as int)),
                ),
            decreases loaded.len() - i,
        {
            let _ = set_remove(&mut self.pending, loaded[i].id);
            proof {
                lemma_handle_ids_push(loaded@.take(i as int), loaded@[i as int]);
                assert(loaded@.take(i + 1) == loaded@.take(i as int).push(loaded@[i as int]));
                assert(members(self.pending) =~= old(self)@.pending.difference(
                    handle_ids(loaded@.take(i + 1)),
                ));
            }
            i += 1;
        }
        assert(loaded@.take(loaded.len() as int) == loaded@);
        if set_len(&self.pending) == 0 {
            self.finished_loading = true;
        }
    }

    /// Whether the barrier is ready: whether some poll has found that no
    /// load was awaited any more.
    pub fn finished_loading(&self) -> (ready: bool)
        ensures
            ready == self@.ready,
    {
        self.finished_loading
    }

    /// How many handles are still awaited.
    pub fn pending_count(&self) -> (count: usize)
        ensures
            count == self@.pending.len(),
    {
        set_len(&self.pending)
    }

    /// Whether a handle is still awaited.
    pub fn is_pending(&self, handle: Handle) -> (pending: bool)
        ensures
            pending == self@.pending.contains(handle.id),
    {
        set_contains(&self.pending, handle.id)
    }

    /// The handles that are still awaited, each once: those that the next
    /// poll has to ask the loader about.
    pub fn pending_handles(&self) -> (handles: Vec<Handle>)
        ensures
            handles@.no_duplicates(),
            handle_ids(handles@) == self@.pending,
    {
        let ids = set_items(&self.pending);
        handles_of(&ids)
    }
}

/// The handles with the given ids, in the same order.
pub(crate) fn handles_of(ids: &Vec<u64>) -> (handles: Vec<Handle>)
    ensures
        handles@.len() == ids@.len(),
        forall|i: int| 0 <= i < ids@.len() ==> (#[trigger] handles@[i]).id == ids@[i],
        ids@.no_duplicates() ==> handles@.no_duplicates(),
        handle_ids(handles@) == ids@.to_set(),
{
    let mut handles: Vec<Handle> = Vec::new();
    let mut i: usize = 0;
    while i < ids.len()
        invariant
            i <= ids.len(),
            handles@.len() == i,
            forall|k: int| 0 <= k < i ==> (#[trigger] handles@[k]).id == ids@[k],
        decreases ids.len() - i,
    {
        handles.push(Handle { id: ids[i] });
        i += 1;
    }
    proof {
        assert forall|id: u64| handle_ids(handles@).contains(id) == ids@.to_set().contains(
            id,
        ) by {
            if handle_ids(handles@).contains(id) {
                let k = choose|k: int| 0 <= k < handles@.len() && #[trigger] handles@[k].id == id;
                assert(ids@[k] == id);
            }
            if ids@.to_set().contains(id) {
                let k = choose|k: int| 0 <= k < ids@.len() && ids@[k] == id;
                assert(handles@[k].id == id);
            }
        }
        assert(handle_ids(handles@) =~= ids@.to_set());
    }
    handles
}

/// The ids of a list with one more handle are those of the list and the
/// handle's.
pub proof fn lemma_handle_ids_push(handles: Seq<Handle>, handle: Handle)
    ensures
        handle_ids(handles.push(handle)) == handle_ids(handles).insert(handle.id),
{
    let more = handles.push(handle);
    assert forall|id: u64| handle_ids(more).contains(id) == handle_ids(handles).insert(
        handle.id,
    ).contains(id) by {
        if handle_ids(more).contains(id) {
            let k = choose|k: int| 0 <= k < more.len() && #[trigger] more[k].id == id;
            if k < handles.len() {
                assert(handles[k].id == id);
            }
        }
        if handle_ids(handles).contains(id) {
            let k = choose|k: int| 0 <= k < handles.len() && #[trigger] handles[k].id == id;
            assert(more[k].id == id);
        }
        if id == handle.id {
            assert(more[handles.len() as int].id == id);
        }
    }
    assert(handle_ids(more) =~= handle_ids(handles).insert(handle.id));
}

//////////
// Laws //
//////////

/// One thing that happens to a barrier: a handle is registered, or it is
/// polled while the loader reports some handles as fully loaded.
pub enum Event {
    Register(u64),
    Poll(Set<u64>),
}

/// The ids that at least one of the reports holds.
pub open spec fn reported(reports: Seq<Set<u64>>) -> Set<u64> {
    Set::new(|id: u64| exists|k: int| 0 <= k < reports.len() && #[trigger] reports[k].contains(id))
}

impl Barrier {
    /// The barrier after one event.
    pub open spec fn step(self, event: Event) -> Barrier {
        match event {
            Event::Register(id) => self.register(id),
            Event::Poll(loaded) => self.poll(loaded),
        }
    }

    /// The barrier after a run of events, the first of them first.
    pub open spec fn run(self, events: Seq<Event>) -> Barrier
        decreases events.len(),
    {
        if events.len() == 0 {
            self
        } else {
            self.run(events.drop_last()).step(events.last())
        }
    }

    /// The barrier after a run of polls, the first report first.
    pub open spec fn run_polls(self, reports: Seq<Set<u64>>) -> Barrier
        decreases reports.len(),
    {
        if reports.len() == 0 {
            self
        } else {
            self.run_polls(reports.drop_last()).poll(reports.last())
        }
    }

    /// Whether a poll with this report finds the barrier ready, or with
    /// nothing to await, or reports at least one handle that it awaits.
    pub open spec fn advances(self, loaded: Set<u64>) -> bool {
        ||| self.ready
        ||| self.pending =~= Set::<u64>::empty()
        ||| exists|id: u64| self.pending.contains(id) && loaded.contains(id)
    }

    /// The flag never goes back: if it is raised after some events of a run,
    /// it is raised after any more of them, registrations included. So it
    /// goes from lowered to raised at most once.
    pub proof fn lemma_ready_never_reverts(self, events: Seq<Event>, i: int, j: int)
        requires
            0 <= i <= j <= events.len(),
            self.run(events.take(i)).ready,
        ensures
            self.run(events.take(j)).ready,
        decreases j - i,
    {
        if i < j {
            self.lemma_ready_never_reverts(events, i, j - 1);
            assert(events.take(j).drop_last() == events.take(j - 1));
        }
    }

    /// After a run of polls of a barrier that was not ready, the handles
    /// still awaited are those that no poll reported, and the barrier is
    /// ready exactly if it was polled at least once and every handle it
    /// awaited was reported by some poll, in whatever order they came.
    pub proof fn lemma_ready_iff_all_reported(self, reports: Seq<Set<u64>>)
        requires
            !self.ready,
        ensures
            self.run_polls(reports).pending == self.pending.difference(reported(reports)),
            self.run_polls(reports).ready <==> reports.len() > 0 && self.pending.subset_of(
                reported(reports),
            ),
        decreases reports.len(),
    {
        if reports.len() == 0 {
            assert(self.pending.difference(reported(reports)) =~= self.pending);
        } else {
            let earlier = reports.drop_last();
            let before = self.run_polls(earlier);
            self.lemma_ready_iff_all_reported(earlier);
            assert forall|id: u64| reported(reports).contains(id) == (reported(earlier).contains(
                id,
            ) || reports.last().contains(id)) by {
                if reported(reports).contains(id) {
                    let k = choose|k: int|
                        0 <= k < reports.len() && #[trigger] reports[k].contains(id);
                    if k < earlier.len() {
                        assert(earlier[k].contains(id));
                    }
                }
                if reported(earlier).contains(id) {
                    let k = choose|k: int|
                        0 <= k < earlier.len() && #[trigger] earlier[k].contains(id);
                    assert(reports[k].contains(id));
                }
                if reports.last().contains(id) {
                    assert(reports[reports.len() - 1].contains(id));
                }
            }
            assert(self.run_polls(reports).pending =~= self.pending.difference(
                reported(reports),
            ));
            if self.run_polls(reports).ready {
                assert(self.pending.difference(reported(reports)) =~= Set::<u64>::empty());
                assert forall|id: u64| self.pending.contains(id) implies reported(
                    reports,
                ).contains(id) by {
                    if !reported(reports).contains(id) {
                        assert(self.pending.difference(reported(reports)).contains(id));
                    }
                }
            }
        }
    }

    /// A handle that no poll ever reports, because its load fails or never
    /// ends, keeps the barrier from becoming ready however often it is
    /// polled.
    pub proof fn lemma_stalls_while_unreported(self, reports: Seq<Set<u64>>, id: u64)
        requires
            !self.ready,
            self.pending.contains(id),
            forall|k: int| 0 <= k < reports.len() ==> !(#[trigger] reports[k]).contains(id),
        ensures
            !self.run_polls(reports).ready,
            self.run_polls(reports).pending.contains(id),
    {
        self.lemma_ready_iff_all_reported(reports);
        assert(!reported(reports).contains(id));
    }

    /// A barrier that awaits K handles is ready after K polls, and after at
    /// least one, if each poll reports at least one handle that is still
    /// awaited.
    pub proof fn lemma_ready_within_count(self, reports: Seq<Set<u64>>)
        requires
            !self.ready,
            self.pending.finite(),
            reports.len() >= 1,
            reports.len() >= self.pending.len(),
            forall|k: int|
                0 <= k < reports.len() ==> (#[trigger] self.run_polls(reports.take(k))).advances(
                    reports[k],
                ),
        ensures
            self.run_polls(reports).ready,
    {
        self.lemma_count_falls(reports, reports.len() as int);
        assert(reports.take(reports.len() as int) == reports);
        let after = self.run_polls(reports);
        if !after.ready {
            let earlier = reports.drop_last();
            assert(after == self.run_polls(earlier).poll(reports.last()));
            assert(after.pending.len() == 0);
            assert(after.pending =~= Set::<u64>::empty());
        }
    }

    /// While each poll reports a handle that is still awaited, the number of
    /// awaited handles after k polls is at most the number at the start less
    /// k, unless the barrier is ready by then.
    proof fn lemma_count_falls(self, reports: Seq<Set<u64>>, k: int)
        requires
            !self.ready,
            self.pending.finite(),
            0 <= k <= reports.len(),
            forall|n: int|
                0 <= n < reports.len() ==> (#[trigger] self.run_polls(reports.take(n))).advances(
                    reports[n],
                ),
        ensures
            self.run_polls(reports.take(k)).pending.finite(),
            self.run_polls(reports.take(k)).ready || self.run_polls(
                reports.take(k),
            ).pending.len() + k <= self.pending.len(),
        decreases k,
    {
        if k == 0 {
            assert(reports.take(0).len() == 0);
        } else {
            self.lemma_count_falls(reports, k - 1);
            let before = self.run_polls(reports.take(k - 1));
            let after = self.run_polls(reports.take(k));
            assert(reports.take(k).drop_last() == reports.take(k - 1));
            assert(reports.take(k).last() == reports[k - 1]);
            assert(after == before.poll(reports[k - 1]));
            assert(before.advances(reports[k - 1]));
            if !before.ready {
                vstd::set_lib::lemma_len_difference(before.pending, reports[k - 1]);
                if before.pending =~= Set::<u64>::empty() {
                    assert(after.pending =~= Set::<u64>::empty());
                } else {
                    let id = choose|id: u64|
                        before.pending.contains(id) && reports[k - 1].contains(id);
                    assert(after.pending.subset_of(before.pending.remove(id)));
                    vstd::set_lib::lemma_len_subset(after.pending, before.pending.remove(id));
                }
            }
        }
    }
}

} // verus!
