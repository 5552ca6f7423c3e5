//! In-memory model of the native acceleration backend's registry: it
//! allocates resource and session ids, tracks which resource ids are live,
//! and records declared dependency edges. Every call answers with a status
//! code in the style of the C ABI (`VACCEL_OK` on success); the wrapper
//! types translate those codes into typed errors.

use vstd::prelude::*;
use crate::{VaccelId, VACCEL_OK, VACCEL_EINVAL, VACCEL_ENOMEM};

verus! {

/// Registry owned by the process that stands for the native plugin state.
/// It is passed explicitly to every operation that crosses the boundary,
/// which keeps lifetime reasoning local instead of process-wide.
pub struct Backend {
    next_id: i64,
    live: Vec<i64>,
    deps: Vec<(i64, Vec<i64>)>,
}

impl Backend {
    /// The id the next successful allocation will return.
    pub closed spec fn next_id_spec(self) -> i64 {
        self.next_id
    }

    /// The ids of the resources currently live in the backend, in creation
    /// order.
    pub closed spec fn live_ids(self) -> Seq<i64> {
        self.live@
    }

    /// Whether `id` names a live resource.
    pub open spec fn is_live_spec(self, id: i64) -> bool {
        self.live_ids().contains(id)
    }

    /// The recorded dependency edges, oldest first; a later entry for the
    /// same resource supersedes an earlier one.
    pub closed spec fn deps_entries(self) -> Seq<(i64, Seq<i64>)> {
        self.deps@.map_values(|e: (i64, Vec<i64>)| (e.0, e.1@))
    }

    /// Last-wins reading of a sequence of dependency entries as a map.
    pub open spec fn record_of(s: Seq<(i64, Seq<i64>)>) -> Map<i64, Seq<i64>>
        decreases s.len(),
    {
        if s.len() == 0 {
            Map::empty()
        } else {
            Self::record_of(s.drop_last()).insert(s.last().0, s.last().1)
        }
    }

    /// The dependency ids currently on record for each resource.
    pub open spec fn dep_record(self) -> Map<i64, Seq<i64>> {
        Self::record_of(self.deps_entries())
    }

    /// Well-formedness: ids are allocated in increasing order starting at 1,
    /// so every live id is positive, below the allocation cursor, and unique.
    pub closed spec fn wf(self) -> bool {
        &&& 1 <= self.next_id
        &&& forall|i: int| 0 <= i < self.live@.len() ==> 1 <= #[trigger] self.live@[i] < self.next_id
        &&& forall|i: int, j: int|
            0 <= i < j < self.live@.len() ==> self.live@[i] != self.live@[j]
    }

    /// A live resource's id is never the sentinel `0` and names exactly one
    /// live resource: ids are unique while live.
    pub proof fn lemma_live_ids_unique_and_positive(self)
        requires
            self.wf(),
        ensures
            forall|i: int| 0 <= i < self.live_ids().len() ==> #[trigger] self.live_ids()[i] >= 1,
            forall|i: int, j: int|
                0 <= i < j < self.live_ids().len() ==> self.live_ids()[i] != self.live_ids()[j],
    {
    }

    /// Open a backend with no live resources and no recorded dependencies.
    pub fn new() -> (b: Backend)
        ensures
            b.wf(),
            b.next_id_spec() == 1,
            b.live_ids() == Seq::<i64>::empty(),
            b.dep_record() == Map::<i64, Seq<i64>>::empty(),
    {
        let b = Backend { next_id: 1, live: Vec::new(), deps: Vec::new() };
        proof {
            assert(b.deps_entries() =~= Seq::<(i64, Seq<i64>)>::empty());
        }
        b
    }

    /// Create a native resource: a fresh id is assigned and becomes live.
    /// Fails with `VACCEL_ENOMEM` only when the id space is exhausted.
    pub fn create_resource(&mut self) -> (r: Result<i64, u32>)
        requires
            old(self).wf(),
        ensures
            final(self).wf(),
            r is Ok <==> old(self).next_id_spec() < i64::MAX,
            match r {
                Ok(id) => {
                    &&& id == old(self).next_id_spec()
                    &&& !old(self).is_live_spec(id)
                    &&& final(self).next_id_spec() == old(self).next_id_spec() + 1
                    &&& final(self).live_ids() == old(self).live_ids().push(id)
                    &&& final(self).dep_record() == old(self).dep_record()
                },
                Err(code) => code == VACCEL_ENOMEM && *final(self) == *old(self),
            },
    {
        if self.next_id == i64::MAX {
            return Err(VACCEL_ENOMEM);
        }
        let id = self.next_id;
        self.next_id = self.next_id + 1;
        self.live.push(id);
        Ok(id)
    }

    /// Allocate a session id from the same id space; sessions are not
    /// targets of dependency edges, so the id is not marked live.
    pub fn open_session(&mut self) -> (r: Result<i64, u32>)
        requires
            old(self).wf(),
        ensures
            final(self).wf(),
            r is Ok <==> old(self).next_id_spec() < i64::MAX,
            match r {
                Ok(id) => {
                    &&& id == old(self).next_id_spec()
                    &&& final(self).next_id_spec() == old(self).next_id_spec() + 1
                    &&& final(self).live_ids() == old(self).live_ids()
                    &&& final(self).dep_record() == old(self).dep_record()
                },
                Err(code) => code == VACCEL_ENOMEM && *final(self) == *old(self),
            },
    {
        if self.next_id == i64::MAX {
            return Err(VACCEL_ENOMEM);
        }
        let id = self.next_id;
        self.next_id = self.next_id + 1;
        Ok(id)
    }

    /// Whether `id` names a live resource.
    pub fn is_live(&self, id: i64) -> (r: bool)
        ensures
            r == self.is_live_spec(id),
    {
        let mut i: usize = 0;
        while i < self.live.len()
            invariant
                i <= self.live@.len(),
                forall|j: int| 0 <= j < i ==> self.live@[j] != id,
            decreases self.live@.len() - i,
        {
            if self.live[i] == id {
                return true;
            }
            i = i + 1;
        }
        false
    }

    /// How many resources are live; lets callers check that repeated work
    /// does not leak native handles.
    pub fn live_count(&self) -> (r: usize)
        ensures
            r == self.live_ids().len(),
    {
        self.live.len()
    }

    fn find_live_index(&self, id: i64) -> (r: Option<usize>)
        ensures
            match r {
                Some(i) => i < self.live@.len() && self.live@[i as int] == id,
                None => !self.live@.contains(id),
            },
    {
        let mut i: usize = 0;
        while i < self.live.len()
            invariant
                i <= self.live@.len(),
                forall|j: int| 0 <= j < i ==> self.live@[j] != id,
            decreases self.live@.len() - i,
        {
            if self.live[i] == id {
                return Some(i);
            }
            i = i + 1;
        }
        None
    }

    /// Tear a resource down: a live id stops being live and `VACCEL_OK` is
    /// returned; an unknown id is rejected with `VACCEL_EINVAL` and nothing
    /// changes.
    pub fn destroy_resource(&mut self, id: i64) -> (status: u32)
        requires
            old(self).wf(),
        ensures
            final(self).wf(),
            old(self).is_live_spec(id) ==> {
                &&& status == VACCEL_OK
                &&& !final(self).is_live_spec(id)
                &&& forall|x: i64|
                    x != id ==> final(self).is_live_spec(x) == old(self).is_live_spec(x)
                &&& final(self).live_ids().len() == old(self).live_ids().len() - 1
                &&& final(self).next_id_spec() == old(self).next_id_spec()
                &&& final(self).dep_record() == old(self).dep_record()
            },
            !old(self).is_live_spec(id) ==> status == VACCEL_EINVAL && *final(self) == *old(self),
    {
        match self.find_live_index(id) {
            Some(i) => {
                let ghost s = self.live@;
                self.live.remove(i);
                proof {
                    let t = self.live@;
                    assert forall|x: i64| x != id implies t.contains(x) == s.contains(x) by {
                        if t.contains(x) {
                            let j = choose|j: int| 0 <= j < t.len() && t[j] == x;
                            if j < i {
                                assert(s[j] == x);
                            } else {
                                assert(s[j + 1] == x);
                            }
                            assert(s.contains(x));
                        }
                        if s.contains(x) {
                            let j = choose|j: int| 0 <= j < s.len() && s[j] == x;
                            if j < i {
                                assert(t[j] == x);
                            } else {
                                assert(j != i);
                                assert(t[j - 1] == x);
                            }
                            assert(t.contains(x));
                        }
                    }
                    assert forall|j: int| 0 <= j < self.live@.len()
                        implies self.live@[j] != id by {
                        if j < i {
                            assert(self.live@[j] == s[j]);
                        } else {
                            assert(self.live@[j] == s[j + 1]);
                        }
                    }
                    assert(!self.live@.contains(id));
                }
                VACCEL_OK
            },
            None => VACCEL_EINVAL,
        }
    }

    fn all_live(&self, ids: &Vec<i64>) -> (r: bool)
        ensures
            r == forall|j: int| 0 <= j < ids@.len() ==> self.is_live_spec(#[trigger] ids@[j]),
    {
        let mut i: usize = 0;
        while i < ids.len()
            invariant
                i <= ids@.len(),
                forall|j: int| 0 <= j < i ==> self.is_live_spec(#[trigger] ids@[j]),
            decreases ids@.len() - i,
        {
            if !self.is_live(ids[i]) {
                return false;
            }
            i = i + 1;
        }
        true
    }

    /// Record `dep_ids` as the dependencies of resource `id`, exactly as
    /// many ids as the list holds. An empty list is accepted as a no-op.
    /// Otherwise the resource and every dependency must be live; an unknown
    /// id is rejected with `VACCEL_EINVAL` and nothing changes.
    pub fn set_deps_from_ids(&mut self, id: i64, dep_ids: &Vec<i64>) -> (status: u32)
        requires
            old(self).wf(),
        ensures
            final(self).wf(),
            dep_ids@.len() == 0 ==> status == VACCEL_OK && *final(self) == *old(self),
            dep_ids@.len() > 0 && old(self).is_live_spec(id)
                && (forall|j: int|
                    0 <= j < dep_ids@.len() ==> old(self).is_live_spec(#[trigger] dep_ids@[j]))
                ==> {
                &&& status == VACCEL_OK
                &&& final(self).dep_record() == old(self).dep_record().insert(id, dep_ids@)
                &&& final(self).live_ids() == old(self).live_ids()
                &&& final(self).next_id_spec() == old(self).next_id_spec()
            },
            dep_ids@.len() > 0 && !(old(self).is_live_spec(id)
                && (forall|j: int|
                    0 <= j < dep_ids@.len() ==> old(self).is_live_spec(#[trigger] dep_ids@[j])))
                ==> status == VACCEL_EINVAL && *final(self) == *old(self),
    {
        if dep_ids.len() == 0 {
            return VACCEL_OK;
        }
        if !self.is_live(id) {
            return VACCEL_EINVAL;
        }
        if !self.all_live(dep_ids) {
            return VACCEL_EINVAL;
        }
        let ghost before = self.deps_entries();
        self.deps.push((id, dep_ids.clone()));
        proof {
            assert(self.deps_entries() =~= before.push((id, dep_ids@)));
            assert(self.deps_entries().drop_last() =~= before);
            assert(self.dep_record() == Self::record_of(before).insert(id, dep_ids@));
        }
        VACCEL_OK
    }
}

} // verus!
