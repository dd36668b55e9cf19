//! The durable, single-writer record of every instance and its reserved
//! ports.
//!
//! The store keeps two tables: instance records, unique both by `id` and by
//! `name`, and the port registry, whose entries reference an existing record
//! and are cascade-deleted with it. Uniqueness violations and missing keys
//! surface as distinct, typed errors.

use vstd::prelude::*;
use vstd::multiset::Multiset;
use crate::error::{ErrorView, HypervisorError};
use crate::instance::{InstanceState, InstanceView};
use crate::strutil::str_eq;

verus! {

/// One `(port, instance, kind)` reservation in the port registry.
#[derive(Debug)]
pub struct PortReservation {
    pub port: u16,
    pub instance_id: String,
    pub port_type: String,
}

/// Mathematical model of a port reservation.
pub ghost struct PortView {
    pub port: u16,
    pub instance_id: Seq<char>,
    pub port_type: Seq<char>,
}

impl View for PortReservation {
    type V = PortView;

    open spec fn view(&self) -> PortView {
        PortView { port: self.port, instance_id: self.instance_id@, port_type: self.port_type@ }
    }
}

impl DeepView for PortReservation {
    type V = PortView;

    open spec fn deep_view(&self) -> PortView {
        self.view()
    }
}

impl Clone for PortReservation {
    /// Field-for-field copy; the clone models the same reservation.
    fn clone(&self) -> (r: Self)
        ensures
            r@ == self@,
    {
        PortReservation {
            port: self.port,
            instance_id: self.instance_id.clone(),
            port_type: self.port_type.clone(),
        }
    }
}

/// Some record in `s` has the given name.
pub open spec fn has_name(s: Seq<InstanceView>, name: Seq<char>) -> bool {
    exists|i: int| 0 <= i < s.len() && s[i].name == name
}

/// The index of the record with the given name.
pub open spec fn idx_of_name(s: Seq<InstanceView>, name: Seq<char>) -> int {
    choose|i: int| 0 <= i < s.len() && s[i].name == name
}

/// Some record in `s` has the given id.
pub open spec fn has_id(s: Seq<InstanceView>, id: Seq<char>) -> bool {
    exists|i: int| 0 <= i < s.len() && s[i].id == id
}

/// The index of the record with the given id.
pub open spec fn idx_of_id(s: Seq<InstanceView>, id: Seq<char>) -> int {
    choose|i: int| 0 <= i < s.len() && s[i].id == id
}

/// Some registry entry reserves the given port number.
pub open spec fn port_taken(ps: Seq<PortView>, port: u16) -> bool {
    exists|k: int| 0 <= k < ps.len() && ps[k].port == port
}

/// The record `v` with `updated_at` stamped to `now`.
pub open spec fn stamped(v: InstanceView, now: i64) -> InstanceView {
    InstanceView { updated_at: now, ..v }
}

/// The record sequence after saving `v` at time `now`: an update in place
/// when the id exists, an append otherwise.
pub open spec fn save_effect(s: Seq<InstanceView>, v: InstanceView, now: i64) -> Seq<
    InstanceView,
> {
    if has_id(s, v.id) {
        s.update(idx_of_id(s, v.id), stamped(v, now))
    } else {
        s.push(stamped(v, now))
    }
}

/// Saving `v` succeeds exactly when its name is not held by a different
/// record.
pub open spec fn save_admissible(s: Seq<InstanceView>, v: InstanceView) -> bool {
    if has_id(s, v.id) {
        forall|j: int| 0 <= j < s.len() && s[j].name == v.name ==> j == idx_of_id(s, v.id)
    } else {
        !has_name(s, v.name)
    }
}

/// No two records share a name.
pub open spec fn names_unique(s: Seq<InstanceView>) -> bool {
    forall|i: int, j: int| 0 <= i < j < s.len() ==> s[i].name != s[j].name
}

/// No two records share an id.
pub open spec fn ids_unique(s: Seq<InstanceView>) -> bool {
    forall|i: int, j: int| 0 <= i < j < s.len() ==> s[i].id != s[j].id
}

/// No two registry entries share a port number.
pub open spec fn ports_unique(ps: Seq<PortView>) -> bool {
    forall|k: int, l: int| 0 <= k < l < ps.len() ==> ps[k].port != ps[l].port
}

/// Every registry entry references an existing record: the foreign key of
/// the port registry.
pub open spec fn ports_reference(s: Seq<InstanceView>, ps: Seq<PortView>) -> bool {
    forall|k: int| 0 <= k < ps.len() ==> has_id(s, #[trigger] ps[k].instance_id)
}

/// An in-place update that keeps the record's id and touches no name held by
/// another record preserves well-formedness.
proof fn lemma_save_update_wf(
    olds: Seq<InstanceView>,
    news: Seq<InstanceView>,
    ports: Seq<PortView>,
    v: InstanceView,
    now: i64,
    i: int,
)
    requires
        names_unique(olds),
        ids_unique(olds),
        ports_reference(olds, ports),
        0 <= i < olds.len(),
        olds[i].id == v.id,
        forall|b: int| 0 <= b < olds.len() && b != i ==> olds[b].name != v.name,
        news == olds.update(i, stamped(v, now)),
    ensures
        names_unique(news),
        ids_unique(news),
        ports_reference(news, ports),
{
    assert(forall|k: int| 0 <= k < news.len() ==> news[k].id == olds[k].id);
    assert forall|k: int| 0 <= k < ports.len() implies has_id(
        news,
        #[trigger] ports[k].instance_id,
    ) by {
        let w = choose|w: int| 0 <= w < olds.len() && olds[w].id == ports[k].instance_id;
        assert(news[w].id == ports[k].instance_id);
    }
}

/// Appending a record with a fresh id and a fresh name preserves
/// well-formedness.
proof fn lemma_save_push_wf(
    olds: Seq<InstanceView>,
    news: Seq<InstanceView>,
    ports: Seq<PortView>,
    v: InstanceView,
    now: i64,
)
    requires
        names_unique(olds),
        ids_unique(olds),
        ports_reference(olds, ports),
        !has_name(olds, v.name),
        !has_id(olds, v.id),
        news == olds.push(stamped(v, now)),
    ensures
        names_unique(news),
        ids_unique(news),
        ports_reference(news, ports),
{
    assert(forall|k: int| 0 <= k < olds.len() ==> news[k] == olds[k]);
    assert forall|k: int| 0 <= k < ports.len() implies has_id(
        news,
        #[trigger] ports[k].instance_id,
    ) by {
        let w = choose|w: int| 0 <= w < olds.len() && olds[w].id == ports[k].instance_id;
        assert(news[w].id == ports[k].instance_id);
    }
}

/// The in-memory state store: the instance table and the port registry.
pub struct StateDatabase {
    records: Vec<InstanceState>,
    ports: Vec<PortReservation>,
}

impl StateDatabase {
    /// The instance table as a sequence of models.
    pub closed spec fn instances(&self) -> Seq<InstanceView> {
        self.records.deep_view()
    }

    /// The port registry as a sequence of models.
    pub closed spec fn port_entries(&self) -> Seq<PortView> {
        self.ports.deep_view()
    }

    /// Well-formedness: names and ids are unique across records, port
    /// numbers are unique across the registry, and every registry entry
    /// references an existing record.
    pub open spec fn wf(&self) -> bool {
        &&& names_unique(self.instances())
        &&& ids_unique(self.instances())
        &&& ports_unique(self.port_entries())
        &&& ports_reference(self.instances(), self.port_entries())
    }

    /// An empty store.
    pub fn new() -> (r: Self)
        ensures
            r.wf(),
            r.instances() == Seq::<InstanceView>::empty(),
            r.port_entries() == Seq::<PortView>::empty(),
    {
        let r = StateDatabase { records: Vec::new(), ports: Vec::new() };
        proof {
            assert(r.instances() =~= Seq::<InstanceView>::empty());
            assert(r.port_entries() =~= Seq::<PortView>::empty());
        }
        r
    }

    /// Index of the record with the given name, searching in table order.
    fn find_by_name(&self, name: &str) -> (r: Option<usize>)
        ensures
            match r {
                Some(i) => 0 <= i < self.instances().len() && self.instances()[i as int].name
                    == name@,
                None => !has_name(self.instances(), name@),
            },
    {
        let mut i: usize = 0;
        while i < self.records.len()
            invariant
                0 <= i <= self.records.len(),
                forall|j: int| 0 <= j < i ==> self.instances()[j].name != name@,
            decreases self.records.len() - i,
        {
            if str_eq(self.records[i].name.as_str(), name) {
                return Some(i);
            }
            i = i + 1;
        }
        None
    }

    /// Index of the record with the given id, searching in table order.
    fn find_by_id(&self, id: &str) -> (r: Option<usize>)
        ensures
            match r {
                Some(i) => 0 <= i < self.instances().len() && self.instances()[i as int].id
                    == id@,
                None => !has_id(self.instances(), id@),
            },
    {
        let mut i: usize = 0;
        while i < self.records.len()
            invariant
                0 <= i <= self.records.len(),
                forall|j: int| 0 <= j < i ==> self.instances()[j].id != id@,
            decreases self.records.len() - i,
        {
            if str_eq(self.records[i].id.as_str(), id) {
                return Some(i);
            }
            i = i + 1;
        }
        None
    }

    /// Insert-or-update by id, stamping `updated_at` with the given time.
    /// Fails with `AlreadyExists` when the record's name is held by a
    /// different record, leaving the store unchanged.
    pub fn save_instance_at(&mut self, state: &InstanceState, now: i64) -> (r: Result<
        (),
        HypervisorError,
    >)
        requires
            old(self).wf(),
        ensures
            final(self).wf(),
            final(self).port_entries() == old(self).port_entries(),
            r is Ok <==> save_admissible(old(self).instances(), state@),
            r is Ok ==> final(self).instances() == save_effect(old(self).instances(), state@, now),
            r is Err ==> final(self).instances() == old(self).instances() && r->Err_0@
                == ErrorView::AlreadyExists(state@.name),
    {
        let ghost olds = old(self).instances();
        let existing = self.find_by_id(state.id.as_str());
        let dup = self.find_by_name(state.name.as_str());
        match existing {
            Some(i) => {
                proof {
                    // The record with this id is unique, so `i` is it.
                    assert(has_id(olds, state@.id));
                    assert(idx_of_id(olds, state@.id) == i as int) by {
                        let w = idx_of_id(olds, state@.id);
                        assert(0 <= w < olds.len() && olds[w].id == state@.id);
                    }
                }
                if let Some(j) = dup {
                    if j != i {
                        proof {
                            assert(!save_admissible(olds, state@));
                        }
                        return Err(HypervisorError::AlreadyExists(state.name.clone()));
                    }
                }
                proof {
                    // Only record `i` (if any) holds this name.
                    assert forall|b: int|
                        0 <= b < olds.len() && b != i as int implies olds[b].name
                        != state@.name by {
                        match dup {
                            Some(j) => {
                                assert(olds[j as int].name == state@.name);
                            },
                            None => {
                                assert(!has_name(olds, state@.name));
                            },
                        }
                    }
                    assert(save_admissible(olds, state@));
                }
                let mut replacement = state.clone();
                replacement.updated_at = now;
                self.records.set(i, replacement);
                proof {
                    assert(self.instances() =~= olds.update(i as int, stamped(state@, now)));
                    assert(self.instances() == save_effect(olds, state@, now));
                    lemma_save_update_wf(olds, self.instances(), self.port_entries(), state@,
                        now, i as int);
                }
                Ok(())
            },
            None => {
                if let Some(_) = dup {
                    proof {
                        assert(has_name(olds, state@.name));
                        assert(!save_admissible(olds, state@));
                    }
                    return Err(HypervisorError::AlreadyExists(state.name.clone()));
                }
                let mut fresh = state.clone();
                fresh.updated_at = now;
                self.records.push(fresh);
                proof {
                    assert(self.instances() =~= olds.push(stamped(state@, now)));
                    assert(self.instances() == save_effect(olds, state@, now));
                    lemma_save_push_wf(olds, self.instances(), self.port_entries(), state@, now);
                }
                Ok(())
            },
        }
    }

    /// Insert-or-update by id, stamping `updated_at` with the current
    /// wall-clock time, of which nothing is known.
    pub fn save_instance(&mut self, state: &InstanceState) -> (r: Result<(), HypervisorError>)
        requires
            old(self).wf(),
        ensures
            final(self).wf(),
            final(self).port_entries() == old(self).port_entries(),
            r is Ok <==> save_admissible(old(self).instances(), state@),
            r is Ok ==> exists|now: i64|
                final(self).instances() == #[trigger] save_effect(
                    old(self).instances(),
                    state@,
                    now,
                ),
            r is Err ==> final(self).instances() == old(self).instances() && r->Err_0@
                == ErrorView::AlreadyExists(state@.name),
    {
        let now = crate::instance::now_ts();
        let r = self.save_instance_at(state, now);
        proof {
            if r is Ok {
                assert(self.instances() == save_effect(old(self).instances(), state@, now));
            }
        }
        r
    }

    /// The record with the given name, or `NotFound`.
    pub fn get_instance(&self, name: &str) -> (r: Result<InstanceState, HypervisorError>)
        requires
            self.wf(),
        ensures
            has_name(self.instances(), name@) ==> (r matches Ok(st) && st@ == self.instances()[
                idx_of_name(self.instances(), name@)
            ]),
            !has_name(self.instances(), name@) ==> (r matches Err(e) && e@
                == ErrorView::NotFound(name@)),
    {
        match self.find_by_name(name) {
            Some(i) => {
                proof {
                    let w = idx_of_name(self.instances(), name@);
                    assert(has_name(self.instances(), name@));
                    assert(0 <= w < self.instances().len() && self.instances()[w].name == name@);
                    assert(w == i as int);
                }
                Ok(self.records[i].clone())
            },
            None => Err(HypervisorError::NotFound(String::from_str(name))),
        }
    }

    /// The record with the given id, or `NotFound`.
    pub fn get_instance_by_id(&self, id: &str) -> (r: Result<InstanceState, HypervisorError>)
        requires
            self.wf(),
        ensures
            has_id(self.instances(), id@) ==> (r matches Ok(st) && st@ == self.instances()[
                idx_of_id(self.instances(), id@)
            ]),
            !has_id(self.instances(), id@) ==> (r matches Err(e) && e@
                == ErrorView::NotFound(id@)),
    {
        match self.find_by_id(id) {
            Some(i) => {
                proof {
                    let w = idx_of_id(self.instances(), id@);
                    assert(has_id(self.instances(), id@));
                    assert(0 <= w < self.instances().len() && self.instances()[w].id == id@);
                    assert(w == i as int);
                }
                Ok(self.records[i].clone())
            },
            None => Err(HypervisorError::NotFound(String::from_str(id))),
        }
    }

    /// Whether a record with the given name exists.
    pub fn instance_exists(&self, name: &str) -> (r: Result<bool, HypervisorError>)
        ensures
            r matches Ok(b) && b == has_name(self.instances(), name@),
    {
        Ok(self.find_by_name(name).is_some())
    }

    /// All records, ordered by descending creation time.
    pub fn list_instances(&self) -> (r: Result<Vec<InstanceState>, HypervisorError>)
        ensures
            r matches Ok(v) && v.deep_view().to_multiset() == self.instances().to_multiset()
                && sorted_desc_by_created(v.deep_view()),
    {
        broadcast use vstd::seq_lib::group_to_multiset_ensures;

        let mut work: Vec<InstanceState> = Vec::new();
        let mut i: usize = 0;
        while i < self.records.len()
            invariant
                0 <= i <= self.records.len(),
                work@.len() == i,
                forall|j: int| 0 <= j < i ==> #[trigger] work@[j]@ == self.records@[j]@,
            decreases self.records.len() - i,
        {
            work.push(self.records[i].clone());
            i = i + 1;
        }
        proof {
            assert(work.deep_view() =~= self.instances());
        }

        let mut out: Vec<InstanceState> = Vec::new();
        while work.len() > 0
            invariant
                out.deep_view().to_multiset().add(work.deep_view().to_multiset())
                    == self.instances().to_multiset(),
                sorted_desc_by_created(out.deep_view()),
                forall|a: int, b: int|
                    0 <= a < out.deep_view().len() && 0 <= b < work.deep_view().len()
                        ==> out.deep_view()[a].created_at >= work.deep_view()[b].created_at,
            decreases work.len(),
        {
            // Select the record with the largest creation time.
            let mut best: usize = 0;
            let mut k: usize = 1;
            while k < work.len()
                invariant
                    0 <= best < k <= work.len(),
                    work.len() > 0,
                    forall|j: int|
                        0 <= j < k ==> work.deep_view()[best as int].created_at
                            >= work.deep_view()[j].created_at,
                decreases work.len() - k,
            {
                if work[k].created_at > work[best].created_at {
                    best = k;
                }
                k = k + 1;
            }
            let ghost pre_work = work.deep_view();
            let ghost pre_out = out.deep_view();
            let item = work.remove(best);
            out.push(item);
            proof {
                broadcast use vstd::seq_lib::group_to_multiset_ensures;

                let x = pre_work[best as int];
                assert(work.deep_view() =~= pre_work.remove(best as int));
                assert(out.deep_view() =~= pre_out.push(x));
                assert(pre_work.remove(best as int).to_multiset() =~= pre_work.to_multiset()
                    .remove(x));
                assert(pre_out.push(x).to_multiset() =~= pre_out.to_multiset().insert(x));
                assert(pre_work.contains(x));
                assert(pre_work.to_multiset().count(x) > 0);
                assert(out.deep_view().to_multiset().add(work.deep_view().to_multiset())
                    =~= pre_out.to_multiset().add(pre_work.to_multiset()));
            }
        }
        proof {
            assert(work.deep_view() =~= Seq::<InstanceView>::empty());
            assert(work.deep_view().to_multiset() =~= Multiset::<InstanceView>::empty());
            assert(out.deep_view().to_multiset() =~= self.instances().to_multiset());
        }
        Ok(out)
    }

    /// Delete the record with the given name, cascading its port
    /// reservations. Fails with `NotFound` when no such record exists,
    /// leaving the store unchanged.
    pub fn delete_instance(&mut self, name: &str) -> (r: Result<(), HypervisorError>)
        requires
            old(self).wf(),
        ensures
            final(self).wf(),
            !has_name(old(self).instances(), name@) ==> (r matches Err(e) && e@
                == ErrorView::NotFound(name@) && final(self).instances() == old(self).instances()
                && final(self).port_entries() == old(self).port_entries()),
            has_name(old(self).instances(), name@) ==> r is Ok && final(self).instances()
                == old(self).instances().remove(idx_of_name(old(self).instances(), name@))
                && final(self).port_entries() == old(self).port_entries().filter(
                cascade_keeps(
                    old(self).instances()[idx_of_name(old(self).instances(), name@)].id,
                ),
            ),
    {
        let ghost olds = old(self).instances();
        let ghost ps = old(self).port_entries();
        let found = self.find_by_name(name);
        match found {
            None => Err(HypervisorError::NotFound(String::from_str(name))),
            Some(i) => {
                proof {
                    assert(has_name(olds, name@));
                    let w = idx_of_name(olds, name@);
                    assert(0 <= w < olds.len() && olds[w].name == name@);
                    assert(w == i as int);
                }
                let removed = self.records.remove(i);
                let ghost removed_id = removed@.id;
                let ghost pred = cascade_keeps(removed_id);
                let mut kept: Vec<PortReservation> = Vec::new();
                let mut k: usize = 0;
                while k < self.ports.len()
                    invariant
                        0 <= k <= self.ports@.len(),
                        self.port_entries() == ps,
                        pred == cascade_keeps(removed_id),
                        removed_id == removed@.id,
                        kept.deep_view() =~= ps.subrange(0, k as int).filter(pred),
                    decreases self.ports@.len() - k,
                {
                    let ghost pre_kept = kept.deep_view();
                    proof {
                        assert(self.port_entries()[k as int] == self.ports@[k as int]@);
                    }
                    if !str_eq(self.ports[k].instance_id.as_str(), removed.id.as_str()) {
                        kept.push(self.ports[k].clone());
                        proof {
                            assert(kept.deep_view() =~= pre_kept.push(ps[k as int]));
                        }
                    }
                    proof {
                        reveal(Seq::filter);
                        let sub0 = ps.subrange(0, k as int);
                        let sub1 = ps.subrange(0, k as int + 1);
                        assert(sub1.len() == k + 1);
                        assert(sub1.drop_last() =~= sub0);
                        assert(sub1.last() == ps[k as int]);
                        assert(pred(ps[k as int]) == (ps[k as int].instance_id != removed_id));
                        assert(sub1.filter(pred) == if pred(ps[k as int]) {
                            sub0.filter(pred).push(ps[k as int])
                        } else {
                            sub0.filter(pred)
                        });
                        assert(kept.deep_view() =~= sub1.filter(pred));
                    }
                    k = k + 1;
                }
                proof {
                    assert(ps.subrange(0, ps.len() as int) =~= ps);
                }
                self.ports = kept;
                proof {
                    assert(self.instances() =~= olds.remove(i as int));
                    lemma_delete_wf(olds, self.instances(), ps, i as int);
                    lemma_filter_member(ps, pred);
                    lemma_filter_ports_unique(ps, pred);
                    // Cascade keeps the foreign key: every kept entry
                    // references a surviving record.
                    assert forall|a: int|
                        0 <= a < self.port_entries().len() implies has_id(
                        self.instances(),
                        #[trigger] self.port_entries()[a].instance_id,
                    ) by {
                        broadcast use vstd::seq_lib::group_filter_ensures;

                        let entry = self.port_entries()[a];
                        assert(pred(entry));
                        let j = choose|j: int| 0 <= j < ps.len() && ps[j] == entry;
                        assert(has_id(olds, entry.instance_id));
                        let w = choose|w: int|
                            0 <= w < olds.len() && olds[w].id == entry.instance_id;
                        assert(olds[i as int].id == removed_id);
                        assert(w != i as int);
                        if w < i as int {
                            assert(self.instances()[w].id == entry.instance_id);
                        } else {
                            assert(self.instances()[w - 1].id == entry.instance_id);
                        }
                    }
                }
                Ok(())
            },
        }
    }

    /// Whether some registry entry reserves the given port number.
    pub fn port_is_reserved(&self, port: u16) -> (r: bool)
        ensures
            r == port_taken(self.port_entries(), port),
    {
        let mut k: usize = 0;
        while k < self.ports.len()
            invariant
                0 <= k <= self.ports@.len(),
                forall|j: int| 0 <= j < k ==> self.port_entries()[j].port != port,
            decreases self.ports@.len() - k,
        {
            if self.ports[k].port == port {
                proof {
                    assert(self.port_entries()[k as int].port == port);
                }
                return true;
            }
            proof {
                assert(self.port_entries()[k as int] == self.ports@[k as int]@);
            }
            k = k + 1;
        }
        false
    }

    /// Reserve a port for an instance. Fails with a typed storage error when
    /// the instance id references no record (the registry's foreign key) or
    /// when the port is already reserved, leaving the store unchanged.
    pub fn allocate_port(&mut self, instance_id: &str, port: u16, port_type: &str) -> (r: Result<
        (),
        HypervisorError,
    >)
        requires
            old(self).wf(),
        ensures
            final(self).wf(),
            final(self).instances() == old(self).instances(),
            r is Ok <==> has_id(old(self).instances(), instance_id@) && !port_taken(
                old(self).port_entries(),
                port,
            ),
            r is Ok ==> final(self).port_entries() == old(self).port_entries().push(
                PortView { port, instance_id: instance_id@, port_type: port_type@ },
            ),
            r is Err ==> final(self).port_entries() == old(self).port_entries() && r->Err_0@
                matches ErrorView::StorageError(_),
    {
        if self.find_by_id(instance_id).is_none() {
            return Err(
                HypervisorError::StorageError(
                    String::from_str("port registry references a missing instance"),
                ),
            );
        }
        if self.port_is_reserved(port) {
            return Err(HypervisorError::StorageError(String::from_str("port already reserved")));
        }
        let ghost ps = self.port_entries();
        self.ports.push(
            PortReservation {
                port,
                instance_id: String::from_str(instance_id),
                port_type: String::from_str(port_type),
            },
        );
        proof {
            assert(self.port_entries() =~= ps.push(
                PortView { port, instance_id: instance_id@, port_type: port_type@ },
            ));
            assert(forall|k: int| 0 <= k < ps.len() ==> self.port_entries()[k] == ps[k]);
            assert forall|k: int|
                0 <= k < self.port_entries().len() implies has_id(
                self.instances(),
                #[trigger] self.port_entries()[k].instance_id,
            ) by {
                if k < ps.len() {
                    assert(has_id(self.instances(), ps[k].instance_id));
                }
            }
        }
        Ok(())
    }

    /// The reserved port numbers, in ascending order.
    pub fn get_allocated_ports(&self) -> (r: Result<Vec<u16>, HypervisorError>)
        ensures
            r matches Ok(v) && v@.to_multiset() == self.port_entries().map_values(
                |p: PortView| p.port,
            ).to_multiset() && sorted_asc(v@),
    {
        broadcast use vstd::seq_lib::group_to_multiset_ensures;

        let ghost pts = self.port_entries().map_values(|p: PortView| p.port);
        proof {
            assert(self.port_entries().len() == self.ports@.len());
            assert(pts.len() == self.ports@.len());
        }
        let mut work: Vec<u16> = Vec::new();
        let mut i: usize = 0;
        while i < self.ports.len()
            invariant
                0 <= i <= self.ports@.len(),
                work@.len() == i,
                forall|j: int| 0 <= j < i ==> work@[j] == self.port_entries()[j].port,
            decreases self.ports@.len() - i,
        {
            work.push(self.ports[i].port);
            proof {
                assert(self.port_entries()[i as int] == self.ports@[i as int]@);
            }
            i = i + 1;
        }
        proof {
            assert(work@ =~= pts);
        }
        let mut out: Vec<u16> = Vec::new();
        while work.len() > 0
            invariant
                out@.to_multiset().add(work@.to_multiset()) == pts.to_multiset(),
                sorted_asc(out@),
                forall|a: int, b: int|
                    0 <= a < out@.len() && 0 <= b < work@.len() ==> out@[a] <= work@[b],
            decreases work.len(),
        {
            let mut best: usize = 0;
            let mut k: usize = 1;
            while k < work.len()
                invariant
                    0 <= best < k <= work.len(),
                    work@.len() > 0,
                    forall|j: int| 0 <= j < k ==> work@[best as int] <= work@[j],
                decreases work.len() - k,
            {
                if work[k] < work[best] {
                    best = k;
                }
                k = k + 1;
            }
            let ghost pre_work = work@;
            let ghost pre_out = out@;
            let item = work.remove(best);
            out.push(item);
            proof {
                broadcast use vstd::seq_lib::group_to_multiset_ensures;

                let x = pre_work[best as int];
                assert(pre_work.remove(best as int).to_multiset() =~= pre_work.to_multiset()
                    .remove(x));
                assert(pre_out.push(x).to_multiset() =~= pre_out.to_multiset().insert(x));
                assert(pre_work.contains(x));
                assert(pre_work.to_multiset().count(x) > 0);
                assert(out@.to_multiset().add(work@.to_multiset()) =~= pre_out.to_multiset().add(
                    pre_work.to_multiset(),
                ));
            }
        }
        proof {
            assert(work@ =~= Seq::<u16>::empty());
            assert(work@.to_multiset() =~= Multiset::<u16>::empty());
            assert(out@.to_multiset() =~= pts.to_multiset());
        }
        Ok(out)
    }
}

/// The sequence is ordered by descending `created_at`.
pub open spec fn sorted_desc_by_created(s: Seq<InstanceView>) -> bool {
    forall|a: int, b: int| 0 <= a < b < s.len() ==> s[a].created_at >= s[b].created_at
}

/// The sequence is ordered ascending.
pub open spec fn sorted_asc(s: Seq<u16>) -> bool {
    forall|a: int, b: int| 0 <= a < b < s.len() ==> s[a] <= s[b]
}

/// The predicate that the cascade delete keeps: entries owned by any other
/// instance.
pub open spec fn cascade_keeps(removed_id: Seq<char>) -> spec_fn(PortView) -> bool {
    |p: PortView| p.instance_id != removed_id
}

/// Removing a record preserves name and id uniqueness.
proof fn lemma_delete_wf(
    olds: Seq<InstanceView>,
    news: Seq<InstanceView>,
    ports: Seq<PortView>,
    i: int,
)
    requires
        names_unique(olds),
        ids_unique(olds),
        0 <= i < olds.len(),
        news == olds.remove(i),
    ensures
        names_unique(news),
        ids_unique(news),
{
    assert(forall|a: int| 0 <= a < i ==> news[a] == olds[a]);
    assert(forall|a: int| i <= a < news.len() ==> news[a] == olds[a + 1]);
}

/// Every element of a filtered sequence is an element of the unfiltered one.
proof fn lemma_filter_member(ps: Seq<PortView>, pred: spec_fn(PortView) -> bool)
    ensures
        forall|a: int|
            0 <= a < ps.filter(pred).len() ==> exists|j: int|
                0 <= j < ps.len() && ps[j] == #[trigger] ps.filter(pred)[a],
    decreases ps.len(),
{
    reveal(Seq::filter);
    if ps.len() > 0 {
        let prev = ps.drop_last();
        lemma_filter_member(prev, pred);
        assert forall|a: int|
            0 <= a < ps.filter(pred).len() implies exists|j: int|
            0 <= j < ps.len() && ps[j] == #[trigger] ps.filter(pred)[a] by {
            if a < prev.filter(pred).len() {
                let j = choose|j: int| 0 <= j < prev.len() && prev[j] == prev.filter(pred)[a];
                assert(ps[j] == ps.filter(pred)[a]);
            } else {
                assert(ps[ps.len() - 1] == ps.filter(pred)[a]);
            }
        }
    }
}

/// Filtering preserves port uniqueness.
proof fn lemma_filter_ports_unique(ps: Seq<PortView>, pred: spec_fn(PortView) -> bool)
    requires
        ports_unique(ps),
    ensures
        ports_unique(ps.filter(pred)),
    decreases ps.len(),
{
    reveal(Seq::filter);
    if ps.len() > 0 {
        let prev = ps.drop_last();
        assert(forall|a: int| 0 <= a < prev.len() ==> prev[a] == ps[a]);
        lemma_filter_ports_unique(prev, pred);
        lemma_filter_member(prev, pred);
        if pred(ps.last()) {
            assert forall|a: int, b: int|
                0 <= a < b < ps.filter(pred).len() implies ps.filter(pred)[a].port != ps.filter(
                pred,
            )[b].port by {
                if b == ps.filter(pred).len() - 1 {
                    let j = choose|j: int|
                        0 <= j < prev.len() && prev[j] == prev.filter(pred)[a];
                    assert(ps[j].port != ps[ps.len() - 1].port);
                } else {
                    assert(prev.filter(pred)[a].port != prev.filter(pred)[b].port);
                }
            }
        }
    }
}

/// Law: in a well-formed store, every port-registry entry references an
/// existing instance record.
pub proof fn lemma_ports_reference_instances(db: &StateDatabase)
    requires
        db.wf(),
    ensures
        forall|k: int|
            0 <= k < db.port_entries().len() ==> has_id(
                db.instances(),
                #[trigger] db.port_entries()[k].instance_id,
            ),
{
}

/// Law: saving a record and then reading it back by name returns the record
/// unchanged except for `updated_at`, which is stamped with the save time; a
/// clock that has not run backwards can only increase it.
pub proof fn lemma_save_then_get(s: Seq<InstanceView>, v: InstanceView, now: i64)
    requires
        names_unique(s),
        ids_unique(s),
        save_admissible(s, v),
    ensures
        has_name(save_effect(s, v, now), v.name),
        save_effect(s, v, now)[idx_of_name(save_effect(s, v, now), v.name)] == stamped(v, now),
        stamped(v, now).id == v.id && stamped(v, now).name == v.name && stamped(v, now).status
            == v.status && stamped(v, now).config == v.config && stamped(v, now).vm_pid == v.vm_pid
            && stamped(v, now).created_at == v.created_at,
        now >= v.updated_at ==> stamped(v, now).updated_at >= v.updated_at,
{
    let news = save_effect(s, v, now);
    if has_id(s, v.id) {
        let i = idx_of_id(s, v.id);
        assert(0 <= i < s.len() && s[i].id == v.id);
        assert(news[i].name == v.name);
        assert(has_name(news, v.name));
        let w = idx_of_name(news, v.name);
        assert(0 <= w < news.len() && news[w].name == v.name);
        if w != i {
            assert(s[w].name == v.name);
            assert(false);
        }
    } else {
        let i = s.len() as int;
        assert(news[i].name == v.name);
        assert(has_name(news, v.name));
        let w = idx_of_name(news, v.name);
        assert(0 <= w < news.len() && news[w].name == v.name);
        if w != i {
            assert(s[w].name == v.name);
            assert(has_name(s, v.name));
            assert(false);
        }
    }
}

} // verus!
