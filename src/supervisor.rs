//! The process supervisor: at most one live process per service slot.
//! Starting a slot first takes the process it records (which the caller
//! terminates and reaps) and records the new one only once it was spawned;
//! stopping clears the record whatever becomes of the process.
//!
//! The caller holds the supervisor behind one lock, so each
//! inspect-then-mutate sequence here is atomic with respect to the others.

use vstd::prelude::*;

verus! {

/// A supervised service.
#[derive(Clone, Debug, PartialEq, Eq)]
pub struct ServiceSlot {
    pub name: String,
    /// The port the service listens on.
    pub port: u16,
    /// Where the service's output goes.
    pub log_path: String,
    /// The process currently recorded for the slot.
    pub current: Option<u32>,
}

/// Every slot, with a record of the termination requests it issued.
pub struct Supervisor {
    slots: Vec<ServiceSlot>,
    terminations: Ghost<Seq<u32>>,
}

/// The records of a supervisor and the termination requests issued so far.
pub type SupervisorModel = (Seq<Option<u32>>, Seq<u32>);

/// The process recorded for a slot; none for a slot that does not exist.
pub open spec fn recorded(m: SupervisorModel, slot: int) -> Option<u32> {
    if 0 <= slot < m.0.len() {
        m.0[slot]
    } else {
        None
    }
}

/// `records` with the slot's record set to `v`; unchanged for a slot that
/// does not exist.
pub open spec fn set_record(records: Seq<Option<u32>>, slot: int, v: Option<u32>) -> Seq<Option<u32>> {
    if 0 <= slot < records.len() {
        records.update(slot, v)
    } else {
        records
    }
}

/// The model after taking the slot's process for replacement: the record is
/// cleared and its process, if any, is asked to terminate.
pub open spec fn take_spec(m: SupervisorModel, slot: int) -> SupervisorModel {
    (
        set_record(m.0, slot, None),
        match recorded(m, slot) {
            Some(p) => m.1.push(p),
            None => m.1,
        },
    )
}

/// The model after recording a freshly spawned process in the slot; a slot
/// that does not exist records nothing.
pub open spec fn record_spec(m: SupervisorModel, slot: int, pid: u32) -> SupervisorModel {
    (set_record(m.0, slot, Some(pid)), m.1)
}

/// A whole start: take the old process, then record the new one.
pub open spec fn start_spec(m: SupervisorModel, slot: int, pid: u32) -> SupervisorModel {
    record_spec(take_spec(m, slot), slot, pid)
}

impl View for Supervisor {
    type V = SupervisorModel;

    closed spec fn view(&self) -> SupervisorModel {
        (self.slots@.map_values(|s: ServiceSlot| s.current), self.terminations@)
    }
}

impl Supervisor {
    /// A supervisor with no slots.
    pub fn new() -> (r: Supervisor)
        ensures
            r@.0 == Seq::<Option<u32>>::empty(),
            r@.1 == Seq::<u32>::empty(),
    {
        let r = Supervisor { slots: Vec::new(), terminations: Ghost(Seq::empty()) };
        assert(r@.0 =~= Seq::<Option<u32>>::empty());
        r
    }

    /// Number of slots.
    pub fn slot_count(&self) -> (r: usize)
        ensures
            r == self@.0.len(),
    {
        self.slots.len()
    }

    /// Adds an empty slot and returns its index.
    pub fn add_slot(&mut self, name: String, port: u16, log_path: String) -> (r: usize)
        ensures
            r == old(self)@.0.len(),
            final(self)@.0 == old(self)@.0.push(None),
            final(self)@.1 == old(self)@.1,
    {
        let r = self.slots.len();
        self.slots.push(ServiceSlot { name, port, log_path, current: None });
        assert(final(self)@.0 =~= old(self)@.0.push(None));
        r
    }

    /// The slot's configuration and record; none for a slot that does not
    /// exist.
    pub fn slot(&self, slot: usize) -> (r: Option<&ServiceSlot>)
        ensures
            r is Some <==> slot < self@.0.len(),
            r matches Some(s) ==> s.current == self@.0[slot as int],
    {
        if slot < self.slots.len() {
            Some(&self.slots[slot])
        } else {
            None
        }
    }

    /// The process recorded for the slot.
    pub fn current(&self, slot: usize) -> (r: Option<u32>)
        ensures
            r == recorded(self@, slot as int),
    {
        if slot < self.slots.len() {
            self.slots[slot].current
        } else {
            None
        }
    }

    /// Whether `pid` is still the slot's process, that is, no later start
    /// replaced it and no stop cleared it.
    pub fn is_current(&self, slot: usize, pid: u32) -> (r: bool)
        ensures
            r == (recorded(self@, slot as int) == Some(pid)),
    {
        match self.current(slot) {
            Some(p) => p == pid,
            None => false,
        }
    }

    fn set_current(&mut self, slot: usize, current: Option<u32>)
        ensures
            final(self)@.0 == set_record(old(self)@.0, slot as int, current),
            final(self)@.1 == old(self)@.1,
    {
        if slot < self.slots.len() {
            let mut s = self.slots[slot].clone();
            s.current = current;
            self.slots.set(slot, s);
        }
        assert(final(self)@.0 =~= set_record(old(self)@.0, slot as int, current));
    }

    /// First half of a start: clears the slot and returns the process that
    /// the caller must terminate and reap before spawning the new one.
    pub fn take_for_replace(&mut self, slot: usize) -> (r: Option<u32>)
        ensures
            r == recorded(old(self)@, slot as int),
            final(self)@ == take_spec(old(self)@, slot as int),
    {
        let r = self.current(slot);
        self.set_current(slot, None);
        match r {
            Some(p) => {
                self.terminations = Ghost(self.terminations@.push(p));
            },
            None => {},
        }
        r
    }

    /// Second half of a start: records the process that was spawned.
    pub fn record_spawned(&mut self, slot: usize, pid: u32)
        ensures
            final(self)@ == record_spec(old(self)@, slot as int, pid),
    {
        self.set_current(slot, Some(pid));
    }

    /// Stops the slot: returns the process to terminate, and clears the
    /// record even if the termination fails.
    pub fn stop(&mut self, slot: usize) -> (r: Option<u32>)
        ensures
            r == recorded(old(self)@, slot as int),
            final(self)@ == take_spec(old(self)@, slot as int),
    {
        self.take_for_replace(slot)
    }

    /// Stops every slot, as the exit handler does: returns the processes to
    /// terminate, in slot order, and leaves every record cleared.
    pub fn stop_all(&mut self) -> (r: Vec<u32>)
        ensures
            final(self)@.0.len() == old(self)@.0.len(),
            forall|i: int| 0 <= i < final(self)@.0.len() ==> final(self)@.0[i] is None,
            forall|i: int|
                0 <= i < old(self)@.0.len() && old(self)@.0[i] is Some ==> r@.contains(
                    old(self)@.0[i]->0,
                ),
            forall|k: int| 0 <= k < r@.len() ==> old(self)@.0.contains(Some(#[trigger] r@[k])),
    {
        let mut out: Vec<u32> = Vec::new();
        let mut i: usize = 0;
        while i < self.slots.len()
            invariant
                i <= self@.0.len(),
                self@.0.len() == old(self)@.0.len(),
                forall|k: int| 0 <= k < i ==> self@.0[k] is None,
                forall|k: int| i <= k < self@.0.len() ==> self@.0[k] == old(self)@.0[k],
                forall|k: int|
                    0 <= k < i && old(self)@.0[k] is Some ==> out@.contains(old(self)@.0[k]->0),
                forall|k: int| 0 <= k < out@.len() ==> old(self)@.0.contains(Some(#[trigger] out@[k])),
            decreases self@.0.len() - i,
        {
            let taken = self.stop(i);
            match taken {
                Some(p) => {
                    proof {
                        assert(old(self)@.0[i as int] == Some(p));
                    }
                    let ghost prev = out@;
                    out.push(p);
                    proof {
                        assert forall|k: int|
                            0 <= k <= i && old(self)@.0[k] is Some implies out@.contains(
                            old(self)@.0[k]->0,
                        ) by {
                            if k < i {
                                let j = choose|j: int|
                                    0 <= j < prev.len() && prev[j] == old(self)@.0[k]->0;
                                assert(out@[j] == prev[j]);
                            } else {
                                assert(out@[out@.len() - 1] == p);
                            }
                        }
                    }
                },
                None => {},
            }
            i = i + 1;
        }
        out
    }
}

/// Starting a slot twice in a row leaves exactly the second process recorded
/// for it, and the first process was asked to terminate; other slots keep
/// their records.
pub proof fn lemma_second_start_replaces_first(
    m: SupervisorModel,
    slot: int,
    first: u32,
    second: u32,
)
    requires
        0 <= slot < m.0.len(),
    ensures
        ({
            let after_first = start_spec(m, slot, first);
            let after_second = start_spec(after_first, slot, second);
            &&& after_second.0[slot] == Some(second)
            &&& after_second.0.len() == m.0.len()
            &&& after_second.1.last() == first
            &&& after_second.1.contains(first)
            &&& forall|i: int| 0 <= i < m.0.len() && i != slot ==> after_second.0[i] == m.0[i]
        }),
{
    let after_first = start_spec(m, slot, first);
    let after_second = start_spec(after_first, slot, second);
    assert(after_second.1[after_second.1.len() - 1] == first);
}

} // verus!
