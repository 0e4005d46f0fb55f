//! The orchestrators and activities a worker knows, by name.
use dashmap::DashMap;
use vstd::prelude::*;

verus! {

/// `dashmap::DashMap`, declared so that it can stand in fields and
/// signatures; nothing inside it is visible to proofs.
#[verifier::external_type_specification]
#[verifier::external_body]
#[verifier::reject_recursive_types(K)]
#[verifier::reject_recursive_types(V)]
#[verifier::reject_recursive_types(S)]
pub struct ExDashMap<K, V, S>(DashMap<K, V, S>);

/// What a `DashMap` from names to slots holds, each name by its characters.
pub uninterp spec fn slots_of(m: DashMap<String, usize>) -> Map<Seq<char>, usize>;

/// `DashMap::new`: an empty map.
#[verifier::external_body]
fn new_slots() -> (res: DashMap<String, usize>)
    ensures
        slots_of(res) =~= Map::empty(),
{
    DashMap::new()
}

/// `DashMap::insert`: the key now maps to the value, replacing any earlier
/// one; nothing else changes.
#[verifier::external_body]
fn insert_slot(m: &mut DashMap<String, usize>, key: String, slot: usize)
    ensures
        slots_of(*final(m)) == slots_of(*old(m)).insert(key@, slot),
{
    m.insert(key, slot);
}

/// `DashMap::get`: the value under the key, if any (copied out of the guard).
#[verifier::external_body]
fn get_slot(m: &DashMap<String, usize>, key: &str) -> (res: Option<usize>)
    ensures
        res == slots_of(*m).get(key@),
{
    m.get(key).map(|r| *r)
}

/// The orchestrators and activities by name; each name leads to the slot
/// where the worker keeps the function.
pub struct Registry {
    orchestrators: DashMap<String, usize>,
    activities: DashMap<String, usize>,
}

impl Registry {
    pub closed spec fn orchestrators(&self) -> Map<Seq<char>, usize> {
        slots_of(self.orchestrators)
    }

    pub closed spec fn activities(&self) -> Map<Seq<char>, usize> {
        slots_of(self.activities)
    }

    /// A registry that knows nothing.
    pub fn new() -> (res: Self)
        ensures
            res.orchestrators() == Map::<Seq<char>, usize>::empty(),
            res.activities() == Map::<Seq<char>, usize>::empty(),
    {
        Registry { orchestrators: new_slots(), activities: new_slots() }
    }

    /// Registers the orchestrator `name` at `slot`, replacing an earlier one.
    pub fn add_orchestrator(&mut self, name: String, slot: usize)
        ensures
            final(self).orchestrators() == old(self).orchestrators().insert(name@, slot),
            final(self).activities() == old(self).activities(),
    {
        insert_slot(&mut self.orchestrators, name, slot);
    }

    /// Registers the activity `name` at `slot`, replacing an earlier one.
    pub fn add_activity(&mut self, name: String, slot: usize)
        ensures
            final(self).activities() == old(self).activities().insert(name@, slot),
            final(self).orchestrators() == old(self).orchestrators(),
    {
        insert_slot(&mut self.activities, name, slot);
    }

    /// The slot of the orchestrator `name`.
    pub fn get_orchestrator(&self, name: &str) -> (res: Option<usize>)
        ensures
            res == self.orchestrators().get(name@),
    {
        get_slot(&self.orchestrators, name)
    }

    /// The slot of the activity `name`.
    pub fn get_activity(&self, name: &str) -> (res: Option<usize>)
        ensures
            res == self.activities().get(name@),
    {
        get_slot(&self.activities, name)
    }
}

} // verus!
