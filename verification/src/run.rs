//! The ledger of one run: which clients are live and which machines the
//! control plane created for them.
//!
//! A run starts from nothing and never discovers what an earlier run left
//! behind. Whatever an operation refers to, a container by its name or a
//! machine by its identifier, was entered here when it was created. The
//! name of a client is the key by which every later step finds it, so no
//! name is used twice while its client is live.

use crate::text::same_text;
use crate::{
    cleanup_deletions, cleanup_removals, container_cleanup, CleanupPlan, RuntimeInformation,
};
use vstd::prelude::*;

verus! {

/// One live client: the name of its container, and the hostname it was
/// asked to register under where that differs from the name.
#[derive(Clone, Debug, PartialEq)]
pub struct InstanceRecord {
    pub name: String,
    pub desired_hostname: Option<String>,
}

/// Why an entry was refused.
#[derive(Clone, Copy, Debug, PartialEq, Eq, Structural)]
pub enum RunError {
    /// A live client has this name already.
    NameInUse,
    /// This machine was entered before.
    MachineKnown,
}

/// What a run has created and not yet released.
#[derive(Clone, Debug, PartialEq)]
pub struct Run {
    pub instances: Vec<InstanceRecord>,
    pub machines: Vec<String>,
}

/// The names of the given clients, in order.
pub open spec fn names_of(instances: Seq<InstanceRecord>) -> Seq<Seq<char>> {
    Seq::new(instances.len(), |i: int| instances[i].name@)
}

impl Run {
    /// The names of the live clients, in the order in which they were
    /// provisioned.
    pub open spec fn names(&self) -> Seq<Seq<char>> {
        names_of(self.instances@)
    }

    /// The identifiers of the machines, in the order in which they were
    /// registered.
    pub open spec fn machine_ids(&self) -> Seq<Seq<char>> {
        self.machines.deep_view()
    }

    /// Whether the ledger is in order: no name and no machine occurs twice.
    pub open spec fn well_formed(&self) -> bool {
        &&& self.names().no_duplicates()
        &&& self.machine_ids().no_duplicates()
    }

    /// The ledger of a run that has created nothing yet.
    pub fn new() -> (run: Run)
        ensures
            run.well_formed(),
            run.names() == Seq::<Seq<char>>::empty(),
            run.machine_ids() == Seq::<Seq<char>>::empty(),
    {
        let run = Run { instances: Vec::new(), machines: Vec::new() };
        assert(run.names() =~= Seq::<Seq<char>>::empty());
        assert(run.machine_ids() =~= Seq::<Seq<char>>::empty());
        run
    }

    /// Whether a live client has the given name.
    pub fn has_instance(&self, name: &str) -> (yes: bool)
        ensures
            yes == self.names().contains(name@),
    {
        let mut i: usize = 0;
        while i < self.instances.len()
            invariant
                i <= self.instances.len(),
                forall|k: int| 0 <= k < i ==> self.names()[k] != name@,
            decreases self.instances.len() - i,
        {
            if same_text(self.instances[i].name.as_str(), name) {
                assert(self.names()[i as int] == name@);
                return true;
            }
            i += 1;
        }
        false
    }

    /// Whether the machine with the given identifier was registered in this
    /// run.
    pub fn has_machine(&self, machine_id: &str) -> (yes: bool)
        ensures
            yes == self.machine_ids().contains(machine_id@),
    {
        let mut i: usize = 0;
        while i < self.machines.len()
            invariant
                i <= self.machines.len(),
                forall|k: int| 0 <= k < i ==> self.machine_ids()[k] != machine_id@,
            decreases self.machines.len() - i,
        {
            if same_text(self.machines[i].as_str(), machine_id) {
                assert(self.machine_ids()[i as int] == machine_id@);
                return true;
            }
            i += 1;
        }
        false
    }

    /// Enters a client that was provisioned. The entry is refused, and the
    /// ledger left as it is, exactly when a live client has that name.
    pub fn provisioned(&mut self, record: InstanceRecord) -> (entered: Result<(), RunError>)
        requires
            old(self).well_formed(),
        ensures
            final(self).well_formed(),
            final(self).machine_ids() == old(self).machine_ids(),
            match entered {
                Ok(()) => {
                    &&& !old(self).names().contains(record.name@)
                    &&& final(self).names() == old(self).names().push(record.name@)
                },
                Err(error) => {
                    &&& old(self).names().contains(record.name@)
                    &&& error == RunError::NameInUse
                    &&& final(self).names() == old(self).names()
                },
            },
    {
        if self.has_instance(record.name.as_str()) {
            return Err(RunError::NameInUse);
        }
        let ghost name = record.name@;
        self.instances.push(record);
        assert(self.names() =~= old(self).names().push(name));
        Ok(())
    }

    /// Enters a machine that the control plane created. The entry is
    /// refused, and the ledger left as it is, exactly when that machine was
    /// entered before.
    pub fn registered(&mut self, machine_id: &str) -> (entered: Result<(), RunError>)
        requires
            old(self).well_formed(),
        ensures
            final(self).well_formed(),
            final(self).names() == old(self).names(),
            match entered {
                Ok(()) => {
                    &&& !old(self).machine_ids().contains(machine_id@)
                    &&& final(self).machine_ids() == old(self).machine_ids().push(machine_id@)
                },
                Err(error) => {
                    &&& old(self).machine_ids().contains(machine_id@)
                    &&& error == RunError::MachineKnown
                    &&& final(self).machine_ids() == old(self).machine_ids()
                },
            },
    {
        if self.has_machine(machine_id) {
            return Err(RunError::MachineKnown);
        }
        self.machines.push(machine_id.to_owned());
        assert(self.machine_ids() =~= old(self).machine_ids().push(machine_id@));
        Ok(())
    }

    /// Takes a client out of the ledger once its container is gone. Its name
    /// is free again afterwards. Answers whether there was such a client;
    /// the other clients stay as they are and in their order.
    pub fn released(&mut self, name: &str) -> (was_live: bool)
        requires
            old(self).well_formed(),
        ensures
            final(self).well_formed(),
            final(self).machine_ids() == old(self).machine_ids(),
            was_live == old(self).names().contains(name@),
            !final(self).names().contains(name@),
            !was_live ==> final(self).names() == old(self).names(),
            was_live ==> exists|at: int|
                0 <= at < old(self).names().len() && old(self).names()[at] == name@
                    && final(self).names() == #[trigger] old(self).names().remove(at),
    {
        let mut i: usize = 0;
        while i < self.instances.len()
            invariant
                i <= self.instances.len(),
                *self == *old(self),
                self.well_formed(),
                forall|k: int| 0 <= k < i ==> self.names()[k] != name@,
            decreases self.instances.len() - i,
        {
            if same_text(self.instances[i].name.as_str(), name) {
                let ghost before = self.names();
                assert(before[i as int] == name@);
                self.instances.remove(i);
                assert(self.names() =~= before.remove(i as int));
                assert(self.names().no_duplicates()) by {
                    assert forall|a: int, b: int|
                        0 <= a < self.names().len() && 0 <= b < self.names().len() && a
                            != b implies self.names()[a] != self.names()[b] by {
                        let from_a = if a < i { a } else { a + 1 };
                        let from_b = if b < i { b } else { b + 1 };
                        assert(self.names()[a] == before[from_a]);
                        assert(self.names()[b] == before[from_b]);
                    }
                }
                assert(!self.names().contains(name@)) by {
                    if self.names().contains(name@) {
                        let at = choose|at: int|
                            0 <= at < self.names().len() && self.names()[at] == name@;
                        let from = if at < i { at } else { at + 1 };
                        assert(before[from] == name@);
                    }
                }
                return true;
            }
            i += 1;
        }
        false
    }

    /// Takes a machine out of the ledger once the control plane has deleted
    /// its record. Answers whether the machine was known; the other
    /// machines stay as they are and in their order.
    pub fn deleted(&mut self, machine_id: &str) -> (was_known: bool)
        requires
            old(self).well_formed(),
        ensures
            final(self).well_formed(),
            final(self).names() == old(self).names(),
            was_known == old(self).machine_ids().contains(machine_id@),
            !final(self).machine_ids().contains(machine_id@),
            !was_known ==> final(self).machine_ids() == old(self).machine_ids(),
            was_known ==> exists|at: int|
                0 <= at < old(self).machine_ids().len() && old(self).machine_ids()[at]
                    == machine_id@
                    && final(self).machine_ids() == #[trigger] old(self).machine_ids().remove(at),
    {
        let mut i: usize = 0;
        while i < self.machines.len()
            invariant
                i <= self.machines.len(),
                *self == *old(self),
                self.well_formed(),
                forall|k: int| 0 <= k < i ==> self.machine_ids()[k] != machine_id@,
            decreases self.machines.len() - i,
        {
            if same_text(self.machines[i].as_str(), machine_id) {
                let ghost before = self.machine_ids();
                assert(before[i as int] == machine_id@);
                self.machines.remove(i);
                assert(self.machine_ids() =~= before.remove(i as int));
                assert(self.machine_ids().no_duplicates()) by {
                    assert forall|a: int, b: int|
                        0 <= a < self.machine_ids().len() && 0 <= b < self.machine_ids().len()
                            && a != b implies self.machine_ids()[a] != self.machine_ids()[b] by {
                        let from_a = if a < i { a } else { a + 1 };
                        let from_b = if b < i { b } else { b + 1 };
                        assert(self.machine_ids()[a] == before[from_a]);
                        assert(self.machine_ids()[b] == before[from_b]);
                    }
                }
                assert(!self.machine_ids().contains(machine_id@)) by {
                    if self.machine_ids().contains(machine_id@) {
                        let at = choose|at: int|
                            0 <= at < self.machine_ids().len() && self.machine_ids()[at]
                                == machine_id@;
                        let from = if at < i { at } else { at + 1 };
                        assert(before[from] == machine_id@);
                    }
                }
                return true;
            }
            i += 1;
        }
        false
    }

    /// Describes the teardown of the run: every live client is removed and
    /// every machine of the run is deleted, each in the order in which it
    /// was entered. Nothing else is touched.
    pub fn teardown(
        &self,
        runtime_info: &RuntimeInformation,
        debug_containers: bool,
    ) -> (plan: CleanupPlan)
        ensures
            plan.removals.deep_view() == cleanup_removals(self.names(), debug_containers),
            plan.deletions.deep_view() == cleanup_deletions(self.machine_ids(), *runtime_info),
    {
        let mut names: Vec<String> = Vec::new();
        let mut i: usize = 0;
        while i < self.instances.len()
            invariant
                i <= self.instances.len(),
                names@.len() == i,
                forall|k: int| 0 <= k < i ==> #[trigger] names@[k]@ == self.instances@[k].name@,
            decreases self.instances.len() - i,
        {
            names.push(self.instances[i].name.clone());
            i += 1;
        }
        assert(names.deep_view() =~= self.names());
        container_cleanup(&names, &self.machines, runtime_info, debug_containers)
    }
}

} // verus!
