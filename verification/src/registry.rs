//! Hook registries: per machine type, one ordered list of before-hook handles
//! and one ordered list of after-hook handles.
//!
//! Registration order is execution order. The engine never iterates a registry
//! directly: at the start of each hook phase it asks the host for a snapshot
//! (a copy of the current list), so a hook that mutates the registry itself
//! cannot affect the in-flight iteration.

use core::marker::PhantomData;
use vstd::prelude::*;

verus! {

/// Ordered list of hook handles run before the marker mutates, for one machine
/// type. Append-only for the life of the process.
pub struct BeforeTransitionResource<TMachineType: Send> {
    pub _marker: PhantomData<TMachineType>,
    pub systems: Vec<u64>,
}

/// Ordered list of hook handles run after the marker mutates, for one machine
/// type. Append-only for the life of the process. Kept independent of the
/// before list: the two have no implied relationship.
pub struct AfterTransitionResource<TMachineType: Send> {
    pub _marker: PhantomData<TMachineType>,
    pub systems: Vec<u64>,
}

impl<TMachineType: Send> BeforeTransitionResource<TMachineType> {
    /// An empty registry: a host must register one per machine type it uses,
    /// even if it stays empty.
    pub fn new() -> (r: BeforeTransitionResource<TMachineType>)
        ensures
            r.systems@ == Seq::<u64>::empty(),
    {
        BeforeTransitionResource { _marker: PhantomData, systems: Vec::new() }
    }

    /// Appends a hook handle; hooks run in registration order.
    pub fn register(&mut self, hook_system_id: u64)
        ensures
            final(self).systems@ == old(self).systems@.push(hook_system_id),
            final(self)._marker == old(self)._marker,
    {
        self.systems.push(hook_system_id);
    }

    /// Copies the current list out, so that callers iterate a fixed sequence
    /// even if hooks mutate the registry meanwhile.
    pub fn snapshot(&self) -> (r: Vec<u64>)
        ensures
            r@ == self.systems@,
    {
        let r = self.systems.clone();
        proof {
            assert(r@ =~= self.systems@);
        }
        r
    }
}

impl<TMachineType: Send> AfterTransitionResource<TMachineType> {
    /// An empty registry: a host must register one per machine type it uses,
    /// even if it stays empty.
    pub fn new() -> (r: AfterTransitionResource<TMachineType>)
        ensures
            r.systems@ == Seq::<u64>::empty(),
    {
        AfterTransitionResource { _marker: PhantomData, systems: Vec::new() }
    }

    /// Appends a hook handle; hooks run in registration order.
    pub fn register(&mut self, hook_system_id: u64)
        ensures
            final(self).systems@ == old(self).systems@.push(hook_system_id),
            final(self)._marker == old(self)._marker,
    {
        self.systems.push(hook_system_id);
    }

    /// Copies the current list out, so that callers iterate a fixed sequence
    /// even if hooks mutate the registry meanwhile.
    pub fn snapshot(&self) -> (r: Vec<u64>)
        ensures
            r@ == self.systems@,
    {
        let r = self.systems.clone();
        proof {
            assert(r@ =~= self.systems@);
        }
        r
    }
}

} // verus!
