//! Behavior scheduling.
//!
//! Each entity may own at most one behavior object, implementing the three
//! lifecycle operations: `on_create` when the behavior is registered,
//! `on_update` once per frame, `on_delete` when the runtime shuts down.
//! The scheduler owns the behavior objects and invokes every registered one
//! once per frame, handing it mutable access to storage, the input state
//! and the elapsed seconds (a single-precision bit pattern).  Behaviors
//! must not assume any ordering between different entities within a frame.
//!
//! The lifecycle contracts ask only that a behavior leave the storage
//! registries well formed; what a behavior does with the scene is its own.

use vstd::prelude::*;

use crate::component_map::ComponentMap;
use crate::inputs::InputSystem;
use crate::storage::ComponentStorageManager;
use crate::storage::Index;

verus! {

/// An update callback the application may attach to an entity.  The runtime
/// stores these without invoking them.
pub trait SceneUpdate: Sized {
    fn update(&self, data: &mut ComponentStorageManager<Self>)
        requires
            old(data).wf(),
        ensures
            final(data).wf(),
    ;
}

/// A behavior: per-entity logic with the three lifecycle operations.
pub trait EntityState<U>: Sized {
    /// Invoked once, when the behavior is registered.
    fn on_create(&mut self, data: &mut ComponentStorageManager<U>)
        requires
            old(data).wf(),
        ensures
            final(data).wf(),
    ;

    /// Invoked once per frame with the entity's id, storage, the input
    /// snapshot and the elapsed seconds since the previous frame.
    fn on_update(
        &mut self,
        id: Index,
        data: &mut ComponentStorageManager<U>,
        input: &InputSystem,
        delta: u32,
    )
        requires
            old(data).wf(),
            input.wf(),
        ensures
            final(data).wf(),
    ;

    /// Invoked once, when the runtime shuts down.
    fn on_delete(&mut self, data: &mut ComponentStorageManager<U>)
        requires
            old(data).wf(),
        ensures
            final(data).wf(),
    ;
}

/// Owns one behavior object per entity and drives their per-frame updates.
pub struct StateSystem<B> {
    pub states_manager: ComponentMap<B>,
}

impl<B> StateSystem<B> {
    pub open spec fn wf(&self) -> bool {
        self.states_manager.wf()
    }

    pub fn new() -> (s: StateSystem<B>)
        ensures
            s.wf(),
            s.states_manager.spec_len() == 0,
            forall|id: Index| !s.states_manager.spec_contains(id),
    {
        StateSystem { states_manager: ComponentMap::new() }
    }

    /// Registers (or replaces) the behavior of an entity and invokes its
    /// `on_create`.
    pub fn set_entity_states<U>(
        &mut self,
        id: Index,
        states: B,
        data: &mut ComponentStorageManager<U>,
    ) where B: EntityState<U>
        requires
            old(self).wf(),
            old(data).wf(),
        ensures
            final(self).wf(),
            final(data).wf(),
            final(self).states_manager.spec_contains(id),
            forall|k2: Index|
                k2 != id ==> #[trigger] final(self).states_manager.spec_get(k2) == old(
                    self,
                ).states_manager.spec_get(k2),
            final(self).states_manager.spec_len() == old(self).states_manager.spec_len() + (
            if old(self).states_manager.spec_contains(id) {
                0int
            } else {
                1int
            }),
    {
        let mut states = states;
        states.on_create(data);
        self.states_manager.set(id, states);
    }

    /// Invokes `on_update` on every registered behavior, handing each the
    /// storage, the input state and the elapsed seconds.  The set of
    /// registered behaviors is unchanged; what the behaviors did to storage
    /// is theirs.
    pub fn run_update_state<U>(
        &mut self,
        data: &mut ComponentStorageManager<U>,
        input: &InputSystem,
        delta: u32,
    ) where B: EntityState<U>
        requires
            old(self).wf(),
            old(data).wf(),
            input.wf(),
        ensures
            final(self).wf(),
            final(data).wf(),
            final(self).states_manager.spec_len() == old(self).states_manager.spec_len(),
            forall|i: int|
                0 <= i < old(self).states_manager.spec_len() ==> (#[trigger] final(self).states_manager.key_at(i)) == old(self).states_manager.key_at(i),
            old(self).states_manager.spec_len() == 0 ==> *final(data) == *old(data) && *final(self) == *old(self),
    {
        let ghost keys0 = self.states_manager.entries_seq();
        let n = self.states_manager.len();
        if n == 0 {
            return ;
        }
        let mut i: usize = 0;
        while i < n
            invariant
                i <= n,
                self.wf(),
                data.wf(),
                input.wf(),
                n == self.states_manager.spec_len(),
                self.states_manager.spec_len() == keys0.len(),
                forall|j: int|
                    #![trigger self.states_manager.key_at(j)]
                    #![trigger keys0[j]]
                    0 <= j < keys0.len() ==> self.states_manager.key_at(j) == keys0[j].0,
            decreases n - i,
        {
            let id = self.states_manager.entry_at(i).0;
            let ghost prev = self.states_manager.entries_seq();
            let states = self.states_manager.value_at_mut(i);
            states.on_update(id, data, input, delta);
            proof {
                assert forall|j: int|
                    0 <= j < keys0.len() implies (#[trigger] self.states_manager.key_at(j))
                    == keys0[j].0 by {
                    if j == i as int {
                        assert(self.states_manager.entries_seq()[j].0 == prev[j].0);
                    } else {
                        assert(self.states_manager.entries_seq()[j] == prev[j]);
                    }
                }
            }
            i = i + 1;
        }
    }

    /// Invokes `on_delete` on every registered behavior, at shutdown.
    pub fn run_delete_state<U>(&mut self, data: &mut ComponentStorageManager<U>) where
        B: EntityState<U>

        requires
            old(self).wf(),
            old(data).wf(),
        ensures
            final(self).wf(),
            final(data).wf(),
            final(self).states_manager.spec_len() == old(self).states_manager.spec_len(),
            old(self).states_manager.spec_len() == 0 ==> *final(data) == *old(data) && *final(self) == *old(self),
    {
        let n = self.states_manager.len();
        if n == 0 {
            return ;
        }
        let mut i: usize = 0;
        while i < n
            invariant
                i <= n,
                self.wf(),
                data.wf(),
                n == self.states_manager.spec_len(),
            decreases n - i,
        {
            let states = self.states_manager.value_at_mut(i);
            states.on_delete(data);
            i = i + 1;
        }
    }
}

} // verus!
