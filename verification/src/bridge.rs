//! The callback bridge, modelled as the side table it maintains: native
//! object identity (a stable instance address) mapped to the callback slot
//! registered on that instance. The unverified shell owns the closures
//! themselves, keyed by slot; the native runtime drives the three entry
//! points (register, fire, dealloc), and this table decides what each one
//! does.

use std::collections::HashMap;
use vstd::prelude::*;

verus! {

broadcast use vstd::std_specs::hash::group_hash_axioms;

/// The bookkeeping of the callback bridge: which callback slot, if any, is
/// registered on each live native instance. Registration stores the slot
/// under the instance; firing the designated action looks the slot up;
/// deallocation removes the entry and hands the slot back to be freed,
/// exactly once.
pub struct CallbackBridge {
    registered: HashMap<u64, u64>,
}

impl View for CallbackBridge {
    type V = Map<u64, u64>;

    closed spec fn view(&self) -> Map<u64, u64> {
        self.registered@
    }
}

impl CallbackBridge {
    /// A bridge with nothing registered.
    pub fn new() -> (r: Self)
        ensures
            r@ == Map::<u64, u64>::empty(),
    {
        CallbackBridge { registered: HashMap::new() }
    }

    /// Registers `slot` on `instance`. A second registration on a live
    /// instance overwrites the stored slot without freeing the previous
    /// one, as the native pattern does; `lemma_register_overwrites` states
    /// that side effect.
    pub fn register_callback(&mut self, instance: u64, slot: u64)
        ensures
            final(self)@ == old(self)@.insert(instance, slot),
    {
        self.registered.insert(instance, slot);
    }

    /// The slot to invoke when the native runtime delivers the designated
    /// action message to `instance`: exactly the registered slot, or
    /// nothing when no callback was ever registered there.
    pub fn fire_block_action(&self, instance: u64) -> (slot: Option<u64>)
        ensures
            slot == (if self@.contains_key(instance) {
                Some(self@[instance])
            } else {
                None::<u64>
            }),
    {
        match self.registered.get(&instance) {
            Some(s) => Some(*s),
            None => None,
        }
    }

    /// The teardown step when the native runtime deallocates `instance`:
    /// the entry is removed, and the slot to free is handed back. An
    /// instance that never had a callback registered frees nothing.
    pub fn dealloc_instance(&mut self, instance: u64) -> (freed: Option<u64>)
        ensures
            final(self)@ == old(self)@.remove(instance),
            freed == (if old(self)@.contains_key(instance) {
                Some(old(self)@[instance])
            } else {
                None::<u64>
            }),
    {
        self.registered.remove(&instance)
    }
}

/// Registering a slot and then firing the designated action on the same
/// instance invokes exactly that slot: each delivery of the message looks
/// up the one stored entry.
pub proof fn lemma_register_then_fire(m: Map<u64, u64>, instance: u64, slot: u64)
    ensures
        m.insert(instance, slot).contains_key(instance),
        m.insert(instance, slot)[instance] == slot,
{
}

/// Deallocation frees a registered slot at most once: once the entry is
/// removed, a later lookup or removal on the same instance finds nothing.
pub proof fn lemma_dealloc_frees_at_most_once(m: Map<u64, u64>, instance: u64)
    ensures
        !m.remove(instance).contains_key(instance),
{
}

/// Registering twice on the same live instance keeps only the second slot;
/// the first is overwritten without being handed back to be freed.
pub proof fn lemma_register_overwrites(m: Map<u64, u64>, instance: u64, first: u64, second: u64)
    ensures
        m.insert(instance, first).insert(instance, second)[instance] == second,
{
}

} // verus!
