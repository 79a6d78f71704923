//! The notification registry: one pending wake-up slot per target address.
use vstd::prelude::*;
use crate::codec::Ipv4;
use std::collections::HashMap;

verus! {

broadcast use vstd::std_specs::hash::group_hash_axioms;

/// Maps each target address that a caller waits on to the slot that wakes it.
/// The slot carries no payload: once woken, the caller reads the cache.
pub struct NotificationRegistry<S> {
    slots: HashMap<Ipv4, S>,
}

impl<S> NotificationRegistry<S> {
    /// The registered slots by target address.
    pub closed spec fn view(&self) -> Map<Ipv4, S> {
        self.slots@
    }

    /// A registry with no slot.
    pub fn new() -> (r: Self)
        ensures
            r@ == Map::<Ipv4, S>::empty(),
    {
        NotificationRegistry { slots: HashMap::new() }
    }

    /// Registers the slot for `ip`, in place of any slot registered before.
    pub fn register(&mut self, ip: Ipv4, slot: S)
        ensures
            final(self)@ == old(self)@.insert(ip, slot),
    {
        self.slots.insert(ip, slot);
    }

    /// Removes and returns the slot registered for `ip`, if there is one.
    pub fn notify(&mut self, ip: Ipv4) -> (r: Option<S>)
        ensures
            final(self)@ == old(self)@.remove(ip),
            r == (if old(self)@.contains_key(ip) {
                Some(old(self)@[ip])
            } else {
                None
            }),
    {
        self.slots.remove(&ip)
    }

    /// Whether a slot is registered for `ip`.
    pub fn is_registered(&self, ip: Ipv4) -> (r: bool)
        ensures
            r == self@.contains_key(ip),
    {
        self.slots.contains_key(&ip)
    }
}

} // verus!
