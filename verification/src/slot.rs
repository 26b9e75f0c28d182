use vstd::prelude::*;

use crate::error::{Resource, SecurityError};

verus! {

/// A native value that the bindings hand out until it is consumed.
pub struct Slot<T> {
    resource: Resource,
    value: Option<T>,
}

impl<T> Slot<T> {
    /// The value still held, if any.
    pub closed spec fn held(&self) -> Option<T> {
        self.value
    }

    /// The kind of resource the slot holds.
    pub closed spec fn kind(&self) -> Resource {
        self.resource
    }

    /// A slot holding `value`.
    pub fn new(resource: Resource, value: T) -> (slot: Self)
        ensures
            slot.kind() == resource,
            slot.held() == Some(value),
    {
        Slot { resource, value: Some(value) }
    }

    /// Whether the value was consumed.
    pub fn is_spent(&self) -> (spent: bool)
        ensures
            spent == (self.held() is None),
    {
        self.value.is_none()
    }

    /// The held value, or the error reported for a spent resource.
    pub fn get(&self) -> (result: Result<&T, SecurityError>)
        ensures
            match self.held() {
                Some(v) => result is Ok && *result->Ok_0 == v,
                None => result matches Err(e) && e == SecurityError::Spent(self.kind()),
            },
    {
        match &self.value {
            Some(value) => Ok(value),
            None => Err(SecurityError::Spent(self.resource)),
        }
    }

    /// The held value for changing it in place, or the error reported for a
    /// spent resource.
    pub fn get_mut(&mut self) -> (result: Result<&mut T, SecurityError>)
        ensures
            final(self).kind() == old(self).kind(),
            match old(self).held() {
                Some(v) => result is Ok && *result->Ok_0 == v
                    && final(self).held() == Some(*final(result->Ok_0)),
                None => (result matches Err(e) && e == SecurityError::Spent(old(self).kind()))
                    && final(self).held() is None,
            },
    {
        let resource = self.resource;
        match self.value.as_mut() {
            Some(value) => Ok(value),
            None => Err(SecurityError::Spent(resource)),
        }
    }

    /// Takes the value out; the slot is spent afterwards.
    pub fn take(&mut self) -> (result: Result<T, SecurityError>)
        ensures
            final(self).kind() == old(self).kind(),
            result == slot_take(old(self).kind(), old(self).held()).1,
            final(self).held() == slot_take(old(self).kind(), old(self).held()).0,
    {
        match self.value.take() {
            Some(value) => Ok(value),
            None => Err(SecurityError::Spent(self.resource)),
        }
    }

    /// Releases the value if it is still held; nothing happens otherwise.
    pub fn release(&mut self) -> (released: Option<T>)
        ensures
            final(self).kind() == old(self).kind(),
            released == old(self).held(),
            final(self).held() is None,
    {
        self.value.take()
    }
}

/// The state after taking from a slot, and what the take gives.
pub open spec fn slot_take<T>(resource: Resource, held: Option<T>) -> (Option<T>, Result<T, SecurityError>) {
    match held {
        Some(v) => (None, Ok(v)),
        None => (None, Err(SecurityError::Spent(resource))),
    }
}

} // verus!

verus! {

/// A slot gives up its value once: taking gives the held value, and a
/// second take on the state the first one left reports the resource as spent
/// and leaves the slot spent.
pub proof fn law_taken_once<T>(resource: Resource, held: Option<T>)
    ensures
        held matches Some(v) ==> slot_take(resource, held).1 == Ok::<T, SecurityError>(v),
        slot_take(resource, held).0 is None,
        slot_take(resource, slot_take(resource, held).0).1
            == Err::<T, SecurityError>(SecurityError::Spent(resource)),
        slot_take(resource, slot_take(resource, held).0).0 is None,
{
}

} // verus!
