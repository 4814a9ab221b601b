//! The state that an extension attaches to a host object.
//!
//! Every object of a user-declared class has one binding slot. The slot starts empty and
//! is filled once, when the handle layer constructs the object; from then on the user's
//! value is reached through it.

use vstd::prelude::*;

verus! {

/// The content of one binding slot: the user's value once it is there.
pub struct InstanceStorage<T> {
    user_instance: Option<T>,
}

impl<T> View for InstanceStorage<T> {
    type V = Option<T>;

    closed spec fn view(&self) -> Option<T> {
        self.user_instance
    }
}

impl<T> InstanceStorage<T> {
    /// An empty slot.
    pub fn new() -> (storage: InstanceStorage<T>)
        ensures
            storage@ == None::<T>,
    {
        InstanceStorage { user_instance: None }
    }

    /// Whether the user's value is there.
    pub fn is_initialized(&self) -> (initialized: bool)
        ensures
            initialized == (self@ is Some),
    {
        self.user_instance.is_some()
    }

    /// Puts the user's value into the slot. A slot is filled once.
    pub fn initialize(&mut self, value: T)
        requires
            old(self)@ is None,
        ensures
            final(self)@ == Some(value),
    {
        self.user_instance = Some(value);
    }

    /// Fills the slot with a value that `T::default()` hands out.
    pub fn initialize_default(&mut self) where T: Default
        requires
            old(self)@ is None,
        ensures
            final(self)@ matches Some(value) && call_ensures(T::default, (), value),
    {
        self.initialize(T::default());
    }

    /// The user's value.
    pub fn get(&self) -> (value: &T)
        requires
            self@ is Some,
        ensures
            Some(*value) == self@,
    {
        match &self.user_instance {
            Some(value) => value,
            None => vstd::pervasive::unreached(),
        }
    }

    /// The user's value, for writing. The slot holds whatever the caller leaves there.
    pub fn get_mut(&mut self) -> (value: &mut T)
        requires
            old(self)@ is Some,
        ensures
            Some(*value) == old(self)@,
            final(self)@ == Some(*final(value)),
    {
        match &mut self.user_instance {
            Some(value) => value,
            None => vstd::pervasive::unreached(),
        }
    }
}

} // verus!
