//! The bound on requests queued for the manager.

use vstd::prelude::*;

verus! {

/// How many requests may wait for the manager: a positive number.
#[derive(Clone, Copy, Debug, PartialEq, Eq, Structural)]
pub struct ManagerControlCapacity {
    value: usize,
}

/// The capacity used unless configured.
pub const DEFAULT_MANAGER_CONTROL_CAPACITY: usize = 128;

impl ManagerControlCapacity {
    pub closed spec fn capacity(self) -> usize {
        self.value
    }

    #[verifier::type_invariant]
    closed spec fn positive(self) -> bool {
        self.value > 0
    }

    /// The capacity of `value` requests; `None` for zero.
    pub fn new(value: usize) -> (r: Option<Self>)
        ensures
            value == 0 <==> r is None,
            r matches Some(c) ==> c.capacity() == value,
    {
        if value == 0 {
            return None;
        }
        Some(ManagerControlCapacity { value })
    }

    /// The default capacity.
    pub fn default_capacity() -> (r: Self)
        ensures
            r.capacity() == DEFAULT_MANAGER_CONTROL_CAPACITY,
    {
        ManagerControlCapacity { value: DEFAULT_MANAGER_CONTROL_CAPACITY }
    }

    pub fn get(self) -> (r: usize)
        ensures
            r == self.capacity(),
            r > 0,
    {
        proof {
            use_type_invariant(self);
        }
        self.value
    }
}

} // verus!
