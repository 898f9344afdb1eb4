//! A tri-state heuristic cell: either a filter's active payload, or a mark
//! that the surrounding configuration statically proves the filter can never
//! fire, so no work need ever be done for it.

use vstd::prelude::*;

verus! {

/// A value that a filter computed only when relevant.
///
/// `Used(v)` holds the active payload `v`; `Unused` means the heuristic is
/// statically inapplicable here.  Reading the payload of an `Unused` cell is
/// a construction-time defect, so the strict accessors demand `Used`.
#[derive(Debug, Clone, Copy)]
pub enum Heuristic<T> {
    /// The heuristic applies, with its payload.
    Used(T),
    /// The heuristic can never fire under the current configuration.
    Unused,
}

impl<T> Heuristic<T> {
    /// True if this cell holds an active payload.
    pub open spec fn is_used(&self) -> bool {
        matches!(self, Heuristic::Used(_))
    }

    /// The payload of a `Used` cell.
    pub open spec fn spec_value(&self) -> T
        recommends
            self.is_used(),
    {
        self->Used_0
    }

    /// Borrow the payload if the heuristic applies, `None` otherwise.
    pub fn try_get(&self) -> (r: Option<&T>)
        ensures
            self.is_used() <==> r is Some,
            r is Some ==> *r->Some_0 == self.spec_value(),
    {
        match self {
            Heuristic::Used(v) => Some(v),
            Heuristic::Unused => None,
        }
    }

    /// Borrow the payload of a heuristic known to apply.
    pub fn get(&self) -> (r: &T)
        requires
            self.is_used(),
        ensures
            *r == self.spec_value(),
    {
        match self {
            Heuristic::Used(v) => v,
            Heuristic::Unused => unreached(),
        }
    }

    /// Mutably borrow the payload of a heuristic known to apply.
    pub fn get_mut(&mut self) -> (r: &mut T)
        requires
            old(self).is_used(),
        ensures
            *r == old(self).spec_value(),
            *final(self) == Heuristic::Used(*final(r)),
    {
        match self {
            Heuristic::Used(v) => v,
            Heuristic::Unused => unreached(),
        }
    }

    /// Take the payload of a heuristic known to apply.
    pub fn into_inner(self) -> (r: T)
        requires
            self.is_used(),
        ensures
            r == self.spec_value(),
    {
        match self {
            Heuristic::Used(v) => v,
            Heuristic::Unused => unreached(),
        }
    }
}

} // verus!
