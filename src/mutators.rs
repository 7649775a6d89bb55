//! An ordered, duplicate-free set of parameters, one slot per kind.
use vstd::prelude::*;

use crate::error::Error;

verus! {

/// A parameter kind's place in the fixed order in which parameters apply.
pub trait Ranked: Sized {
    /// How many kinds there are.
    spec fn kinds() -> nat;

    /// This parameter's kind, which is also its rank.
    spec fn spec_rank(&self) -> nat;

    fn kind_count() -> (r: usize)
        ensures
            r as nat == Self::kinds(),
    ;

    fn rank(&self) -> (r: usize)
        ensures
            r as nat == self.spec_rank(),
            (r as nat) < Self::kinds(),
    ;
}

/// Parameters keyed by kind: at most one of each, kept in rank order.
#[derive(Debug)]
pub struct Mutators<T> {
    pub slots: Vec<Option<T>>,
}

impl<T: Ranked> Mutators<T> {
    /// One slot per kind, and each parameter in the slot of its own rank.
    pub open spec fn wf(&self) -> bool {
        &&& self.slots@.len() == T::kinds()
        &&& forall|i: int|
            0 <= i < self.slots@.len() && (#[trigger] self.slots@[i]) is Some ==> self.slots@[i]->0.spec_rank()
                == i
    }

    /// The empty set.
    pub fn new() -> (r: Self)
        ensures
            r.wf(),
            forall|i: int| 0 <= i < r.slots@.len() ==> (#[trigger] r.slots@[i]) is None,
    {
        let n = T::kind_count();
        let mut slots: Vec<Option<T>> = Vec::new();
        let mut i: usize = 0;
        while i < n
            invariant
                i <= n,
                n as nat == T::kinds(),
                slots@.len() == i,
                forall|j: int| 0 <= j < i ==> (#[trigger] slots@[j]) is None,
            decreases n - i,
        {
            slots.push(None);
            i = i + 1;
        }
        Mutators { slots }
    }

    /// Adds `item`, unless a parameter of its kind is there already: then the
    /// set stays as it was and the result is `DuplicateParameter`.
    pub fn insert_unique(&mut self, item: T) -> (r: Result<(), Error>)
        requires
            old(self).wf(),
        ensures
            final(self).wf(),
            old(self).slots@[item.spec_rank() as int] is Some ==> r == Err::<(), Error>(
                Error::DuplicateParameter,
            ) && final(self).slots@ == old(self).slots@,
            old(self).slots@[item.spec_rank() as int] is None ==> r is Ok && final(self).slots@
                == old(self).slots@.update(item.spec_rank() as int, Some(item)),
    {
        let k = item.rank();
        let taken = match &self.slots[k] {
            Some(_) => true,
            None => false,
        };
        if taken {
            return Err(Error::DuplicateParameter);
        }
        self.slots.set(k, Some(item));
        Ok(())
    }
}

} // verus!
