use vstd::prelude::*;

verus! {

/// Extensions for `Vec<T>`.
pub trait VecExt<T> {
    /// The elements of the array, as seen by contracts.
    spec fn elements(&self) -> Seq<T>;

    /// Fallible version of `Vec::remove`: when `idx` is in bounds, removes
    /// and returns the element at `idx`, shifting every later element one
    /// position toward the front; otherwise leaves the array unchanged and
    /// returns `None`.
    fn try_remove(&mut self, idx: usize) -> (r: Option<T>)
        ensures
            idx < old(self).elements().len() ==> {
                &&& r == Some(old(self).elements()[idx as int])
                &&& final(self).elements() == old(self).elements().remove(idx as int)
            },
            idx >= old(self).elements().len() ==> {
                &&& r is None
                &&& final(self).elements() == old(self).elements()
            },
    ;

    /// Fallible version of `Vec::swap_remove`: when `idx` is in bounds,
    /// removes and returns the element at `idx`, moving the last element
    /// into its place (the order of the rest is not preserved); otherwise
    /// leaves the array unchanged and returns `None`.
    fn try_swap_remove(&mut self, idx: usize) -> (r: Option<T>)
        ensures
            idx < old(self).elements().len() ==> {
                &&& r == Some(old(self).elements()[idx as int])
                &&& final(self).elements() == old(self).elements().update(
                    idx as int,
                    old(self).elements().last(),
                ).drop_last()
            },
            idx >= old(self).elements().len() ==> {
                &&& r is None
                &&& final(self).elements() == old(self).elements()
            },
    ;
}

impl<T> VecExt<T> for Vec<T> {
    open spec fn elements(&self) -> Seq<T> {
        self@
    }

    fn try_remove(&mut self, idx: usize) -> (r: Option<T>)
        ensures
            idx < old(self)@.len() ==> {
                &&& r == Some(old(self)@[idx as int])
                &&& final(self)@ == old(self)@.remove(idx as int)
            },
            idx >= old(self)@.len() ==> r is None && final(self)@ == old(self)@,
    {
        if idx < self.len() {
            Some(self.remove(idx))
        } else {
            None
        }
    }

    fn try_swap_remove(&mut self, idx: usize) -> (r: Option<T>)
        ensures
            idx < old(self)@.len() ==> {
                &&& r == Some(old(self)@[idx as int])
                &&& final(self)@ == old(self)@.update(idx as int, old(self)@.last()).drop_last()
            },
            idx >= old(self)@.len() ==> r is None && final(self)@ == old(self)@,
    {
        if idx < self.len() {
            Some(self.swap_remove(idx))
        } else {
            None
        }
    }
}

} // verus!
