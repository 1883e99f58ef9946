use vstd::prelude::*;

verus! {

/// Extensions for `Option<T>`.
pub trait OptionExt<T>: Sized {
    /// The optional value this extension is attached to, as seen by contracts.
    spec fn optional_view(self) -> Option<T>;

    /// Returns `true` if the option is a `None` or the value inside of it
    /// matches a predicate. The predicate is invoked at most once.
    fn is_none_or<F: FnOnce(T) -> bool>(self, f: F) -> (r: bool)
        requires
            self.optional_view() matches Some(x) ==> f.requires((x,)),
        ensures
            self.optional_view() is None ==> r,
            self.optional_view() matches Some(x) ==> f.ensures((x,), r),
    ;
}

impl<T> OptionExt<T> for Option<T> {
    open spec fn optional_view(self) -> Option<T> {
        self
    }

    fn is_none_or<F: FnOnce(T) -> bool>(self, f: F) -> bool {
        match self {
            None => true,
            Some(x) => f(x),
        }
    }
}

} // verus!
