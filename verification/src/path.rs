use std::path::PathBuf;
use vstd::prelude::*;

verus! {

#[verifier::external_type_specification]
#[verifier::external_body]
pub struct ExPathBuf(PathBuf);

/// Whether `joined` is the path buffer that platform-native joining of the
/// segment `seg` onto `base` yields. Path joining depends on the platform's
/// separator and prefix rules, so no stronger statement is made here.
pub uninterp spec fn joins_to(base: PathBuf, seg: Seq<char>, joined: PathBuf) -> bool;

/// Relies on `std::path::PathBuf::push`: extends the path with `seg` under
/// platform-native join semantics (a separator is inserted when needed, and
/// an absolute segment replaces the path).
#[verifier::external_body]
fn push_segment(p: &mut PathBuf, seg: &str)
    ensures
        joins_to(*old(p), seg@, *final(p)),
{
    p.push(seg);
}

/// Extensions for `PathBuf`.
pub trait PathBufExt: Sized {
    /// Whether `joined` is this buffer extended with the segment `seg` by a
    /// platform-native join, as seen by contracts.
    spec fn spec_joins_to(self, seg: Seq<char>, joined: Self) -> bool;

    /// Join `seg` to self and return self, so it can be chained. The result
    /// is exactly what a platform-native join of `seg` onto self produces.
    #[must_use]
    fn with(self, seg: &str) -> (r: Self)
        ensures
            self.spec_joins_to(seg@, r),
    ;
}

impl PathBufExt for PathBuf {
    open spec fn spec_joins_to(self, seg: Seq<char>, joined: PathBuf) -> bool {
        joins_to(self, seg, joined)
    }

    fn with(self, seg: &str) -> (r: PathBuf)
        ensures
            joins_to(self, seg@, r),
    {
        let mut joined = self;
        push_segment(&mut joined, seg);
        joined
    }
}

} // verus!
