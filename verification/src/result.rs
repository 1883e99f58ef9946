use vstd::prelude::*;

verus! {

/// Relies on `format!` over `core::fmt::Display` and on `Option::expect`:
/// aborts the calling context with the message
/// "called `Result::unwrap()` on an error: " followed by the error's
/// display rendering. It never returns, and is reached only from match arms
/// that the callers' `requires` rule out.
#[verifier::external_body]
fn abort_unwrap_display<T, E: core::fmt::Display>(e: E) -> T {
    let message = format!("called `Result::unwrap()` on an error: {e}");
    let missing: Option<T> = None;
    missing.expect(&message)
}

/// Relies on `format!` over `core::fmt::Display` and on `Option::expect`:
/// aborts the calling context with the given message, ": ", and the error's
/// display rendering. It never returns, and is reached only from match arms
/// that the callers' `requires` rule out.
#[verifier::external_body]
fn abort_expect_display<T, E: core::fmt::Display>(msg: &str, e: E) -> T {
    let message = format!("{msg}: {e}");
    let missing: Option<T> = None;
    missing.expect(&message)
}

/// Extensions for `Result<T, E>`.
pub trait ResultExt<T, E>: Sized {
    /// The outcome this extension is attached to, as seen by contracts.
    spec fn outcome_view(self) -> Result<T, E>;

    /// Same as `Result::unwrap()`, but renders the error with
    /// `core::fmt::Display` instead of `core::fmt::Debug`.
    ///
    /// Returns the contained `Ok` value, consuming the `self` value. On an
    /// `Err` value it aborts the calling context with the message
    /// "called `Result::unwrap()` on an error: " followed by the error's
    /// display rendering; such inputs are excluded here, so callers who
    /// cannot rule the error out must match on the outcome themselves.
    fn unwrap_display(self) -> (r: T) where E: core::fmt::Display
        requires
            self.outcome_view() is Ok,
        ensures
            self.outcome_view() matches Ok(t) && r == t,
    ;

    /// Same as `Result::expect()`, but renders the error with
    /// `core::fmt::Display` instead of `core::fmt::Debug`.
    ///
    /// Returns the contained `Ok` value, consuming the `self` value. On an
    /// `Err` value it aborts the calling context with the given message,
    /// ": ", and the error's display rendering; such inputs are excluded
    /// here, so callers who cannot rule the error out must match on the
    /// outcome themselves.
    fn expect_display(self, msg: &str) -> (r: T) where E: core::fmt::Display
        requires
            self.outcome_view() is Ok,
        ensures
            self.outcome_view() matches Ok(t) && r == t,
    ;
}

impl<T, E> ResultExt<T, E> for Result<T, E> {
    open spec fn outcome_view(self) -> Result<T, E> {
        self
    }

    fn unwrap_display(self) -> (r: T) where E: core::fmt::Display
        ensures
            self matches Ok(t) && r == t,
    {
        match self {
            Ok(t) => t,
            Err(e) => abort_unwrap_display(e),
        }
    }

    fn expect_display(self, msg: &str) -> (r: T) where E: core::fmt::Display
        ensures
            self matches Ok(t) && r == t,
    {
        match self {
            Ok(t) => t,
            Err(e) => abort_expect_display(msg, e),
        }
    }
}

} // verus!
