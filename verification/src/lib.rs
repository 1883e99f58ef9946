//! Small conveniences that sit beside the standard library: logical
//! implication on booleans, an absent-or-satisfies test on optional values,
//! display-formatted unwrapping of results, bounds-checked removal from
//! vectors, and chainable appending of path segments.

mod option;
mod path;
pub mod prelude;
mod primitive;
mod result;
mod vec;

pub use crate::option::OptionExt;
pub use crate::path::joins_to;
pub use crate::path::PathBufExt;
pub use crate::primitive::lemma_implication_forms;
pub use crate::primitive::spec_implied_by;
pub use crate::primitive::spec_implies;
pub use crate::primitive::BoolExt;
pub use crate::result::ResultExt;
pub use crate::vec::VecExt;
