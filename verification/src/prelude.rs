//! Re-exports for stuff that can be safely glob-imported.

pub use crate::option::OptionExt;
pub use crate::path::PathBufExt;
pub use crate::primitive::BoolExt;
pub use crate::result::ResultExt;
pub use crate::vec::VecExt;
