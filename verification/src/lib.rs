//! Applying observed changes of an automerge document to ordinary Rust values.
//!
//! A change arrives as a [`DocPatch`]: the path from the document root to the
//! changed object, and the action that was taken there. Types that mirror a
//! part of the document implement [`Patch`] (for composite values) or
//! [`LeafApply`] (for scalar leaves) and update themselves from it.

pub mod error;
pub mod example;
pub mod laws;
pub mod model;
pub mod patch;
pub mod path;

pub use error::{AutomergeTypeKinds, LeafApplyError, PatchError, PathMismatchError};
pub use model::{ChangeProp, DocPatch, ObjType, PatchAction, ScalarValue, Value};
pub use patch::{
    assert_patch_on_self, is_patch_on_self, leaf_apply_option_default, leaf_apply_option_from_value,
    FromValue, LeafApply, Patch,
};
pub use example::{Bar, Baz, Foo};
pub use path::{path_matches, prop_matches, Prop};
