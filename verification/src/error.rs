//! The errors of patch application.

use vstd::prelude::*;

use crate::model::Value;

verus! {

/// The kinds of value a document can hold.
#[derive(Debug, Clone, Copy, PartialEq, Eq, Hash, Structural)]
pub enum AutomergeTypeKinds {
    Bytes,
    Str,
    Int,
    Uint,
    F64,
    Counter,
    Timestamp,
    Boolean,
    Unknown,
    Null,
    /// A map (named `Map` by automerge).
    Mapping,
    List,
    Text,
}

/// A change's path does not lead where the value being patched expects.
#[derive(Debug)]
pub enum PathMismatchError {
    /// The path ended above the value that was asked to handle it.
    EOP,
    /// The change addresses an object below this value, which has no such child.
    TooDeep { end_depth: usize },
    /// The step at `path_index` is of the wrong kind (an index where a key was expected).
    PropKindMismatch { path_index: usize },
    /// The step at `path_index` names no property this value has.
    PropMismatch { path_index: usize },
}

/// Why a patch could not be applied.
#[derive(Debug)]
#[allow(inconsistent_fields)]
pub enum PatchError {
    PathMismatch { inner: PathMismatchError },
    Leaf { inner: LeafApplyError },
    /// The action is not one this value can take.
    OpMismatch,
}

/// Why a leaf value could not be updated.
#[derive(Debug)]
pub enum LeafApplyError {
    /// The new value is not of the kind the leaf holds.
    ValueTypeMismatch { value: Value, expected_kind: AutomergeTypeKinds },
    /// The property was deleted, but the leaf cannot be absent.
    NotNullable,
}

impl From<PathMismatchError> for PatchError {
    fn from(inner: PathMismatchError) -> (r: PatchError) {
        PatchError::PathMismatch { inner }
    }
}

impl vstd::std_specs::convert::FromSpecImpl<PathMismatchError> for PatchError {
    open spec fn obeys_from_spec() -> bool {
        true
    }

    open spec fn from_spec(inner: PathMismatchError) -> PatchError {
        PatchError::PathMismatch { inner }
    }
}

impl From<LeafApplyError> for PatchError {
    fn from(inner: LeafApplyError) -> (r: PatchError) {
        PatchError::Leaf { inner }
    }
}

impl vstd::std_specs::convert::FromSpecImpl<LeafApplyError> for PatchError {
    open spec fn obeys_from_spec() -> bool {
        true
    }

    open spec fn from_spec(inner: LeafApplyError) -> PatchError {
        PatchError::Leaf { inner }
    }
}

} // verus!
