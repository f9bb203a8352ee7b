//! A small nested document, `Baz { bar: Bar { foo: Foo { .. } } }`, whose
//! handlers show how values at different depths take a change: `Baz` and
//! `Bar` pass it down by key, `Foo` applies it to its own leaves.

use vstd::prelude::*;

use crate::error::{LeafApplyError, PatchError, PathMismatchError};
use crate::model::{ChangeProp, DocPatch, PatchAction};
use crate::patch::{
    is_patch_on_self, leaf_apply_option_from_value, option_leaf_applied, LeafApply, Patch,
};

verus! {

/// The innermost value: two required leaves and an optional one.
#[derive(Debug)]
pub struct Foo {
    pub string: String,
    pub integer: i64,
    pub maybe_string: Option<String>,
}

/// Holds a `Foo` under the key `foo`.
#[derive(Debug)]
pub struct Bar {
    pub foo: Foo,
}

/// Holds a `Bar` under the key `bar`.
#[derive(Debug)]
pub struct Baz {
    pub bar: Bar,
}

/// The error for a path that does not lead where expected.
pub open spec fn path_error(inner: PathMismatchError) -> Result<(), PatchError> {
    Err(PatchError::PathMismatch { inner })
}

/// The outcome of a leaf update, if `result` is one (success, or a leaf error).
pub open spec fn leaf_outcome(result: Result<(), PatchError>) -> Option<Result<(), LeafApplyError>> {
    match result {
        Ok(u) => Some(Ok(u)),
        Err(PatchError::Leaf { inner }) => Some(Err(inner)),
        _ => None,
    }
}

fn lift_leaf(r: Result<(), LeafApplyError>) -> (p: Result<(), PatchError>)
    ensures
        leaf_outcome(p) == Some(r),
{
    match r {
        Ok(u) => Ok(u),
        Err(inner) => Err(PatchError::Leaf { inner }),
    }
}

/// Whether two strings hold the same characters.
fn same_text(a: &str, b: &str) -> (r: bool)
    ensures
        r == (a@ == b@),
{
    let n = a.unicode_len();
    if n != b.unicode_len() {
        return false;
    }
    let mut i: usize = 0;
    while i < n
        invariant
            n == a@.len() == b@.len(),
            i <= n,
            forall|j: int| 0 <= j < i ==> a@[j] == b@[j],
        decreases n - i,
    {
        if a.get_char(i) != b.get_char(i) {
            return false;
        }
        i = i + 1;
    }
    assert(a@ =~= b@);
    true
}

impl Patch for Foo {
    /// `Foo` takes changes addressed to itself: puts to `string`, `integer`
    /// and `maybe_string`, and the deletion of `maybe_string`.
    open spec fn patched(
        old: Foo,
        self_path_index: usize,
        patch: DocPatch,
        new: Foo,
        result: Result<(), PatchError>,
    ) -> bool {
        let len = patch.path@.len();
        let unknown_key = path_error(PathMismatchError::PropMismatch { path_index: (self_path_index + 1) as usize });
        if self_path_index > len {
            new == old && result == path_error(PathMismatchError::EOP)
        } else if self_path_index < len {
            new == old && result == path_error(PathMismatchError::TooDeep { end_depth: self_path_index })
        } else {
            match patch.action {
                PatchAction::PutMap { key, value, conflict } => if key@ == "string"@ {
                    &&& new.integer == old.integer
                    &&& new.maybe_string == old.maybe_string
                    &&& leaf_outcome(result) matches Some(r)
                    &&& String::leaf_applied(old.string, value, conflict, new.string, r)
                } else if key@ == "integer"@ {
                    &&& new.string == old.string
                    &&& new.maybe_string == old.maybe_string
                    &&& leaf_outcome(result) matches Some(r)
                    &&& i64::leaf_applied(old.integer, value, conflict, new.integer, r)
                } else if key@ == "maybe_string"@ {
                    &&& new.string == old.string
                    &&& new.integer == old.integer
                    &&& leaf_outcome(result) matches Some(r)
                    &&& option_leaf_applied(old.maybe_string, value, conflict, new.maybe_string, r)
                } else {
                    new == old && result == unknown_key
                },
                PatchAction::DeleteMap { key } => if key@ == "maybe_string"@ {
                    &&& new.string == old.string
                    &&& new.integer == old.integer
                    &&& new.maybe_string is None
                    &&& result is Ok
                } else if key@ == "string"@ || key@ == "integer"@ {
                    new == old && result == Err::<(), PatchError>(PatchError::Leaf { inner: LeafApplyError::NotNullable })
                } else {
                    new == old && result == unknown_key
                },
                _ => new == old && result == Err::<(), PatchError>(PatchError::OpMismatch),
            }
        }
    }

    fn apply(&mut self, self_path_index: usize, patch: &DocPatch) -> (result: Result<(), PatchError>) {
        match is_patch_on_self(self_path_index, patch) {
            Err(inner) => Err(PatchError::PathMismatch { inner }),
            Ok(false) => Err(PatchError::PathMismatch {
                inner: PathMismatchError::TooDeep { end_depth: self_path_index },
            }),
            Ok(true) => match &patch.action {
                PatchAction::PutMap { key, value, conflict } => {
                    if same_text(key.as_str(), "string") {
                        lift_leaf(self.string.leaf_apply(value, *conflict))
                    } else if same_text(key.as_str(), "integer") {
                        lift_leaf(self.integer.leaf_apply(value, *conflict))
                    } else if same_text(key.as_str(), "maybe_string") {
                        lift_leaf(leaf_apply_option_from_value(&mut self.maybe_string, value, *conflict))
                    } else {
                        Err(PatchError::PathMismatch {
                            inner: PathMismatchError::PropMismatch { path_index: self_path_index + 1 },
                        })
                    }
                },
                PatchAction::DeleteMap { key } => {
                    if same_text(key.as_str(), "maybe_string") {
                        let _ = self.maybe_string.take();
                        Ok(())
                    } else if same_text(key.as_str(), "string") || same_text(key.as_str(), "integer") {
                        Err(PatchError::Leaf { inner: LeafApplyError::NotNullable })
                    } else {
                        Err(PatchError::PathMismatch {
                            inner: PathMismatchError::PropMismatch { path_index: self_path_index + 1 },
                        })
                    }
                },
                _ => Err(PatchError::OpMismatch),
            },
        }
    }
}

/// How a value that holds one child under the key `child` takes a change:
/// the change must lead on through `child`, which takes it one level deeper.
pub open spec fn passed_down<C: Patch>(
    child: Seq<char>,
    old: C,
    self_path_index: usize,
    patch: DocPatch,
    new: C,
    result: Result<(), PatchError>,
) -> bool {
    if self_path_index >= patch.path@.len() {
        new == old && result == path_error(PathMismatchError::EOP)
    } else {
        match patch.path@[self_path_index as int] {
            ChangeProp::Index(_) => new == old && result == path_error(
                PathMismatchError::PropKindMismatch { path_index: self_path_index },
            ),
            ChangeProp::Key(prop) => if prop@ == child {
                C::patched(old, (self_path_index + 1) as usize, patch, new, result)
            } else {
                new == old && result == path_error(
                    PathMismatchError::PropMismatch { path_index: (self_path_index + 1) as usize },
                )
            },
        }
    }
}

fn pass_down<C: Patch>(
    child_key: &str,
    child: &mut C,
    self_path_index: usize,
    patch: &DocPatch,
) -> (result: Result<(), PatchError>)
    requires
        patch.path@.len() < usize::MAX,
    ensures
        passed_down(child_key@, *old(child), self_path_index, *patch, *final(child), result),
{
    match is_patch_on_self(self_path_index, patch) {
        Err(inner) => Err(PatchError::PathMismatch { inner }),
        Ok(true) => Err(PatchError::PathMismatch { inner: PathMismatchError::EOP }),
        Ok(false) => match &patch.path[self_path_index] {
            ChangeProp::Index(_) => Err(PatchError::PathMismatch {
                inner: PathMismatchError::PropKindMismatch { path_index: self_path_index },
            }),
            ChangeProp::Key(prop) => {
                if same_text(prop.as_str(), child_key) {
                    child.apply(self_path_index + 1, patch)
                } else {
                    Err(PatchError::PathMismatch {
                        inner: PathMismatchError::PropMismatch { path_index: self_path_index + 1 },
                    })
                }
            },
        },
    }
}

impl Patch for Bar {
    /// `Bar` passes every change on to `foo`.
    open spec fn patched(
        old: Bar,
        self_path_index: usize,
        patch: DocPatch,
        new: Bar,
        result: Result<(), PatchError>,
    ) -> bool {
        passed_down("foo"@, old.foo, self_path_index, patch, new.foo, result)
    }

    fn apply(&mut self, self_path_index: usize, patch: &DocPatch) -> (result: Result<(), PatchError>) {
        pass_down("foo", &mut self.foo, self_path_index, patch)
    }
}

impl Patch for Baz {
    /// `Baz` passes every change on to `bar`.
    open spec fn patched(
        old: Baz,
        self_path_index: usize,
        patch: DocPatch,
        new: Baz,
        result: Result<(), PatchError>,
    ) -> bool {
        passed_down("bar"@, old.bar, self_path_index, patch, new.bar, result)
    }

    fn apply(&mut self, self_path_index: usize, patch: &DocPatch) -> (result: Result<(), PatchError>) {
        pass_down("bar", &mut self.bar, self_path_index, patch)
    }
}

} // verus!
