//! Applying a change to the value that mirrors the part of the document it addresses.
//!
//! A value at depth `self_path_index` below the root is handed the whole
//! change. If the change's path ends at that depth the change is the value's
//! own to apply; if the path goes on, `path[self_path_index]` names the child
//! to hand the change to, at depth `self_path_index + 1`.

use vstd::prelude::*;

use crate::error::{AutomergeTypeKinds, LeafApplyError, PatchError, PathMismatchError};
use crate::model::{DocPatch, ScalarValue, Value};

verus! {

/// Whether a change addresses the value at depth `self_path_index` itself,
/// for a change whose path has `path_len` steps.
pub open spec fn patch_on_self_spec(self_path_index: usize, path_len: int) -> Result<bool, PathMismatchError> {
    if self_path_index > path_len {
        Err(PathMismatchError::EOP)
    } else {
        Ok(self_path_index == path_len)
    }
}

/// The outcome of asserting that a change addresses the value at depth `self_path_index`.
pub open spec fn assert_on_self_spec(self_path_index: usize, path_len: int) -> Result<(), PathMismatchError> {
    if self_path_index > path_len {
        Err(PathMismatchError::EOP)
    } else if self_path_index == path_len {
        Ok(())
    } else {
        Err(PathMismatchError::TooDeep { end_depth: self_path_index })
    }
}

/// Whether `patch` addresses the value at depth `self_path_index` itself.
///
/// The path does not include the root, so the addressed object sits at depth
/// `patch.path.len()`; a depth beyond that means the path ended too early.
pub fn is_patch_on_self(self_path_index: usize, patch: &DocPatch) -> (r: Result<bool, PathMismatchError>)
    ensures
        r == patch_on_self_spec(self_path_index, patch.path@.len() as int),
{
    if self_path_index > patch.path.len() {
        Err(PathMismatchError::EOP)
    } else {
        Ok(patch.path.len() == self_path_index)
    }
}

/// Succeeds exactly when `patch` addresses the value at depth `self_path_index` itself.
pub fn assert_patch_on_self(self_path_index: usize, patch: &DocPatch) -> (r: Result<(), PathMismatchError>)
    ensures
        r == assert_on_self_spec(self_path_index, patch.path@.len() as int),
{
    match is_patch_on_self(self_path_index, patch) {
        Err(e) => Err(e),
        Ok(true) => Ok(()),
        Ok(false) => Err(PathMismatchError::TooDeep { end_depth: self_path_index }),
    }
}

/// A value that mirrors a composite part of the document and follows its changes.
pub trait Patch: Sized {
    /// Whether applying `patch` at depth `self_path_index` to `old` may leave
    /// `new` behind and return `result`. An implementation that does not
    /// define it promises nothing.
    open spec fn patched(
        old: Self,
        self_path_index: usize,
        patch: DocPatch,
        new: Self,
        result: Result<(), PatchError>,
    ) -> bool {
        true
    }

    /// Applies `patch`, which has been followed from the root down to this
    /// value at depth `self_path_index`.
    ///
    /// A path of `usize::MAX` steps cannot be allocated, so the path is shorter.
    fn apply(&mut self, self_path_index: usize, patch: &DocPatch) -> (result: Result<(), PatchError>)
        requires
            patch.path@.len() < usize::MAX,
        ensures
            Self::patched(*old(self), self_path_index, *patch, *final(self), result),
    ;
}

/// A value that mirrors a scalar leaf of the document.
pub trait LeafApply: Sized {
    /// Whether setting the leaf `old` to `value` may leave `new` behind and
    /// return `result`. An implementation that does not define it promises nothing.
    open spec fn leaf_applied(
        old: Self,
        value: Value,
        has_conflict: bool,
        new: Self,
        result: Result<(), LeafApplyError>,
    ) -> bool {
        true
    }

    /// Sets this leaf to `value`; `has_conflict` tells whether other values
    /// compete for the same property.
    fn leaf_apply(&mut self, value: &Value, has_conflict: bool) -> (result: Result<(), LeafApplyError>)
        ensures
            Self::leaf_applied(*old(self), *value, has_conflict, *final(self), result),
    ;
}

/// A leaf type that can be built from a document value.
pub trait FromValue: Sized {
    /// Whether building a leaf from `value` may return `result`. An
    /// implementation that does not define it promises nothing.
    open spec fn from_value_gives(value: Value, has_conflict: bool, result: Result<Self, LeafApplyError>) -> bool {
        true
    }

    fn from_value(value: &Value, has_conflict: bool) -> (result: Result<Self, LeafApplyError>)
        ensures
            Self::from_value_gives(*value, has_conflict, result),
    ;
}

/// `result` reports that `value` is not of the kind `kind`.
pub open spec fn is_type_mismatch<T>(
    result: Result<T, LeafApplyError>,
    value: Value,
    kind: AutomergeTypeKinds,
) -> bool {
    &&& result matches Err(LeafApplyError::ValueTypeMismatch { value: v, expected_kind })
    &&& v.same_as(value)
    &&& expected_kind == kind
}

fn type_mismatch<T>(value: &Value, kind: AutomergeTypeKinds) -> (r: Result<T, LeafApplyError>)
    ensures
        is_type_mismatch(r, *value, kind),
{
    Err(LeafApplyError::ValueTypeMismatch { value: value.to_owned(), expected_kind: kind })
}

impl LeafApply for String {
    /// A string leaf takes string scalars and refuses everything else, unchanged.
    open spec fn leaf_applied(
        old: String,
        value: Value,
        has_conflict: bool,
        new: String,
        result: Result<(), LeafApplyError>,
    ) -> bool {
        match value {
            Value::Scalar(ScalarValue::Str(s)) => new == s && result is Ok,
            _ => new == old && is_type_mismatch(result, value, AutomergeTypeKinds::Str),
        }
    }

    fn leaf_apply(&mut self, value: &Value, _has_conflict: bool) -> (result: Result<(), LeafApplyError>) {
        match value {
            Value::Scalar(ScalarValue::Str(s)) => {
                *self = s.clone();
                Ok(())
            },
            _ => type_mismatch(value, AutomergeTypeKinds::Str),
        }
    }
}

impl LeafApply for i64 {
    /// An integer leaf takes signed integer scalars and refuses everything else,
    /// unchanged.
    open spec fn leaf_applied(
        old: i64,
        value: Value,
        has_conflict: bool,
        new: i64,
        result: Result<(), LeafApplyError>,
    ) -> bool {
        match value {
            Value::Scalar(ScalarValue::Int(i)) => new == i && result is Ok,
            _ => new == old && is_type_mismatch(result, value, AutomergeTypeKinds::Int),
        }
    }

    fn leaf_apply(&mut self, value: &Value, _has_conflict: bool) -> (result: Result<(), LeafApplyError>) {
        match value {
            Value::Scalar(ScalarValue::Int(i)) => {
                *self = *i;
                Ok(())
            },
            _ => type_mismatch(value, AutomergeTypeKinds::Int),
        }
    }
}

impl FromValue for String {
    open spec fn from_value_gives(
        value: Value,
        has_conflict: bool,
        result: Result<String, LeafApplyError>,
    ) -> bool {
        match value {
            Value::Scalar(ScalarValue::Str(s)) => result == Ok::<String, LeafApplyError>(s),
            _ => is_type_mismatch(result, value, AutomergeTypeKinds::Str),
        }
    }

    fn from_value(value: &Value, _has_conflict: bool) -> (result: Result<String, LeafApplyError>) {
        match value {
            Value::Scalar(ScalarValue::Str(s)) => Ok(s.clone()),
            _ => type_mismatch(value, AutomergeTypeKinds::Str),
        }
    }
}

impl FromValue for i64 {
    open spec fn from_value_gives(
        value: Value,
        has_conflict: bool,
        result: Result<i64, LeafApplyError>,
    ) -> bool {
        match value {
            Value::Scalar(ScalarValue::Int(i)) => result == Ok::<i64, LeafApplyError>(i),
            _ => is_type_mismatch(result, value, AutomergeTypeKinds::Int),
        }
    }

    fn from_value(value: &Value, _has_conflict: bool) -> (result: Result<i64, LeafApplyError>) {
        match value {
            Value::Scalar(ScalarValue::Int(i)) => Ok(*i),
            _ => type_mismatch(value, AutomergeTypeKinds::Int),
        }
    }
}

impl<T: Patch> Patch for Box<T> {
    open spec fn patched(
        old: Box<T>,
        self_path_index: usize,
        patch: DocPatch,
        new: Box<T>,
        result: Result<(), PatchError>,
    ) -> bool {
        T::patched(*old, self_path_index, patch, *new, result)
    }

    fn apply(&mut self, self_path_index: usize, patch: &DocPatch) -> (result: Result<(), PatchError>) {
        T::apply(&mut **self, self_path_index, patch)
    }
}

impl<T: LeafApply> LeafApply for Box<T> {
    open spec fn leaf_applied(
        old: Box<T>,
        value: Value,
        has_conflict: bool,
        new: Box<T>,
        result: Result<(), LeafApplyError>,
    ) -> bool {
        T::leaf_applied(*old, value, has_conflict, *new, result)
    }

    fn leaf_apply(&mut self, value: &Value, has_conflict: bool) -> (result: Result<(), LeafApplyError>) {
        T::leaf_apply(&mut **self, value, has_conflict)
    }
}

impl<T: Patch + Default> Patch for Option<T> {
    /// A present value takes the change itself. An absent one starts from
    /// `T::default()` and becomes present only if the change applies.
    open spec fn patched(
        old: Option<T>,
        self_path_index: usize,
        patch: DocPatch,
        new: Option<T>,
        result: Result<(), PatchError>,
    ) -> bool {
        match old {
            Some(inner) => new matches Some(n) && T::patched(inner, self_path_index, patch, n, result),
            None => match result {
                Ok(_) => new matches Some(n) && exists|d: T|
                    call_ensures(T::default, (), d) && #[trigger] T::patched(d, self_path_index, patch, n, result),
                Err(_) => new is None && exists|d: T, n: T|
                    call_ensures(T::default, (), d) && #[trigger] T::patched(d, self_path_index, patch, n, result),
            },
        }
    }

    fn apply(&mut self, self_path_index: usize, patch: &DocPatch) -> (result: Result<(), PatchError>) {
        if self.is_some() {
            let mut inner = self.take().unwrap();
            let ghost before = inner;
            let r = inner.apply(self_path_index, patch);
            *self = Some(inner);
            assert(T::patched(before, self_path_index, *patch, self.unwrap(), r));
            r
        } else {
            let mut inner = T::default();
            let ghost start = inner;
            assert(call_ensures(T::default, (), start));
            let r = inner.apply(self_path_index, patch);
            if r.is_ok() {
                *self = Some(inner);
                assert(T::patched(start, self_path_index, *patch, self.unwrap(), r));
            } else {
                assert(T::patched(start, self_path_index, *patch, inner, r));
            }
            r
        }
    }
}

/// The outcome of setting an optional leaf that is built with `FromValue` when absent.
pub open spec fn option_leaf_applied<T: LeafApply + FromValue>(
    old: Option<T>,
    value: Value,
    has_conflict: bool,
    new: Option<T>,
    result: Result<(), LeafApplyError>,
) -> bool {
    match old {
        Some(inner) => new matches Some(n) && T::leaf_applied(inner, value, has_conflict, n, result),
        None => match result {
            Ok(_) => new matches Some(x) && T::from_value_gives(value, has_conflict, Ok(x)),
            Err(e) => new is None && T::from_value_gives(value, has_conflict, Err(e)),
        },
    }
}

/// Sets an optional leaf to `value`; when it is absent, `default_fn` makes the
/// leaf that is set, and the leaf becomes present only if that succeeds.
pub fn leaf_apply_option_default<T: LeafApply>(
    this: &mut Option<T>,
    value: &Value,
    has_conflict: bool,
    default_fn: impl FnOnce() -> T,
) -> (result: Result<(), LeafApplyError>)
    requires
        *old(this) is None ==> call_requires(default_fn, ()),
    ensures
        match *old(this) {
            Some(inner) => (*final(this)) matches Some(n) && T::leaf_applied(inner, *value, has_conflict, n, result),
            None => match result {
                Ok(_) => (*final(this)) matches Some(n) && exists|d: T|
                    call_ensures(default_fn, (), d) && #[trigger] T::leaf_applied(d, *value, has_conflict, n, result),
                Err(_) => (*final(this)) is None && exists|d: T, n: T|
                    call_ensures(default_fn, (), d) && #[trigger] T::leaf_applied(d, *value, has_conflict, n, result),
            },
        },
{
    if this.is_some() {
        let mut inner = this.take().unwrap();
        let ghost before = inner;
        let r = inner.leaf_apply(value, has_conflict);
        *this = Some(inner);
        assert(T::leaf_applied(before, *value, has_conflict, this.unwrap(), r));
        r
    } else {
        let mut inner = default_fn();
        let ghost start = inner;
        let r = inner.leaf_apply(value, has_conflict);
        assert(call_ensures(default_fn, (), start));
        if r.is_ok() {
            *this = Some(inner);
            assert(T::leaf_applied(start, *value, has_conflict, this.unwrap(), r));
        } else {
            assert(T::leaf_applied(start, *value, has_conflict, inner, r));
        }
        r
    }
}

/// Sets an optional leaf to `value`; when it is absent, the leaf is built from
/// `value` itself.
pub fn leaf_apply_option_from_value<T: LeafApply + FromValue>(
    this: &mut Option<T>,
    value: &Value,
    has_conflict: bool,
) -> (result: Result<(), LeafApplyError>)
    ensures
        option_leaf_applied(*old(this), *value, has_conflict, *final(this), result),
{
    match this {
        Some(inner) => inner.leaf_apply(value, has_conflict),
        None => match T::from_value(value, has_conflict) {
            Ok(x) => {
                *this = Some(x);
                Ok(())
            },
            Err(e) => Err(e),
        },
    }
}

} // verus!
