//! Properties that hold across the functions of the library.

use vstd::prelude::*;

use crate::error::{AutomergeTypeKinds, LeafApplyError, PatchError, PathMismatchError};
use crate::example::{leaf_outcome, Bar, Baz, Foo};
use crate::model::{ChangeProp, DocPatch, PatchAction, ScalarValue, Value};
use crate::patch::{assert_on_self_spec, option_leaf_applied, patch_on_self_spec, FromValue, LeafApply, Patch};
use crate::path::{path_matches_spec, prop_matches_spec, Prop};

verus! {

/// `assert_patch_on_self` succeeds exactly when `is_patch_on_self` reports
/// `true`, and fails with the same error when that fails.
pub proof fn lemma_assert_agrees_with_is_on_self(self_path_index: usize, path_len: nat)
    ensures
        assert_on_self_spec(self_path_index, path_len as int) is Ok
            <==> patch_on_self_spec(self_path_index, path_len as int) == Ok::<bool, PathMismatchError>(true),
        patch_on_self_spec(self_path_index, path_len as int) is Err
            ==> assert_on_self_spec(self_path_index, path_len as int) == Err::<(), PathMismatchError>(PathMismatchError::EOP),
{
}

/// Of all depths, exactly the depth equal to the path's length is the one a
/// change addresses; shallower depths are told to look further down, deeper
/// ones that the path has ended.
pub proof fn lemma_one_depth_is_addressed(self_path_index: usize, path_len: nat)
    ensures
        patch_on_self_spec(self_path_index, path_len as int) == Ok::<bool, PathMismatchError>(true)
            <==> self_path_index == path_len,
        patch_on_self_spec(self_path_index, path_len as int) == Ok::<bool, PathMismatchError>(false)
            <==> self_path_index < path_len,
        patch_on_self_spec(self_path_index, path_len as int) is Err <==> self_path_index > path_len,
{
}

/// A listener on the root sees every change.
pub proof fn lemma_empty_listener_matches_all(change_path: Seq<ChangeProp>)
    ensures
        path_matches_spec(Seq::<Prop>::empty(), change_path),
{
}

/// A listener that sees a change also sees it through any shorter prefix of its path.
pub proof fn lemma_path_match_prefix_closed(listener_path: Seq<Prop>, change_path: Seq<ChangeProp>, k: int)
    requires
        path_matches_spec(listener_path, change_path),
        0 <= k <= listener_path.len(),
    ensures
        path_matches_spec(listener_path.take(k), change_path),
{
    assert forall|i: int| 0 <= i < k implies #[trigger] prop_matches_spec(listener_path.take(k)[i], change_path[i]) by {
        assert(prop_matches_spec(listener_path[i], change_path[i]));
    }
}

/// A listener that sees a change also sees every change further below it.
pub proof fn lemma_path_match_extends(listener_path: Seq<Prop>, change_path: Seq<ChangeProp>, below: Seq<ChangeProp>)
    requires
        path_matches_spec(listener_path, change_path),
    ensures
        path_matches_spec(listener_path, change_path + below),
{
    assert forall|i: int| 0 <= i < listener_path.len() implies #[trigger] prop_matches_spec(listener_path[i], (change_path + below)[i]) by {
        assert(prop_matches_spec(listener_path[i], change_path[i]));
    }
}

/// The listener's step that names the same property as a change's step.
pub open spec fn listener_prop_of(change_prop: ChangeProp) -> Prop {
    match change_prop {
        ChangeProp::Key(k) => Prop::Key(k),
        ChangeProp::Index(i) => Prop::Index(i as u32),
    }
}

/// A listener on exactly the path of a change sees it.
pub proof fn lemma_path_matches_itself(change_path: Seq<ChangeProp>)
    ensures
        path_matches_spec(change_path.map_values(|c: ChangeProp| listener_prop_of(c)), change_path),
{
    let listener = change_path.map_values(|c: ChangeProp| listener_prop_of(c));
    assert forall|i: int| 0 <= i < listener.len() implies #[trigger] prop_matches_spec(listener[i], change_path[i]) by {
        assert(listener[i] == listener_prop_of(change_path[i]));
    }
}

/// Two sequence indices that agree in their low 32 bits are the same property
/// to a listener.
pub proof fn lemma_index_match_is_modulo_32_bits(listener_idx: u32, change_idx: usize)
    ensures
        prop_matches_spec(Prop::Index(listener_idx), ChangeProp::Index(change_idx))
            <==> listener_idx == change_idx as int % 0x1_0000_0000,
{
    assert((change_idx as u32) as int == change_idx as int % 0x1_0000_0000) by (bit_vector);
}

/// A string leaf takes exactly the values a string can be built from, and
/// ends up equal to the string built from it; a refused value leaves the
/// leaf unchanged and is refused with the same error by both.
pub proof fn lemma_string_leaf_agrees_with_from_value(
    old: String,
    value: Value,
    has_conflict: bool,
    new: String,
    result: Result<(), LeafApplyError>,
)
    ensures
        result is Ok ==> (String::leaf_applied(old, value, has_conflict, new, result)
            <==> String::from_value_gives(value, has_conflict, Ok(new))),
        result matches Err(e) ==> (String::leaf_applied(old, value, has_conflict, new, result)
            <==> new == old && String::from_value_gives(value, has_conflict, Err(e))),
{
}

/// An integer leaf takes exactly the values an integer can be built from, and
/// ends up equal to the integer built from it; a refused value leaves the
/// leaf unchanged and is refused with the same error by both.
pub proof fn lemma_integer_leaf_agrees_with_from_value(
    old: i64,
    value: Value,
    has_conflict: bool,
    new: i64,
    result: Result<(), LeafApplyError>,
)
    ensures
        result is Ok ==> (i64::leaf_applied(old, value, has_conflict, new, result)
            <==> i64::from_value_gives(value, has_conflict, Ok(new))),
        result matches Err(e) ==> (i64::leaf_applied(old, value, has_conflict, new, result)
            <==> new == old && i64::from_value_gives(value, has_conflict, Err(e))),
{
}

/// Whether a leaf update succeeds, and what it leaves, depends only on the
/// value: not on what the leaf held before nor on the conflict flag.
pub proof fn lemma_string_leaf_overwrites(
    old1: String,
    old2: String,
    value: Value,
    conflict1: bool,
    conflict2: bool,
    new1: String,
    new2: String,
    result1: Result<(), LeafApplyError>,
    result2: Result<(), LeafApplyError>,
)
    requires
        String::leaf_applied(old1, value, conflict1, new1, result1),
        String::leaf_applied(old2, value, conflict2, new2, result2),
    ensures
        result1 is Ok <==> result2 is Ok,
        result1 is Ok ==> new1 == new2,
{
}

/// Whether an integer update succeeds, and what it leaves, depends only on
/// the value: not on what the leaf held before nor on the conflict flag.
pub proof fn lemma_integer_leaf_overwrites(
    old1: i64,
    old2: i64,
    value: Value,
    conflict1: bool,
    conflict2: bool,
    new1: i64,
    new2: i64,
    result1: Result<(), LeafApplyError>,
    result2: Result<(), LeafApplyError>,
)
    requires
        i64::leaf_applied(old1, value, conflict1, new1, result1),
        i64::leaf_applied(old2, value, conflict2, new2, result2),
    ensures
        result1 is Ok <==> result2 is Ok,
        result1 is Ok ==> new1 == new2,
{
}

/// Setting a leaf to the value it was just set to changes nothing and has
/// the same outcome.
pub proof fn lemma_leaf_update_idempotent(
    old_s: String,
    new_s: String,
    old_i: i64,
    new_i: i64,
    value: Value,
    has_conflict: bool,
    result_s: Result<(), LeafApplyError>,
    result_i: Result<(), LeafApplyError>,
)
    requires
        String::leaf_applied(old_s, value, has_conflict, new_s, result_s),
        i64::leaf_applied(old_i, value, has_conflict, new_i, result_i),
    ensures
        String::leaf_applied(new_s, value, has_conflict, new_s, result_s),
        i64::leaf_applied(new_i, value, has_conflict, new_i, result_i),
{
}

/// After a successful update, an optional string leaf holds the string the
/// value gives, whether or not it was present before; a refused update
/// leaves it as it was.
pub proof fn lemma_optional_string_leaf(
    old: Option<String>,
    value: Value,
    has_conflict: bool,
    new: Option<String>,
    result: Result<(), LeafApplyError>,
)
    requires
        option_leaf_applied(old, value, has_conflict, new, result),
    ensures
        result is Ok ==> (new matches Some(s) && String::from_value_gives(value, has_conflict, Ok(s))),
        result is Err ==> new == old,
{
}

/// After a successful update, an optional integer leaf holds the integer the
/// value gives, whether or not it was present before; a refused update
/// leaves it as it was.
pub proof fn lemma_optional_integer_leaf(
    old: Option<i64>,
    value: Value,
    has_conflict: bool,
    new: Option<i64>,
    result: Result<(), LeafApplyError>,
)
    requires
        option_leaf_applied(old, value, has_conflict, new, result),
    ensures
        result is Ok ==> (new matches Some(i) && i64::from_value_gives(value, has_conflict, Ok(i))),
        result is Err ==> new == old,
{
}

/// A change that `Foo` refuses leaves it as it was.
pub proof fn lemma_foo_refusal_changes_nothing(
    old: Foo,
    self_path_index: usize,
    patch: DocPatch,
    new: Foo,
    result: Result<(), PatchError>,
)
    requires
        Foo::patched(old, self_path_index, patch, new, result),
        result is Err,
    ensures
        new == old,
{
    if self_path_index == patch.path@.len() {
        if let PatchAction::PutMap { key, value, conflict } = patch.action {
            if key@ == "string"@ {
                assert(new.string == old.string);
            } else if key@ == "integer"@ {
                assert(new.integer == old.integer);
            } else if key@ == "maybe_string"@ {
                lemma_optional_string_leaf(old.maybe_string, value, conflict, new.maybe_string, leaf_outcome(result)->0);
            }
        }
    }
}

/// The conflict flag of a put never changes what `Foo` does: the put
/// succeeds or fails alike, a failure that is not a leaf's is the same
/// error, and the same value is left behind.
pub proof fn lemma_foo_ignores_conflict(
    old: Foo,
    self_path_index: usize,
    path: Vec<ChangeProp>,
    key: String,
    value: Value,
    conflict1: bool,
    conflict2: bool,
    new1: Foo,
    new2: Foo,
    result1: Result<(), PatchError>,
    result2: Result<(), PatchError>,
)
    requires
        Foo::patched(
            old,
            self_path_index,
            DocPatch { path, action: PatchAction::PutMap { key, value, conflict: conflict1 } },
            new1,
            result1,
        ),
        Foo::patched(
            old,
            self_path_index,
            DocPatch { path, action: PatchAction::PutMap { key, value, conflict: conflict2 } },
            new2,
            result2,
        ),
    ensures
        result1 is Ok <==> result2 is Ok,
        leaf_outcome(result1) is None ==> result1 == result2,
        new1 == new2,
{
}

/// A change that `Bar` refuses leaves it as it was.
pub proof fn lemma_bar_refusal_changes_nothing(
    old: Bar,
    self_path_index: usize,
    patch: DocPatch,
    new: Bar,
    result: Result<(), PatchError>,
)
    requires
        Bar::patched(old, self_path_index, patch, new, result),
        result is Err,
    ensures
        new == old,
{
    if self_path_index < patch.path@.len() {
        if let ChangeProp::Key(prop) = patch.path@[self_path_index as int] {
            if prop@ == "foo"@ {
                lemma_foo_refusal_changes_nothing(old.foo, (self_path_index + 1) as usize, patch, new.foo, result);
            }
        }
    }
}

/// A change that `Baz` refuses leaves it as it was.
pub proof fn lemma_baz_refusal_changes_nothing(
    old: Baz,
    self_path_index: usize,
    patch: DocPatch,
    new: Baz,
    result: Result<(), PatchError>,
)
    requires
        Baz::patched(old, self_path_index, patch, new, result),
        result is Err,
    ensures
        new == old,
{
    if self_path_index < patch.path@.len() {
        if let ChangeProp::Key(prop) = patch.path@[self_path_index as int] {
            if prop@ == "bar"@ {
                lemma_bar_refusal_changes_nothing(old.bar, (self_path_index + 1) as usize, patch, new.bar, result);
            }
        }
    }
}

/// A put of a string to `bar.foo.string`, applied at the root of a `Baz`,
/// succeeds and leaves that string there, and nothing else changes.
pub proof fn lemma_put_reaches_leaf(
    old: Baz,
    patch: DocPatch,
    key: String,
    s: String,
    conflict: bool,
    new: Baz,
    result: Result<(), PatchError>,
)
    requires
        patch.path@.len() == 2,
        patch.path@[0] matches ChangeProp::Key(k) && k@ == "bar"@,
        patch.path@[1] matches ChangeProp::Key(k) && k@ == "foo"@,
        key@ == "string"@,
        patch.action == (PatchAction::PutMap { key, value: Value::Scalar(ScalarValue::Str(s)), conflict }),
        Baz::patched(old, 0, patch, new, result),
    ensures
        result is Ok,
        new.bar.foo.string == s,
        new.bar.foo.integer == old.bar.foo.integer,
        new.bar.foo.maybe_string == old.bar.foo.maybe_string,
{
}

/// Deleting `maybe_string` and then putting a string to it leaves `Foo`
/// holding that string there.
pub proof fn lemma_put_after_delete(
    foo0: Foo,
    foo1: Foo,
    foo2: Foo,
    self_path_index: usize,
    delete: DocPatch,
    put: DocPatch,
    key: String,
    s: String,
    conflict: bool,
    result1: Result<(), PatchError>,
    result2: Result<(), PatchError>,
)
    requires
        delete.path@.len() == self_path_index,
        put.path@.len() == self_path_index,
        delete.action matches PatchAction::DeleteMap { key: k } && k@ == "maybe_string"@,
        key@ == "maybe_string"@,
        put.action == (PatchAction::PutMap { key, value: Value::Scalar(ScalarValue::Str(s)), conflict }),
        Foo::patched(foo0, self_path_index, delete, foo1, result1),
        Foo::patched(foo1, self_path_index, put, foo2, result2),
    ensures
        result1 is Ok,
        result2 is Ok,
        foo2.maybe_string == Some(s),
        foo2.string == foo0.string,
        foo2.integer == foo0.integer,
{
    reveal_strlit("maybe_string");
    reveal_strlit("string");
    reveal_strlit("integer");
    assert("maybe_string"@.len() != "string"@.len());
    assert("maybe_string"@.len() != "integer"@.len());
}

/// A listener's key step names a change's key step exactly when the two
/// keys are equal, on their own and as one-step paths; a key never names an
/// index, nor an index a key.
pub proof fn lemma_key_match_is_equality(k: String, ck: String, i: u32, ci: usize)
    ensures
        prop_matches_spec(Prop::Key(k), ChangeProp::Key(ck)) <==> k@ == ck@,
        path_matches_spec(seq![Prop::Key(k)], seq![ChangeProp::Key(ck)]) <==> k@ == ck@,
        !prop_matches_spec(Prop::Key(k), ChangeProp::Index(ci)),
        !prop_matches_spec(Prop::Index(i), ChangeProp::Key(ck)),
{
    let l = seq![Prop::Key(k)];
    let c = seq![ChangeProp::Key(ck)];
    assert(l[0] == Prop::Key(k) && c[0] == ChangeProp::Key(ck));
    if path_matches_spec(l, c) {
        assert(prop_matches_spec(l[0], c[0]));
    }
}

/// A string leaf given a string holds exactly that string, and a string built
/// from it is that string; an integer leaf given an integer holds exactly
/// that integer, and an integer built from it is that integer.
pub proof fn lemma_leaf_takes_its_own_kind(
    old_s: String,
    old_i: i64,
    s: String,
    i: i64,
    has_conflict: bool,
    new_s: String,
    new_i: i64,
    result_s: Result<(), LeafApplyError>,
    result_i: Result<(), LeafApplyError>,
    built_s: Result<String, LeafApplyError>,
    built_i: Result<i64, LeafApplyError>,
)
    requires
        String::leaf_applied(old_s, Value::Scalar(ScalarValue::Str(s)), has_conflict, new_s, result_s),
        i64::leaf_applied(old_i, Value::Scalar(ScalarValue::Int(i)), has_conflict, new_i, result_i),
        String::from_value_gives(Value::Scalar(ScalarValue::Str(s)), has_conflict, built_s),
        i64::from_value_gives(Value::Scalar(ScalarValue::Int(i)), has_conflict, built_i),
    ensures
        result_s is Ok,
        new_s == s,
        result_i is Ok,
        new_i == i,
        built_s == Ok::<String, LeafApplyError>(s),
        built_i == Ok::<i64, LeafApplyError>(i),
{
}

/// A leaf refuses a value of another kind, unchanged, with an error that
/// carries the value and names the kind the leaf holds.
pub proof fn lemma_leaf_refuses_other_kinds(
    old_s: String,
    old_i: i64,
    value: Value,
    has_conflict: bool,
    new_s: String,
    new_i: i64,
    result_s: Result<(), LeafApplyError>,
    result_i: Result<(), LeafApplyError>,
)
    requires
        String::leaf_applied(old_s, value, has_conflict, new_s, result_s),
        i64::leaf_applied(old_i, value, has_conflict, new_i, result_i),
    ensures
        !(value matches Value::Scalar(ScalarValue::Str(_))) ==> new_s == old_s
            && (result_s matches Err(LeafApplyError::ValueTypeMismatch { value: v, expected_kind })
            && v.same_as(value) && expected_kind == AutomergeTypeKinds::Str),
        !(value matches Value::Scalar(ScalarValue::Int(_))) ==> new_i == old_i
            && (result_i matches Err(LeafApplyError::ValueTypeMismatch { value: v, expected_kind })
            && v.same_as(value) && expected_kind == AutomergeTypeKinds::Int),
{
}

proof fn lemma_field_names_distinct()
    ensures
        "string"@ != "integer"@,
        "string"@ != "maybe_string"@,
        "integer"@ != "maybe_string"@,
{
    reveal_strlit("string");
    reveal_strlit("integer");
    reveal_strlit("maybe_string");
    assert("string"@.len() != "integer"@.len());
    assert("string"@.len() != "maybe_string"@.len());
    assert("integer"@.len() != "maybe_string"@.len());
}

/// A put addressed to `Foo` sets the field its key names to the value when
/// the value is of the field's kind, whatever the field held before (an
/// absent optional field included), and leaves the other fields alone; a
/// value of another kind is refused and nothing changes; a key that names no
/// field is refused one step below `Foo`.
pub proof fn lemma_foo_put_sets_named_field(
    old: Foo,
    self_path_index: usize,
    patch: DocPatch,
    key: String,
    value: Value,
    conflict: bool,
    new: Foo,
    result: Result<(), PatchError>,
)
    requires
        patch.path@.len() == self_path_index,
        patch.action == (PatchAction::PutMap { key, value, conflict }),
        Foo::patched(old, self_path_index, patch, new, result),
    ensures
        key@ == "string"@ ==> match value {
            Value::Scalar(ScalarValue::Str(s)) => result is Ok && new.string == s
                && new.integer == old.integer && new.maybe_string == old.maybe_string,
            _ => new == old && (result matches Err(PatchError::Leaf {
                inner: LeafApplyError::ValueTypeMismatch { value: v, expected_kind },
            }) && v.same_as(value) && expected_kind == AutomergeTypeKinds::Str),
        },
        key@ == "integer"@ ==> match value {
            Value::Scalar(ScalarValue::Int(i)) => result is Ok && new.integer == i
                && new.string == old.string && new.maybe_string == old.maybe_string,
            _ => new == old && (result matches Err(PatchError::Leaf {
                inner: LeafApplyError::ValueTypeMismatch { value: v, expected_kind },
            }) && v.same_as(value) && expected_kind == AutomergeTypeKinds::Int),
        },
        key@ == "maybe_string"@ ==> match value {
            Value::Scalar(ScalarValue::Str(s)) => result is Ok && new.maybe_string == Some(s)
                && new.string == old.string && new.integer == old.integer,
            _ => new == old && (result matches Err(PatchError::Leaf {
                inner: LeafApplyError::ValueTypeMismatch { value: v, expected_kind },
            }) && v.same_as(value) && expected_kind == AutomergeTypeKinds::Str),
        },
        key@ != "string"@ && key@ != "integer"@ && key@ != "maybe_string"@ ==> new == old
            && result == Err::<(), PatchError>(PatchError::PathMismatch {
                inner: PathMismatchError::PropMismatch { path_index: (self_path_index + 1) as usize },
            }),
{
    lemma_field_names_distinct();
}

/// A deletion addressed to `Foo` clears the optional field and nothing else,
/// is refused for the two required fields, and is refused one step below
/// `Foo` for a key that names no field; any action other than a put or a
/// deletion of a map key is refused.
pub proof fn lemma_foo_delete_and_other_actions(
    old: Foo,
    self_path_index: usize,
    patch: DocPatch,
    new: Foo,
    result: Result<(), PatchError>,
)
    requires
        patch.path@.len() == self_path_index,
        Foo::patched(old, self_path_index, patch, new, result),
    ensures
        patch.action matches PatchAction::DeleteMap { key } ==> {
            &&& key@ == "maybe_string"@ ==> result is Ok && new.maybe_string is None
                && new.string == old.string && new.integer == old.integer
            &&& (key@ == "string"@ || key@ == "integer"@) ==> new == old
                && result == Err::<(), PatchError>(PatchError::Leaf { inner: LeafApplyError::NotNullable })
            &&& (key@ != "string"@ && key@ != "integer"@ && key@ != "maybe_string"@) ==> new == old
                && result == Err::<(), PatchError>(PatchError::PathMismatch {
                    inner: PathMismatchError::PropMismatch { path_index: (self_path_index + 1) as usize },
                })
        },
        !(patch.action is PutMap) && !(patch.action is DeleteMap) ==> new == old
            && result == Err::<(), PatchError>(PatchError::OpMismatch),
{
    lemma_field_names_distinct();
}

/// `Foo` refuses, unchanged, a change whose path ends above it or goes on below it.
pub proof fn lemma_foo_takes_only_its_own_changes(
    old: Foo,
    self_path_index: usize,
    patch: DocPatch,
    new: Foo,
    result: Result<(), PatchError>,
)
    requires
        Foo::patched(old, self_path_index, patch, new, result),
    ensures
        self_path_index > patch.path@.len() ==> new == old
            && result == Err::<(), PatchError>(PatchError::PathMismatch { inner: PathMismatchError::EOP }),
        self_path_index < patch.path@.len() ==> new == old
            && result == Err::<(), PatchError>(PatchError::PathMismatch {
                inner: PathMismatchError::TooDeep { end_depth: self_path_index },
            }),
{
}

/// `Baz` hands a change to `bar` exactly when the path step at its depth is
/// the key `bar` itself; any other key is refused one step below, an index
/// step is refused at its depth, and a path that ends at or above `Baz` is
/// refused; each refusal leaves `Baz` as it was.
pub proof fn lemma_baz_routes_by_exact_key(
    old: Baz,
    self_path_index: usize,
    patch: DocPatch,
    new: Baz,
    result: Result<(), PatchError>,
)
    requires
        Baz::patched(old, self_path_index, patch, new, result),
    ensures
        self_path_index >= patch.path@.len() ==> new == old
            && result == Err::<(), PatchError>(PatchError::PathMismatch { inner: PathMismatchError::EOP }),
        self_path_index < patch.path@.len() ==> match patch.path@[self_path_index as int] {
            ChangeProp::Index(_) => new == old && result == Err::<(), PatchError>(PatchError::PathMismatch {
                inner: PathMismatchError::PropKindMismatch { path_index: self_path_index },
            }),
            ChangeProp::Key(k) => if k@ == "bar"@ {
                Bar::patched(old.bar, (self_path_index + 1) as usize, patch, new.bar, result)
            } else {
                new == old && result == Err::<(), PatchError>(PatchError::PathMismatch {
                    inner: PathMismatchError::PropMismatch { path_index: (self_path_index + 1) as usize },
                })
            },
        },
{
}

/// `Bar` hands a change to `foo` exactly when the path step at its depth is
/// the key `foo` itself; any other key is refused one step below, an index
/// step is refused at its depth, and a path that ends at or above `Bar` is
/// refused; each refusal leaves `Bar` as it was.
pub proof fn lemma_bar_routes_by_exact_key(
    old: Bar,
    self_path_index: usize,
    patch: DocPatch,
    new: Bar,
    result: Result<(), PatchError>,
)
    requires
        Bar::patched(old, self_path_index, patch, new, result),
    ensures
        self_path_index >= patch.path@.len() ==> new == old
            && result == Err::<(), PatchError>(PatchError::PathMismatch { inner: PathMismatchError::EOP }),
        self_path_index < patch.path@.len() ==> match patch.path@[self_path_index as int] {
            ChangeProp::Index(_) => new == old && result == Err::<(), PatchError>(PatchError::PathMismatch {
                inner: PathMismatchError::PropKindMismatch { path_index: self_path_index },
            }),
            ChangeProp::Key(k) => if k@ == "foo"@ {
                Foo::patched(old.foo, (self_path_index + 1) as usize, patch, new.foo, result)
            } else {
                new == old && result == Err::<(), PatchError>(PatchError::PathMismatch {
                    inner: PathMismatchError::PropMismatch { path_index: (self_path_index + 1) as usize },
                })
            },
        },
{
}

/// A present optional value stays present whatever the change does to it,
/// holding what the change left of its own value.
pub proof fn lemma_present_option_stays_present<T: Patch + Default>(
    inner: T,
    self_path_index: usize,
    patch: DocPatch,
    new: Option<T>,
    result: Result<(), PatchError>,
)
    requires
        <Option<T> as Patch>::patched(Some(inner), self_path_index, patch, new, result),
    ensures
        new is Some,
        T::patched(inner, self_path_index, patch, new->0, result),
{
}

/// An absent optional value becomes present exactly when the change applies,
/// and then holds what the change left of a default value.
pub proof fn lemma_absent_option_present_on_success<T: Patch + Default>(
    self_path_index: usize,
    patch: DocPatch,
    new: Option<T>,
    result: Result<(), PatchError>,
)
    requires
        <Option<T> as Patch>::patched(None, self_path_index, patch, new, result),
    ensures
        new is Some <==> result is Ok,
        result is Ok ==> exists|d: T|
            call_ensures(T::default, (), d) && #[trigger] T::patched(d, self_path_index, patch, new->0, result),
{
}

/// A boxed value takes a change, or a leaf value, exactly as its content does.
pub proof fn lemma_box_forwards<T: Patch, L: LeafApply>(
    old: Box<T>,
    self_path_index: usize,
    patch: DocPatch,
    new: Box<T>,
    result: Result<(), PatchError>,
    old_leaf: Box<L>,
    value: Value,
    has_conflict: bool,
    new_leaf: Box<L>,
    leaf_result: Result<(), LeafApplyError>,
)
    ensures
        <Box<T> as Patch>::patched(old, self_path_index, patch, new, result)
            <==> T::patched(*old, self_path_index, patch, *new, result),
        <Box<L> as LeafApply>::leaf_applied(old_leaf, value, has_conflict, new_leaf, leaf_result)
            <==> L::leaf_applied(*old_leaf, value, has_conflict, *new_leaf, leaf_result),
{
}

} // verus!
