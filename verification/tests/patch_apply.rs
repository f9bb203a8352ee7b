use autosurgeon::{
    assert_patch_on_self, is_patch_on_self, leaf_apply_option_default, leaf_apply_option_from_value,
    AutomergeTypeKinds, Bar, Baz, ChangeProp, DocPatch, Foo, FromValue, LeafApply, LeafApplyError, Patch,
    PatchAction, PatchError, PathMismatchError, ScalarValue, Value,
};

fn key(k: &str) -> ChangeProp {
    ChangeProp::Key(k.to_string())
}

fn str_value(s: &str) -> Value {
    Value::Scalar(ScalarValue::Str(s.to_string()))
}

fn int_value(i: i64) -> Value {
    Value::Scalar(ScalarValue::Int(i))
}

fn put(path: Vec<ChangeProp>, k: &str, value: Value) -> DocPatch {
    DocPatch { path, action: PatchAction::PutMap { key: k.to_string(), value, conflict: false } }
}

fn delete(path: Vec<ChangeProp>, k: &str) -> DocPatch {
    DocPatch { path, action: PatchAction::DeleteMap { key: k.to_string() } }
}

fn sample() -> Baz {
    Baz {
        bar: Bar {
            foo: Foo { string: "init".to_string(), integer: 0, maybe_string: Some("hey".into()) },
        },
    }
}

#[test]
fn foo_bar_baz() {
    let mut baz = sample();
    let patches = vec![
        put(vec![key("bar"), key("foo")], "string", str_value("new")),
        put(vec![key("bar"), key("foo")], "integer", int_value(1)),
        delete(vec![key("bar"), key("foo")], "maybe_string"),
    ];
    for patch in patches {
        if let Err(err) = baz.apply(0, &patch) {
            panic!("error applying patch: {err:?} {patch:?}");
        }
    }
    assert_eq!(baz.bar.foo.string, "new");
    assert_eq!(baz.bar.foo.integer, 1);
    assert_eq!(baz.bar.foo.maybe_string, None);
}

#[test]
fn patch_on_self_by_depth() {
    let patch = put(vec![key("a"), key("b")], "x", int_value(0));
    assert!(matches!(is_patch_on_self(2, &patch), Ok(true)));
    assert!(matches!(is_patch_on_self(1, &patch), Ok(false)));
    assert!(matches!(is_patch_on_self(0, &patch), Ok(false)));
    assert!(matches!(is_patch_on_self(3, &patch), Err(PathMismatchError::EOP)));
}

#[test]
fn assert_on_self_errors() {
    let patch = put(vec![key("a"), key("b")], "x", int_value(0));
    assert!(assert_patch_on_self(2, &patch).is_ok());
    assert!(matches!(assert_patch_on_self(1, &patch), Err(PathMismatchError::TooDeep { end_depth: 1 })));
    assert!(matches!(assert_patch_on_self(5, &patch), Err(PathMismatchError::EOP)));
}

#[test]
fn root_patch_is_on_self_at_depth_zero() {
    let patch = delete(vec![], "x");
    assert!(matches!(is_patch_on_self(0, &patch), Ok(true)));
    assert!(matches!(is_patch_on_self(1, &patch), Err(PathMismatchError::EOP)));
}

#[test]
fn string_leaf_takes_strings() {
    let mut s = "old".to_string();
    assert!(s.leaf_apply(&str_value("fresh"), true).is_ok());
    assert_eq!(s, "fresh");
}

#[test]
fn string_leaf_refuses_other_values_unchanged() {
    let mut s = "old".to_string();
    match s.leaf_apply(&int_value(3), false) {
        Err(LeafApplyError::ValueTypeMismatch { value: Value::Scalar(ScalarValue::Int(3)), expected_kind }) => {
            assert_eq!(expected_kind, AutomergeTypeKinds::Str)
        },
        other => panic!("unexpected {other:?}"),
    }
    assert_eq!(s, "old");
}

#[test]
fn integer_leaf_takes_integers() {
    let mut i: i64 = 7;
    assert!(i.leaf_apply(&int_value(-4), false).is_ok());
    assert_eq!(i, -4);
}

#[test]
fn integer_leaf_refusal_names_int_kind() {
    let mut i: i64 = 7;
    match i.leaf_apply(&Value::Scalar(ScalarValue::Uint(3)), false) {
        Err(LeafApplyError::ValueTypeMismatch { value: Value::Scalar(ScalarValue::Uint(3)), expected_kind }) => {
            assert_eq!(expected_kind, AutomergeTypeKinds::Int)
        },
        other => panic!("unexpected {other:?}"),
    }
    assert_eq!(i, 7);
}

#[test]
fn leaf_refusal_carries_bytes_value() {
    let mut s = String::new();
    let bytes = Value::Scalar(ScalarValue::Bytes(vec![1, 2, 3]));
    match s.leaf_apply(&bytes, false) {
        Err(LeafApplyError::ValueTypeMismatch { value: Value::Scalar(ScalarValue::Bytes(b)), .. }) => {
            assert_eq!(b, vec![1, 2, 3])
        },
        other => panic!("unexpected {other:?}"),
    }
}

#[test]
fn from_value_builds_leaves() {
    assert_eq!(String::from_value(&str_value("abc"), false).unwrap(), "abc");
    assert_eq!(i64::from_value(&int_value(42), true).unwrap(), 42);
    assert!(matches!(
        i64::from_value(&str_value("42"), false),
        Err(LeafApplyError::ValueTypeMismatch { expected_kind: AutomergeTypeKinds::Int, .. })
    ));
    assert!(String::from_value(&Value::Object(autosurgeon::ObjType::List), false).is_err());
}

#[test]
fn leaf_update_is_idempotent() {
    let mut s = "a".to_string();
    s.leaf_apply(&str_value("b"), false).unwrap();
    s.leaf_apply(&str_value("b"), false).unwrap();
    assert_eq!(s, "b");
}

#[test]
fn boxed_leaf_forwards() {
    let mut b: Box<i64> = Box::new(1);
    b.leaf_apply(&int_value(9), false).unwrap();
    assert_eq!(*b, 9);
}

#[test]
fn optional_leaf_from_value_when_absent() {
    let mut o: Option<String> = None;
    leaf_apply_option_from_value(&mut o, &str_value("made"), false).unwrap();
    assert_eq!(o, Some("made".to_string()));
}

#[test]
fn optional_leaf_updates_when_present() {
    let mut o: Option<i64> = Some(1);
    leaf_apply_option_from_value(&mut o, &int_value(2), false).unwrap();
    assert_eq!(o, Some(2));
}

#[test]
fn optional_leaf_refusal_keeps_absent() {
    let mut o: Option<i64> = None;
    assert!(leaf_apply_option_from_value(&mut o, &str_value("x"), false).is_err());
    assert_eq!(o, None);
    let mut p: Option<i64> = Some(5);
    assert!(leaf_apply_option_from_value(&mut p, &str_value("x"), false).is_err());
    assert_eq!(p, Some(5));
}

#[test]
fn optional_leaf_default_when_absent() {
    let mut o: Option<String> = None;
    leaf_apply_option_default(&mut o, &str_value("set"), false, || "start".to_string()).unwrap();
    assert_eq!(o, Some("set".to_string()));
    let mut q: Option<String> = None;
    assert!(leaf_apply_option_default(&mut q, &int_value(1), false, String::new).is_err());
    assert_eq!(q, None);
}

#[test]
fn optional_leaf_default_not_called_when_present() {
    let mut o: Option<i64> = Some(3);
    leaf_apply_option_default(&mut o, &int_value(4), false, || panic!("not needed")).unwrap();
    assert_eq!(o, Some(4));
}

#[test]
fn foo_refuses_unknown_key() {
    let mut foo = sample().bar.foo;
    match foo.apply(0, &put(vec![], "nope", int_value(1))) {
        Err(PatchError::PathMismatch { inner: PathMismatchError::PropMismatch { path_index: 1 } }) => {},
        other => panic!("unexpected {other:?}"),
    }
    assert_eq!(foo.string, "init");
}

#[test]
fn foo_refuses_deleting_required_leaf() {
    let mut foo = sample().bar.foo;
    assert!(matches!(
        foo.apply(0, &delete(vec![], "string")),
        Err(PatchError::Leaf { inner: LeafApplyError::NotNullable })
    ));
    assert!(matches!(
        foo.apply(0, &delete(vec![], "integer")),
        Err(PatchError::Leaf { inner: LeafApplyError::NotNullable })
    ));
    assert_eq!(foo.maybe_string, Some("hey".to_string()));
}

#[test]
fn foo_refuses_other_actions() {
    let mut foo = sample().bar.foo;
    let patch = DocPatch { path: vec![], action: PatchAction::DeleteSeq { index: 0, length: 1 } };
    assert!(matches!(foo.apply(0, &patch), Err(PatchError::OpMismatch)));
}

#[test]
fn foo_leaf_type_error_is_wrapped() {
    let mut foo = sample().bar.foo;
    assert!(matches!(
        foo.apply(0, &put(vec![], "integer", str_value("1"))),
        Err(PatchError::Leaf { inner: LeafApplyError::ValueTypeMismatch { .. } })
    ));
    assert_eq!(foo.integer, 0);
}

#[test]
fn foo_refuses_patch_below_it() {
    let mut foo = sample().bar.foo;
    assert!(matches!(
        foo.apply(0, &put(vec![key("x")], "string", str_value("s"))),
        Err(PatchError::PathMismatch { inner: PathMismatchError::TooDeep { end_depth: 0 } })
    ));
}

#[test]
fn bar_refuses_patch_on_itself() {
    let mut bar = sample().bar;
    assert!(matches!(
        bar.apply(0, &put(vec![], "foo", int_value(1))),
        Err(PatchError::PathMismatch { inner: PathMismatchError::EOP })
    ));
}

#[test]
fn bar_refuses_index_step() {
    let mut bar = sample().bar;
    assert!(matches!(
        bar.apply(0, &put(vec![ChangeProp::Index(0)], "string", str_value("s"))),
        Err(PatchError::PathMismatch { inner: PathMismatchError::PropKindMismatch { path_index: 0 } })
    ));
}

#[test]
fn baz_refuses_unknown_child() {
    let mut baz = sample();
    assert!(matches!(
        baz.apply(0, &put(vec![key("qux"), key("foo")], "string", str_value("s"))),
        Err(PatchError::PathMismatch { inner: PathMismatchError::PropMismatch { path_index: 1 } })
    ));
    assert_eq!(baz.bar.foo.string, "init");
}

#[test]
fn baz_put_then_delete_then_put_optional() {
    let mut baz = sample();
    baz.apply(0, &delete(vec![key("bar"), key("foo")], "maybe_string")).unwrap();
    assert_eq!(baz.bar.foo.maybe_string, None);
    baz.apply(0, &put(vec![key("bar"), key("foo")], "maybe_string", str_value("back"))).unwrap();
    assert_eq!(baz.bar.foo.maybe_string, Some("back".to_string()));
}

#[test]
fn nested_patch_applied_at_inner_depth() {
    let mut bar = sample().bar;
    bar.apply(1, &put(vec![key("bar"), key("foo")], "integer", int_value(11))).unwrap();
    assert_eq!(bar.foo.integer, 11);
}

#[test]
fn boxed_patch_forwards() {
    let mut b = Box::new(sample().bar.foo);
    b.apply(0, &put(vec![], "string", str_value("boxed"))).unwrap();
    assert_eq!(b.string, "boxed");
}

#[test]
fn errors_convert_into_patch_error() {
    let e: PatchError = PathMismatchError::TooDeep { end_depth: 4 }.into();
    assert!(matches!(e, PatchError::PathMismatch { inner: PathMismatchError::TooDeep { end_depth: 4 } }));
    let l: PatchError = LeafApplyError::NotNullable.into();
    assert!(matches!(l, PatchError::Leaf { inner: LeafApplyError::NotNullable }));
}

#[test]
fn value_to_owned_copies() {
    let v = Value::Scalar(ScalarValue::Unknown { type_code: 9, bytes: vec![4, 5] });
    match v.to_owned() {
        Value::Scalar(ScalarValue::Unknown { type_code: 9, bytes }) => assert_eq!(bytes, vec![4, 5]),
        other => panic!("unexpected {other:?}"),
    }
}

#[test]
fn leaf_apply_agrees_with_from_value() {
    let values = vec![str_value("x"), int_value(5), Value::Scalar(ScalarValue::Null), Value::Object(autosurgeon::ObjType::Mapping)];
    for v in &values {
        let mut s = "before".to_string();
        let applied = s.leaf_apply(v, false);
        match String::from_value(v, false) {
            Ok(built) => {
                assert!(applied.is_ok());
                assert_eq!(s, built);
            },
            Err(_) => {
                assert!(applied.is_err());
                assert_eq!(s, "before");
            },
        }
        let mut i: i64 = -1;
        let applied = i.leaf_apply(v, true);
        match i64::from_value(v, true) {
            Ok(built) => {
                assert!(applied.is_ok());
                assert_eq!(i, built);
            },
            Err(_) => {
                assert!(applied.is_err());
                assert_eq!(i, -1);
            },
        }
    }
}

#[test]
fn leaf_outcome_ignores_prior_state_and_conflict() {
    let mut a = "one".to_string();
    let mut b = "two".to_string();
    a.leaf_apply(&str_value("same"), false).unwrap();
    b.leaf_apply(&str_value("same"), true).unwrap();
    assert_eq!(a, b);
    let mut x: i64 = 10;
    let mut y: i64 = -10;
    x.leaf_apply(&int_value(0), true).unwrap();
    y.leaf_apply(&int_value(0), false).unwrap();
    assert_eq!(x, y);
}

#[test]
fn foo_put_ignores_conflict_flag() {
    let mut a = sample().bar.foo;
    let mut b = sample().bar.foo;
    let p1 = DocPatch { path: vec![], action: PatchAction::PutMap { key: "integer".to_string(), value: int_value(8), conflict: false } };
    let p2 = DocPatch { path: vec![], action: PatchAction::PutMap { key: "integer".to_string(), value: int_value(8), conflict: true } };
    a.apply(0, &p1).unwrap();
    b.apply(0, &p2).unwrap();
    assert_eq!(a.integer, b.integer);
    assert_eq!(a.integer, 8);
}
