use autosurgeon::{path_matches, prop_matches, ChangeProp, Prop};

fn change(steps: &[&str]) -> Vec<ChangeProp> {
    steps.iter().map(|s| ChangeProp::Key(s.to_string())).collect()
}

#[test]
fn empty_listener_matches_everything() {
    assert!(path_matches(&[], &change(&["a", "b"])));
    assert!(path_matches(&[], &[]));
}

#[test]
fn listener_prefix_matches() {
    let listener = vec![Prop::Key("a".to_string())];
    assert!(path_matches(&listener, &change(&["a", "b"])));
    assert!(path_matches(&listener, &change(&["a"])));
}

#[test]
fn longer_listener_does_not_match() {
    let listener = vec![Prop::Key("a".to_string()), Prop::Key("b".to_string())];
    assert!(!path_matches(&listener, &change(&["a"])));
}

#[test]
fn different_key_does_not_match() {
    let listener = vec![Prop::Key("a".to_string()), Prop::Key("c".to_string())];
    assert!(!path_matches(&listener, &change(&["a", "b"])));
}

#[test]
fn index_steps_match_indices() {
    let listener = vec![Prop::Key("list".to_string()), Prop::Index(3)];
    let c = vec![ChangeProp::Key("list".to_string()), ChangeProp::Index(3), ChangeProp::Key("x".to_string())];
    assert!(path_matches(&listener, &c));
    let d = vec![ChangeProp::Key("list".to_string()), ChangeProp::Index(4)];
    assert!(!path_matches(&listener, &d));
}

#[test]
fn kinds_must_agree() {
    assert!(!prop_matches(&Prop::Key("0".to_string()), &ChangeProp::Index(0)));
    assert!(!prop_matches(&Prop::Index(0), &ChangeProp::Key("0".to_string())));
    assert!(prop_matches(&Prop::Key("k".to_string()), &ChangeProp::Key("k".to_string())));
}

#[test]
fn index_compared_in_low_32_bits() {
    let big: u64 = (1u64 << 32) + 5;
    if let Ok(big) = usize::try_from(big) {
        assert!(prop_matches(&Prop::Index(5), &ChangeProp::Index(big)));
    }
    assert!(prop_matches(&Prop::Index(5), &ChangeProp::Index(5)));
}
