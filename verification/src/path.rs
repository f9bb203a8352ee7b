//! Matching a listener's path against the path of a change.

use vstd::prelude::*;

use crate::model::ChangeProp;

verus! {

/// One step of a path a listener is interested in: a map key or a sequence index.
#[derive(Debug, Clone)]
pub enum Prop {
    Key(String),
    Index(u32),
}

/// Whether a listener's step names the same property as a change's step.
///
/// A sequence index of the change is compared after truncation to 32 bits.
pub open spec fn prop_matches_spec(listener_prop: Prop, change_prop: ChangeProp) -> bool {
    match (listener_prop, change_prop) {
        (Prop::Key(k), ChangeProp::Key(ck)) => k@ == ck@,
        (Prop::Index(i), ChangeProp::Index(ci)) => i == ci as u32,
        _ => false,
    }
}

/// Whether the listener's path is a prefix of the change's path, step by step.
pub open spec fn path_matches_spec(listener_path: Seq<Prop>, change_path: Seq<ChangeProp>) -> bool {
    &&& listener_path.len() <= change_path.len()
    &&& forall|i: int|
        0 <= i < listener_path.len() ==> #[trigger] prop_matches_spec(listener_path[i], change_path[i])
}

/// Whether a change at `change_path` lies at or below the object a listener
/// watches at `listener_path`.
pub fn path_matches(listener_path: &[Prop], change_path: &[ChangeProp]) -> (r: bool)
    ensures
        r == path_matches_spec(listener_path@, change_path@),
{
    if listener_path.len() > change_path.len() {
        return false;
    }
    let mut i: usize = 0;
    while i < listener_path.len()
        invariant
            i <= listener_path.len() <= change_path.len(),
            forall|j: int| 0 <= j < i ==> #[trigger] prop_matches_spec(listener_path@[j], change_path@[j]),
        decreases listener_path.len() - i,
    {
        if !prop_matches(&listener_path[i], &change_path[i]) {
            return false;
        }
        i = i + 1;
    }
    true
}

/// Whether one step of a listener's path names the same property as one step of a change's path.
pub fn prop_matches(listener_prop: &Prop, change_prop: &ChangeProp) -> (r: bool)
    ensures
        r == prop_matches_spec(*listener_prop, *change_prop),
{
    match (listener_prop, change_prop) {
        (Prop::Key(listener_key), ChangeProp::Key(change_key)) => listener_key.eq(change_key),
        (Prop::Index(listener_idx), ChangeProp::Index(change_idx)) => *listener_idx == #[verifier::truncate] (*change_idx as u32),
        _ => false,
    }
}

} // verus!
