//! Small helpers on texts.
use vstd::prelude::*;

verus! {

/// A copy of an optional text.
pub fn copy_text(text: &Option<String>) -> (c: Option<String>)
    ensures
        c == *text,
{
    match text {
        Some(t) => Some(t.clone()),
        None => None,
    }
}

} // verus!
