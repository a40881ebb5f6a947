//! Rules on configuration values.

use vstd::prelude::*;

verus! {

/// An optional setting counts as given if it is present and not empty.
pub fn is_given(setting: &Option<String>) -> (given: bool)
    ensures
        given == (setting matches Some(text) && text@.len() > 0),
{
    match setting {
        Some(text) => !text.as_str().is_empty(),
        None => false,
    }
}

} // verus!
