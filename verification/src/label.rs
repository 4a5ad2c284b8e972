//! The label under which a callable's durations are filed.

use vstd::prelude::*;

verus! {

/// The label for a callable declared as `declared` whose caller asked for `custom`:
/// the caller's name where there is one and it is not empty, the declared name otherwise.
pub open spec fn resolved_label(custom: Option<Seq<char>>, declared: Seq<char>) -> Seq<char> {
    match custom {
        Some(name) => if name.len() > 0 { name } else { declared },
        None => declared,
    }
}

/// What an optional string slice holds, as an optional sequence of characters.
pub open spec fn optional_text(text: Option<&str>) -> Option<Seq<char>> {
    match text {
        Some(s) => Some(s@),
        None => None,
    }
}

/// Chooses the label for a callable: `custom` where it is given and not empty, else
/// `declared`.
pub fn resolve_label<'a>(custom: Option<&'a str>, declared: &'a str) -> (label: &'a str)
    ensures
        label@ == resolved_label(optional_text(custom), declared@),
{
    match custom {
        Some(name) => if name.is_empty() { declared } else { name },
        None => declared,
    }
}

} // verus!
