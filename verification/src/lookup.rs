//! Lookups among the objects that carry a tag: whether an object is one of
//! them, and the rule for tags of which a frame expects exactly one object,
//! such as the active camera, the player and the window.

use vstd::prelude::*;

verus! {

/// Why a lookup that expects exactly one object failed.
#[derive(Clone, Copy, Debug, PartialEq, Eq, Structural)]
pub enum SingletonError {
    /// No object carries the tag.
    NoEntities,
    /// More than one object carries the tag.
    MultipleEntities,
}

/// The one object of `matches`, or the reason why there is none.
pub open spec fn single_of(matches: Seq<u64>) -> Result<u64, SingletonError> {
    if matches.len() == 0 {
        Err(SingletonError::NoEntities)
    } else if matches.len() == 1 {
        Ok(matches[0])
    } else {
        Err(SingletonError::MultipleEntities)
    }
}

/// Picks the object out of the list of those that carry a tag, when there is
/// exactly one.
pub fn get_single(matches: &Vec<u64>) -> (r: Result<u64, SingletonError>)
    ensures
        r == single_of(matches@),
{
    if matches.len() == 0 {
        Err(SingletonError::NoEntities)
    } else if matches.len() == 1 {
        Ok(matches[0])
    } else {
        Err(SingletonError::MultipleEntities)
    }
}

/// Whether `entity` is among the objects that carry a tag.
pub fn is_tagged(tagged: &Vec<u64>, entity: u64) -> (found: bool)
    ensures
        found == tagged@.contains(entity),
{
    let mut i: usize = 0;
    while i < tagged.len()
        invariant
            i <= tagged@.len(),
            forall|j: int| 0 <= j < i ==> tagged@[j] != entity,
        decreases tagged@.len() - i,
    {
        if tagged[i] == entity {
            return true;
        }
        i += 1;
    }
    false
}

} // verus!
