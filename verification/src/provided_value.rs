use vstd::prelude::*;

verus! {

/// A field of a partial update.
///
/// Leaving a field out of a request is different from setting it to an
/// empty value, so an update carries each field as either `Provided` with
/// the new value or `Unset` when the request did not mention it.
#[derive(Debug, Clone, Hash, PartialEq, Eq)]
pub enum ProvidedValue<T> {
    Provided(T),
    Unset,
}

/// The name under which request structures refer to a three-state field.
pub type Maybe<T> = ProvidedValue<T>;

impl<T> Default for ProvidedValue<T> {
    #[inline]
    fn default() -> (r: Self)
        ensures
            r is Unset,
    {
        ProvidedValue::Unset
    }
}

/// Which side of an anchor revision a ranged read extends to.
#[derive(Debug, Clone, Copy, PartialEq, Eq, Structural)]
pub enum FetchDirection {
    /// Revisions numbered at or below the anchor.
    Before,
    /// Revisions numbered at or above the anchor.
    After,
}

impl FetchDirection {
    /// The direction that a name stands for.
    pub open spec fn named(name: Seq<char>) -> Option<FetchDirection> {
        if name == "before"@ {
            Some(FetchDirection::Before)
        } else if name == "after"@ {
            Some(FetchDirection::After)
        } else {
            None
        }
    }

    /// Reads the name of a direction, `before` or `after`; any other text
    /// is no direction.
    pub fn from_name(name: &str) -> (r: Option<FetchDirection>)
        ensures
            r == Self::named(name@),
    {
        if crate::revision_model::str_equal(name, "before") {
            Some(FetchDirection::Before)
        } else if crate::revision_model::str_equal(name, "after") {
            Some(FetchDirection::After)
        } else {
            None
        }
    }
}

} // verus!
