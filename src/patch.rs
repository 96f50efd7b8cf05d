//! A value for patching an optional field.

use vstd::prelude::*;

verus! {

/// A special type for patching values: it tells a field that was left alone
/// from one that is to be unset and from one that is to be changed.
#[derive(Clone, Debug, PartialEq, Eq)]
pub enum Patch<T> {
    /// No data: the field is left as it is.
    Untouched,
    /// The field should be unset.
    Cleared,
    /// The field should be changed to this.
    SetTo(T),
}

impl<T> Patch<T> {
    /// Whether the field is left as it is.
    pub fn is_none(&self) -> (r: bool)
        ensures
            r == (*self matches Patch::Untouched),
    {
        matches!(self, Patch::Untouched)
    }

    /// Whether the field should be unset.
    pub fn is_null(&self) -> (r: bool)
        ensures
            r == (*self matches Patch::Cleared),
    {
        matches!(self, Patch::Cleared)
    }

    /// Whether the field should be changed.
    pub fn is_some(&self) -> (r: bool)
        ensures
            r == (*self matches Patch::SetTo(_)),
    {
        matches!(self, Patch::SetTo(_))
    }

    /// The value as it is written out: nothing for a field that is left
    /// alone or unset, the new value for one that is changed.
    pub fn as_option(&self) -> (r: Option<&T>)
        ensures
            match *self {
                Patch::SetTo(v) => r == Some(&v),
                _ => r is None,
            },
    {
        match self {
            Patch::SetTo(v) => Some(v),
            _ => None,
        }
    }
}

impl<T> Default for Patch<T> {
    /// A patch leaves its field alone unless told otherwise.
    fn default() -> (r: Self)
        ensures
            r matches Patch::Untouched,
    {
        Patch::Untouched
    }
}

/// The patch that a plain optional value stands for: a missing value unsets
/// the field, a present one changes it.
pub open spec fn patch_of<T>(o: Option<T>) -> Patch<T> {
    match o {
        Some(v) => Patch::SetTo(v),
        None => Patch::Cleared,
    }
}

impl<T> From<Option<T>> for Patch<T> {
    fn from(o: Option<T>) -> (r: Patch<T>) {
        match o {
            Some(v) => Patch::SetTo(v),
            None => Patch::Cleared,
        }
    }
}

impl<T> vstd::std_specs::convert::FromSpecImpl<Option<T>> for Patch<T> {
    open spec fn obeys_from_spec() -> bool {
        true
    }

    open spec fn from_spec(o: Option<T>) -> Patch<T> {
        patch_of(o)
    }
}

} // verus!
