//! Access to a value as the session allows it: to change, or only to read.

use vstd::prelude::*;
use crate::session::AuthLevel;

verus! {

/// A borrowed value together with the right to change it, or without.
pub enum ValueRef<'a, T> {
    Editable(&'a mut T),
    Readonly(&'a T),
}

impl<'a, T> ValueRef<'a, T> {
    /// Hands out `value` as the level allows: to be changed under `Modify`,
    /// to be read only under `View`.
    pub fn for_level(level: AuthLevel, value: &'a mut T) -> (access: ValueRef<'a, T>)
        ensures
            match access {
                ValueRef::Editable(target) => level == AuthLevel::Modify && *target == *old(value) && *final(value)
                    == *final(target),
                ValueRef::Readonly(source) => level == AuthLevel::View && *source == *old(value) && *final(value)
                    == *old(value),
            },
    {
        match level {
            AuthLevel::Modify => ValueRef::Editable(value),
            AuthLevel::View => ValueRef::Readonly(value),
        }
    }

    /// Whether the value may be changed through this access.
    pub fn is_editable(&self) -> (editable: bool)
        ensures
            editable == (*self is Editable),
    {
        match self {
            ValueRef::Editable(_) => true,
            ValueRef::Readonly(_) => false,
        }
    }
}

} // verus!
