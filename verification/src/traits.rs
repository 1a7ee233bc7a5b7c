//! Small ergonomic traits: wrapping values into `Ok`/`Some`, taking a
//! value out of an `Option` it was cloned into, and bounding an
//! optional value from above.

use vstd::prelude::*;

verus! {

/// Bound an optional value from above by `with`.
pub trait MapMin {
    type Output;

    type Input;

    fn map_min(&self, with: Self::Input) -> Self::Output;
}

impl MapMin for Option<u128> {
    type Output = Option<u128>;

    type Input = u128;

    fn map_min(&self, with: u128) -> (r: Option<u128>)
        ensures
            r == (match *self {
                Some(v) => Some(if v < with {
                    v
                } else {
                    with
                }),
                None => None::<u128>,
            }),
    {
        match self {
            Some(v) => Some(
                if *v < with {
                    *v
                } else {
                    with
                },
            ),
            None => None,
        }
    }
}

/// Take a copy of the value out of a container without consuming it.
pub trait Unclone {
    type Output;

    /// When the value may be taken out.
    spec fn unclone_req(&self) -> bool;

    /// What the taken value is.
    spec fn unclone_ensures(&self, r: Self::Output) -> bool;

    fn unclone(&self) -> (r: Self::Output)
        requires
            self.unclone_req(),
        ensures
            self.unclone_ensures(r),
    ;
}

impl<T: Clone> Unclone for Option<T> {
    type Output = T;

    open spec fn unclone_req(&self) -> bool {
        self is Some
    }

    open spec fn unclone_ensures(&self, r: T) -> bool {
        self matches Some(t) ==> vstd::pervasive::cloned(*t, r)
    }

    fn unclone(&self) -> (r: T) {
        match self {
            Some(t) => t.clone(),
            None => vstd::pervasive::unreached(),
        }
    }
}

/// Wrap a value into the success case of a `Result` or an `Option`.
pub trait Wrapper: Sized {
    /// Wrap `self` into `Ok(self)`.
    fn wrap_ok<E>(self) -> (r: Result<Self, E>)
        ensures
            r == Result::<Self, E>::Ok(self),
    {
        Ok(self)
    }

    /// Wrap `self` into `Some(self)`.
    fn wrap_some(self) -> (r: Option<Self>)
        ensures
            r == Option::Some(self),
    {
        Some(self)
    }
}

impl<T> Wrapper for T {

}

} // verus!
