//! Assertion helpers for driving the dispatcher from a test harness.

use vstd::prelude::*;

use crate::errors::{DispatchError, TokenFactoryError};
use crate::utils::{spec_contains_sub, str_contains};

verus! {

/// Take the error out of a dispatch result, checking that its message
/// carries an expected fragment.
pub trait UnwrapError {
    type Error;

    /// When the error may be taken out: the result is a failure whose
    /// message contains `text`.
    spec fn unwrap_err_req(&self, text: Seq<char>) -> bool;

    /// What the taken error is.
    spec fn unwrap_err_ensures(&self, r: &Self::Error) -> bool;

    fn unwrap_err_contains(self, text: &str) -> (r: Self::Error)
        requires
            self.unwrap_err_req(text@),
        ensures
            self.unwrap_err_ensures(&r),
    ;
}

impl<T> UnwrapError for Result<T, DispatchError<TokenFactoryError>> {
    type Error = DispatchError<TokenFactoryError>;

    open spec fn unwrap_err_req(&self, text: Seq<char>) -> bool {
        self matches Err(e) && spec_contains_sub(e.spec_text(), text)
    }

    open spec fn unwrap_err_ensures(&self, r: &DispatchError<TokenFactoryError>) -> bool {
        self matches Err(e) && r == e
    }

    fn unwrap_err_contains(self, text: &str) -> (r: DispatchError<TokenFactoryError>) {
        match self {
            Ok(_) => vstd::pervasive::unreached(),
            Err(e) => {
                let msg = e.text();
                if str_contains(msg.as_str(), text) {
                    e
                } else {
                    vstd::pervasive::unreached()
                }
            },
        }
    }
}

} // verus!
