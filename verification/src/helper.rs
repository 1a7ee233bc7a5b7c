//! Test-support helpers.

use vstd::prelude::*;

use crate::errors::TokenFactoryError;
use crate::utils::{spec_contains_sub, str_contains};

verus! {

/// Take the error out of a result, checking that its message carries
/// an expected fragment.
pub trait UnwrapError {
    type Error;

    /// When the error may be taken out: the result is a failure whose
    /// message contains `text`.
    spec fn unwrap_err_req(&self, text: Seq<char>) -> bool;

    /// What the taken error is.
    spec fn unwrap_err_ensures(&self, r: &Self::Error) -> bool;

    fn unwrap_err_contains(self, text: &str) -> (r: Self::Error)
        requires
            self.unwrap_err_req(text@),
        ensures
            self.unwrap_err_ensures(&r),
    ;
}

impl<T> UnwrapError for Result<T, TokenFactoryError> {
    type Error = TokenFactoryError;

    open spec fn unwrap_err_req(&self, text: Seq<char>) -> bool {
        self matches Err(e) && spec_contains_sub(e.spec_text(), text)
    }

    open spec fn unwrap_err_ensures(&self, r: &TokenFactoryError) -> bool {
        self matches Err(e) && r == e
    }

    fn unwrap_err_contains(self, text: &str) -> (r: TokenFactoryError) {
        match self {
            Ok(_) => vstd::pervasive::unreached(),
            Err(e) => {
                let msg = e.text();
                if str_contains(msg.as_str(), text) {
                    e
                } else {
                    vstd::pervasive::unreached()
                }
            },
        }
    }
}

/// Check that two amounts differ by at most `delta`.
///
/// The check is discharged statically: a caller must show the bound,
/// so the call can never fail at run time.
pub fn assert_with_tollerance(val1: u128, val2: u128, delta: u128)
    requires
        val1 > val2 ==> val1 - val2 <= delta,
        val2 >= val1 ==> val2 - val1 <= delta,
{
    if val1 > val2 {
        assert(val1 - val2 <= delta);
    } else {
        assert(val2 - val1 <= delta);
    }
}

} // verus!
