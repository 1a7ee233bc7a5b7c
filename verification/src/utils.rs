//! Small standalone helpers: an update wrapper for optional fields, a
//! vector-to-indexed-map conversion and a checked decimal parser for
//! unsigned amounts carried as strings.

use std::collections::HashMap;

use vstd::prelude::*;

verus! {

broadcast use vstd::std_specs::hash::group_hash_axioms;

/// An update instruction for an optional field: either clear it or set
/// it to a value.
#[derive(Debug, Clone, PartialEq, Eq)]
pub enum UpdateOption<T> {
    ToNone,
    ToSome(T),
}

impl<T: Clone> UpdateOption<T> {
    pub fn into_option(&self) -> (r: Option<T>)
        ensures
            (r is Some) == (self is ToSome),
            self matches UpdateOption::ToSome(t) ==> (r matches Some(c) && vstd::pervasive::cloned(
                *t,
                c,
            )),
    {
        match self {
            UpdateOption::ToNone => None,
            UpdateOption::ToSome(t) => Some(t.clone()),
        }
    }

    pub fn unwrap(self) -> (r: T)
        requires
            self is ToSome,
        ensures
            self matches UpdateOption::ToSome(t) ==> r == t,
    {
        match self {
            UpdateOption::ToNone => vstd::pervasive::unreached(),
            UpdateOption::ToSome(val) => val,
        }
    }
}

/// Turn a `Vec<T>` into a `HashMap<usize, T>` keyed by each element's
/// index.
pub fn vec_to_i_hashmap<T>(vec: Vec<T>) -> (m: HashMap<usize, T>)
    ensures
        m@.dom() =~= Set::new(|i: usize| i < vec@.len()),
        forall|i: usize| i < vec@.len() ==> #[trigger] m@[i] == vec@[i as int],
{
    let mut m: HashMap<usize, T> = HashMap::new();
    let n: usize = vec.len();
    let ghost all = vec@;
    let mut vec = vec;
    let mut i: usize = n;
    while i > 0
        invariant
            n == all.len(),
            i <= n,
            vec@ == all.take(i as int),
            m@.dom() =~= Set::new(|j: usize| i <= j < all.len()),
            forall|j: usize| i <= j < all.len() ==> #[trigger] m@[j] == all[j as int],
        decreases i,
    {
        let t = vec.pop().unwrap();
        i = i - 1;
        proof {
            assert(all.take((i + 1) as int).drop_last() =~= all.take(i as int));
            assert(all.take((i + 1) as int).last() == all[i as int]);
        }
        m.insert(i, t);
        proof {
            assert(m@.dom() =~= Set::new(|j: usize| i <= j < all.len()));
        }
    }
    proof {
        assert(m@.dom() =~= Set::new(|j: usize| j < all.len()));
    }
    m
}

/// Wrap any value in `Ok`.
pub trait WrapOk: Sized {
    /// Wrap `self` into `Ok(self)`.
    fn wrap_ok<E>(self) -> (r: Result<Self, E>)
        ensures
            r == Result::<Self, E>::Ok(self),
    {
        Ok(self)
    }
}

impl<T> WrapOk for T {

}

/// Wrap any value in `Some`.
pub trait WrapOption: Sized {
    fn wrap_some(self) -> (r: Option<Self>)
        ensures
            r == Option::Some(self),
    {
        Some(self)
    }
}

impl<T> WrapOption for T {

}

/// `sub` occurs in `s` starting at position `i`.
pub open spec fn is_substring_at(s: Seq<char>, sub: Seq<char>, i: int) -> bool {
    0 <= i && i + sub.len() <= s.len() && s.subrange(i, i + sub.len()) == sub
}

/// `sub` occurs somewhere in `s`.
pub open spec fn spec_contains_sub(s: Seq<char>, sub: Seq<char>) -> bool {
    exists|i: int| is_substring_at(s, sub, i)
}

/// Does `sub` occur at position `i` of `s`?
fn match_at(s: &str, sub: &str, i: usize, n: usize, m: usize) -> (r: bool)
    requires
        n == s@.len(),
        m == sub@.len(),
        i + m <= n,
    ensures
        r == is_substring_at(s@, sub@, i as int),
{
    let mut k: usize = 0;
    while k < m
        invariant
            n == s@.len(),
            m == sub@.len(),
            i + m <= n,
            k <= m,
            forall|t: int| 0 <= t < k ==> s@[i + t] == sub@[t],
        decreases m - k,
    {
        if s.get_char(i + k) != sub.get_char(k) {
            proof {
                assert(s@.subrange(i as int, i + m as int)[k as int] == s@[i + k]);
                assert(s@.subrange(i as int, i + m as int) != sub@);
            }
            return false;
        }
        k = k + 1;
    }
    proof {
        assert(s@.subrange(i as int, i + m as int) =~= sub@);
    }
    true
}

/// Whether the string `sub` occurs as a contiguous substring of `s`.
pub fn str_contains(s: &str, sub: &str) -> (r: bool)
    ensures
        r == spec_contains_sub(s@, sub@),
{
    let n: usize = s.unicode_len();
    let m: usize = sub.unicode_len();
    if m > n {
        proof {
            assert forall|i: int| !is_substring_at(s@, sub@, i) by {}
        }
        return false;
    }
    if m == 0 {
        proof {
            assert(s@.subrange(0, 0) =~= sub@);
            assert(is_substring_at(s@, sub@, 0));
        }
        return true;
    }
    let mut i: usize = 0;
    while i <= n - m
        invariant
            n == s@.len(),
            m == sub@.len(),
            1 <= m <= n,
            i <= n - m + 1,
            forall|j: int| 0 <= j < i ==> !is_substring_at(s@, sub@, j),
        decreases n - m - i + 1,
    {
        if match_at(s, sub, i, n, m) {
            return true;
        }
        i = i + 1;
    }
    proof {
        assert forall|j: int| !is_substring_at(s@, sub@, j) by {
            if 0 <= j <= n - m {
                assert(!is_substring_at(s@, sub@, j));
            }
        }
    }
    false
}

/// Is `c` a decimal digit?
pub open spec fn is_digit(c: char) -> bool {
    48 <= (c as u32) <= 57
}

/// Numeric value of a digit character.
pub open spec fn digit_val(c: char) -> nat {
    ((c as u32) - 48) as nat
}

/// Are all characters of `s` decimal digits?
pub open spec fn all_digits(s: Seq<char>) -> bool {
    forall|i: int| 0 <= i < s.len() ==> is_digit(#[trigger] s[i])
}

/// Value of a digit string, most significant digit first.
pub open spec fn digits_val(s: Seq<char>) -> nat
    decreases s.len(),
{
    if s.len() == 0 {
        0
    } else {
        digits_val(s.drop_last()) * 10 + digit_val(s.last())
    }
}

/// A digit string is worth at least any of its prefixes.
proof fn lemma_digits_val_prefix(s: Seq<char>, m: int)
    requires
        0 <= m <= s.len(),
    ensures
        digits_val(s) >= digits_val(s.take(m)),
    decreases s.len() - m,
{
    if m < s.len() {
        lemma_digits_val_prefix(s, m + 1);
        assert(s.take(m + 1).drop_last() =~= s.take(m));
        assert(digits_val(s.take(m + 1)) == digits_val(s.take(m)) * 10 + digit_val(
            s.take(m + 1).last(),
        ));
    } else {
        assert(s.take(m) =~= s);
    }
}

/// The number a digit string denotes, when the string is non-empty,
/// all digits, and the value fits in a `u128`.
pub open spec fn spec_parse_u128(s: Seq<char>) -> Option<u128> {
    if s.len() > 0 && all_digits(s) && digits_val(s) <= u128::MAX {
        Some(digits_val(s) as u128)
    } else {
        None
    }
}

/// Parse an unsigned decimal amount, rejecting anything but a
/// non-empty all-digit string whose value fits.
pub fn parse_u128(s: &str) -> (r: Option<u128>)
    ensures
        r == spec_parse_u128(s@),
{
    let n: usize = s.unicode_len();
    if n == 0 {
        return None;
    }
    let mut acc: u128 = 0;
    let mut i: usize = 0;
    while i < n
        invariant
            n == s@.len(),
            0 < n,
            i <= n,
            all_digits(s@.take(i as int)),
            acc == digits_val(s@.take(i as int)),
        decreases n - i,
    {
        let c = s.get_char(i);
        let cv = c as u32;
        proof {
            assert(s@.take((i + 1) as int).drop_last() =~= s@.take(i as int));
            assert(s@.take((i + 1) as int).last() == s@[i as int]);
        }
        if cv < 48 || cv > 57 {
            proof {
                assert(!is_digit(s@[i as int]));
                assert(!all_digits(s@));
            }
            return None;
        }
        let d = (cv - 48) as u128;
        let next = match acc.checked_mul(10) {
            Some(t) => t.checked_add(d),
            None => None,
        };
        match next {
            Some(v) => {
                acc = v;
            },
            None => {
                proof {
                    assert(digits_val(s@.take((i + 1) as int)) > u128::MAX);
                    if all_digits(s@) {
                        lemma_digits_val_prefix(s@, i + 1);
                    }
                }
                return None;
            },
        }
        i = i + 1;
    }
    proof {
        assert(s@.take(n as int) =~= s@);
    }
    Some(acc)
}

} // verus!
