//! Address checks the dispatcher makes before touching the core.
//!
//! The validity rule is a surface heuristic, not a full grammar: an address
//! looks valid when it has a non-empty local part, then `@`, then a domain
//! that is non-empty and contains a dot. A malformed address is rejected as
//! `InvalidInput` before any core operation runs. The provider lookup keys
//! on the text after the last `@`, or the whole string when there is none,
//! so a bare domain can be passed in an address's place.

use vstd::prelude::*;

verus! {

/// The position of the last `@` in `s`, if any.
pub open spec fn last_at(s: Seq<char>) -> Option<int>
    decreases s.len(),
{
    if s.len() == 0 {
        None
    } else if s.last() == '@' {
        Some(s.len() - 1)
    } else {
        last_at(s.drop_last())
    }
}

/// The text a provider lookup keys on: everything after the last `@`, or
/// the whole string when there is no `@`.
pub open spec fn spec_domain_part(s: Seq<char>) -> Seq<char> {
    match last_at(s) {
        Some(i) => s.subrange(i + 1, s.len() as int),
        None => s,
    }
}

/// Whether `s` looks like a valid address: non-empty local part, `@`, and
/// a domain that is non-empty and contains a dot.
pub open spec fn spec_valid_addr(s: Seq<char>) -> bool {
    match last_at(s) {
        Some(i) => i > 0 && i + 1 < s.len() && exists|d: int| i < d < s.len() && s[d] == '.',
        None => false,
    }
}

/// The position of the last `@` in `email`.
fn find_last_at(email: &str) -> (r: Option<usize>)
    ensures
        match r {
            Some(i) => i < email@.len() && last_at(email@) == Some(i as int),
            None => last_at(email@) is None,
        },
{
    let n = email.unicode_len();
    let mut i: usize = n;
    proof {
        assert(email@.take(i as int) =~= email@);
    }
    while i > 0
        invariant
            n == email@.len(),
            i <= n,
            last_at(email@) == last_at(email@.take(i as int)),
        decreases i,
    {
        i = i - 1;
        proof {
            assert(email@.take(i + 1 as int).drop_last() =~= email@.take(i as int));
            assert(email@.take(i + 1 as int).last() == email@[i as int]);
        }
        if email.get_char(i) == '@' {
            return Some(i);
        }
    }
    None
}

/// Checks whether an address looks valid, by the documented rule.
pub fn check_email_validity(email: &str) -> (r: bool)
    ensures
        r == spec_valid_addr(email@),
{
    let n = email.unicode_len();
    let at = match find_last_at(email) {
        None => {
            return false;
        },
        Some(i) => i,
    };
    if at == 0 || at + 1 >= n {
        return false;
    }
    let mut d: usize = at + 1;
    while d < n
        invariant
            n == email@.len(),
            0 < at,
            at + 1 < n,
            at < d <= n,
            last_at(email@) == Some(at as int),
            forall|m: int| at < m < d ==> email@[m] != '.',
        decreases n - d,
    {
        if email.get_char(d) == '.' {
            proof {
                assert(spec_valid_addr(email@)) by {
                    assert(email@[d as int] == '.');
                }
            }
            return true;
        }
        d = d + 1;
    }
    false
}

/// Extracts the provider-lookup key from an address: the text after the
/// last `@`, or the whole string when there is no `@`.
pub fn domain_part(email: &str) -> (r: String)
    ensures
        r@ == spec_domain_part(email@),
{
    let n = email.unicode_len();
    match find_last_at(email) {
        Some(i) => {
            let tail = email.substring_char(i + 1, n);
            tail.to_owned()
        },
        None => email.to_owned(),
    }
}

} // verus!
