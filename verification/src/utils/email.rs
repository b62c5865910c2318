//! Mail addresses.
//!
//! An address is taken for valid where it reads `local@domain`: neither part
//! holds white space or another `@`, the local part is not empty, and the
//! domain holds a dot with something before it and something after it.

use vstd::prelude::*;

use super::text::chars_of;

verus! {

/// Whether `char::is_whitespace` holds of `c`.
pub uninterp spec fn white_space(c: char) -> bool;

/// Calls `char::is_whitespace`, which tells whether a character has the
/// `White_Space` property of Unicode. The contract only names the answer.
#[verifier::external_body]
fn is_whitespace(c: char) -> (r: bool)
    ensures
        r == white_space(c),
{
    c.is_whitespace()
}

/// The white space of ASCII: the space, and the controls from the tab to the
/// carriage return.
pub open spec fn is_ascii_space(c: char) -> bool {
    c == ' ' || '\t' <= c <= '\r'
}

/// White space: within ASCII as above, beyond it what Unicode takes for it.
pub open spec fn is_space(c: char) -> bool {
    if c <= '\u{7f}' {
        is_ascii_space(c)
    } else {
        white_space(c)
    }
}

/// A character that may stand in either part of an address: anything but
/// white space and `@`.
pub open spec fn is_plain(c: char) -> bool {
    c != '@' && !is_space(c)
}

/// Whether all of `s` from `from` up to `to` may stand in a part of an
/// address.
pub open spec fn all_plain(s: Seq<char>, from: int, to: int) -> bool {
    forall|i: int| from <= i < to ==> is_plain(#[trigger] s[i])
}

/// Whether `s` reads as an address with its `@` at `at` and a dot of its
/// domain at `dot`.
pub open spec fn is_email_at(s: Seq<char>, at: int, dot: int) -> bool {
    &&& 0 < at
    &&& at + 1 < dot
    &&& dot + 1 < s.len()
    &&& s[at] == '@'
    &&& s[dot] == '.'
    &&& all_plain(s, 0, at)
    &&& all_plain(s, at + 1, s.len() as int)
}

/// Whether `s` reads as an address.
pub open spec fn is_email(s: Seq<char>) -> bool {
    exists|at: int, dot: int| is_email_at(s, at, dot)
}

/// Whether `c` may stand in a part of an address.
pub fn plain(c: char) -> (r: bool)
    ensures
        r == is_plain(c),
{
    if c == '@' {
        false
    } else if c <= '\u{7f}' {
        !(c == ' ' || ('\t' <= c && c <= '\r'))
    } else {
        !is_whitespace(c)
    }
}

/// Whether `email` reads as an address.
pub fn is_valid_email(email: &str) -> (valid: bool)
    ensures
        valid == is_email(email@),
{
    let chars = chars_of(email);
    let n = chars.len();
    // the local part
    let mut at: usize = 0;
    while at < n && plain(chars[at])
        invariant
            at <= n,
            n == chars@.len(),
            all_plain(chars@, 0, at as int),
        decreases n - at,
    {
        at += 1;
    }
    if at == 0 || at == n || chars[at] != '@' {
        proof {
            assert forall|a: int, d: int| !is_email_at(chars@, a, d) by {
                if is_email_at(chars@, a, d) {
                    // the `@` is where the local part ends
                    if a < at {
                        assert(is_plain(chars@[a]));
                    } else if a > at {
                        assert(is_plain(chars@[at as int]));
                    }
                }
            }
        }
        return false;
    }
    // the domain
    let start = at + 1;
    let mut i: usize = start;
    while i < n
        invariant
            start <= i <= n,
            start == at + 1,
            n == chars@.len(),
            chars@ == email@,
            chars@[at as int] == '@',
            all_plain(chars@, 0, at as int),
            all_plain(chars@, start as int, i as int),
        decreases n - i,
    {
        if !plain(chars[i]) {
            proof {
                assert forall|a: int, d: int| !is_email_at(chars@, a, d) by {
                    if is_email_at(chars@, a, d) {
                        if a < i {
                            assert(is_plain(chars@[i as int]));
                        } else {
                            assert(is_plain(chars@[at as int]));
                        }
                    }
                }
            }
            return false;
        }
        i += 1;
    }
    let valid = has_inner_dot(&chars, start);
    proof {
        if valid {
            let d = choose|d: int| start < d < chars@.len() - 1 && chars@[d] == '.';
            assert(is_email_at(chars@, at as int, d));
        } else {
            assert forall|a: int, d: int| !is_email_at(chars@, a, d) by {
                if is_email_at(chars@, a, d) {
                    if a < at {
                        assert(is_plain(chars@[a]));
                    } else if a > at {
                        assert(is_plain(chars@[at as int]));
                    }
                    assert(a == at);
                }
            }
        }
    }
    valid
}

/// Whether a dot stands after the first and before the last of what follows
/// `start`.
fn has_inner_dot(chars: &Vec<char>, start: usize) -> (found: bool)
    requires
        start <= chars@.len(),
    ensures
        found == exists|d: int| start < d < chars@.len() - 1 && chars@[d] == '.',
{
    let n = chars.len();
    if n < 2 || start >= n - 2 {
        return false;
    }
    let mut i: usize = start + 1;
    while i < n - 1
        invariant
            start < i <= n - 1,
            n == chars@.len(),
            forall|k: int| start < k < i ==> #[trigger] chars@[k] != '.',
        decreases n - i,
    {
        if chars[i] == '.' {
            return true;
        }
        i += 1;
    }
    false
}

} // verus!
