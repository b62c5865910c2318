//! The text form in which a hashed password is stored: `#<scheme>#<hashed>`.
//!
//! The scheme name is a run of word characters. What follows the second `#`
//! is the hashed password: it belongs to the scheme and is never looked into
//! here, so it may itself hold `#`. It holds no line feed.

use vstd::prelude::*;
use vstd::string::StringExecFns;

use super::error::Error;
use crate::utils::text::chars_of;

verus! {

/// Whether `regex_syntax::is_word_character` holds of `c`.
pub uninterp spec fn word_char(c: char) -> bool;

/// Calls `regex_syntax::is_word_character`, which tells whether a character
/// is a Unicode word character: alphabetic, a mark, a decimal number,
/// connector punctuation or a join control. The contract only names the
/// answer. The call needs the crate's `unicode-perl` tables, which its default
/// features bring.
#[verifier::external_body]
fn is_word_character(c: char) -> (r: bool)
    ensures
        r == word_char(c),
{
    regex_syntax::is_word_character(c)
}

/// The word characters of ASCII: digits, letters and the underscore.
pub open spec fn is_ascii_word(c: char) -> bool {
    ||| '0' <= c <= '9'
    ||| 'a' <= c <= 'z'
    ||| 'A' <= c <= 'Z'
    ||| c == '_'
}

/// A character that may stand in a scheme name: a word character. Within
/// ASCII these are the digits, the letters and the underscore, so `#` is
/// none; beyond ASCII they are what Unicode takes for one.
pub open spec fn is_scheme_char(c: char) -> bool {
    if c <= '\u{7f}' {
        is_ascii_word(c)
    } else {
        word_char(c)
    }
}

/// A scheme name is one word character or more.
pub open spec fn is_scheme_name(name: Seq<char>) -> bool {
    &&& name.len() > 0
    &&& forall|i: int| 0 <= i < name.len() ==> is_scheme_char(#[trigger] name[i])
}

/// A hashed password is any text on one line. It may be empty.
pub open spec fn is_hashed(hashed: Seq<char>) -> bool {
    forall|i: int| 0 <= i < hashed.len() ==> #[trigger] hashed[i] != '\n'
}

/// The stored text for a scheme name and a hashed password.
pub open spec fn stored_form(name: Seq<char>, hashed: Seq<char>) -> Seq<char> {
    seq!['#'] + name + seq!['#'] + hashed
}

/// The first position at or after `from` that holds no scheme character: the
/// length of `s` if there is none.
pub open spec fn name_end(s: Seq<char>, from: int) -> int
    decreases s.len() - from,
{
    if 0 <= from < s.len() && is_scheme_char(s[from]) {
        name_end(s, from + 1)
    } else {
        from
    }
}

/// The scheme name and the hashed password that `s` stores, if it stores any.
pub open spec fn parse_stored(s: Seq<char>) -> Option<(Seq<char>, Seq<char>)> {
    let end = name_end(s, 1);
    if s.len() > 0 && s[0] == '#' && 1 < end < s.len() && s[end] == '#' && is_hashed(
        s.skip(end + 1),
    ) {
        Some((s.subrange(1, end), s.skip(end + 1)))
    } else {
        None
    }
}

/// `name_end` lies between `from` and the end of `s`; all that it passes over
/// are scheme characters, and what it stops at is none.
pub proof fn lemma_name_end(s: Seq<char>, from: int)
    requires
        0 <= from <= s.len(),
    ensures
        from <= name_end(s, from) <= s.len(),
        forall|i: int| from <= i < name_end(s, from) ==> is_scheme_char(#[trigger] s[i]),
        name_end(s, from) < s.len() ==> !is_scheme_char(s[name_end(s, from)]),
    decreases s.len() - from,
{
    if from < s.len() && is_scheme_char(s[from]) {
        lemma_name_end(s, from + 1);
    }
}

/// Where a run of scheme characters ends at `end`, `name_end` finds `end`
/// from anywhere in the run.
pub proof fn lemma_name_end_of_run(s: Seq<char>, from: int, end: int)
    requires
        0 <= from <= end <= s.len(),
        forall|i: int| from <= i < end ==> is_scheme_char(#[trigger] s[i]),
        end < s.len() ==> !is_scheme_char(s[end]),
    ensures
        name_end(s, from) == end,
    decreases end - from,
{
    if from < end {
        lemma_name_end_of_run(s, from + 1, end);
    }
}

/// Reading back what was written gives what was written: for every scheme
/// name and every hashed password, `parse_stored` of their `stored_form` is
/// that pair again.
pub proof fn lemma_round_trip(name: Seq<char>, hashed: Seq<char>)
    requires
        is_scheme_name(name),
        is_hashed(hashed),
    ensures
        parse_stored(stored_form(name, hashed)) == Some((name, hashed)),
{
    let s = stored_form(name, hashed);
    let end: int = (name.len() + 1) as int;
    assert(s.len() == name.len() + hashed.len() + 2);
    assert(s[0] == '#');
    assert(s[end] == '#');
    assert forall|i: int| 1 <= i < end implies is_scheme_char(#[trigger] s[i]) by {
        assert(s[i] == name[i - 1]);
    }
    lemma_name_end_of_run(s, 1, end);
    assert(s.subrange(1, end) =~= name);
    assert(s.skip(end + 1) =~= hashed);
}

/// `parse_stored` finds a pair exactly where `s` is the stored form of a
/// scheme name and a hashed password, and then it finds that pair: no text
/// stores two pairs, and none is read in part.
pub proof fn lemma_parse_stored_is_the_grammar(s: Seq<char>)
    ensures
        match parse_stored(s) {
            Some((name, hashed)) => is_scheme_name(name) && is_hashed(hashed) && s == stored_form(
                name,
                hashed,
            ),
            None => forall|name: Seq<char>, hashed: Seq<char>|
                is_scheme_name(name) && is_hashed(hashed) ==> s != #[trigger] stored_form(
                    name,
                    hashed,
                ),
        },
{
    match parse_stored(s) {
        Some((name, hashed)) => {
            let end = name_end(s, 1);
            lemma_name_end(s, 1);
            assert forall|i: int| 0 <= i < name.len() implies is_scheme_char(
                #[trigger] name[i],
            ) by {
                assert(name[i] == s[i + 1]);
            }
            assert(s =~= stored_form(name, hashed));
        },
        None => {
            assert forall|name: Seq<char>, hashed: Seq<char>|
                is_scheme_name(name) && is_hashed(hashed) implies s != #[trigger] stored_form(
                name,
                hashed,
            ) by {
                lemma_round_trip(name, hashed);
            }
        },
    }
}

/// Whether `c` may stand in a scheme name.
pub fn scheme_char(c: char) -> (r: bool)
    ensures
        r == is_scheme_char(c),
{
    if c <= '\u{7f}' {
        ('0' <= c && c <= '9') || ('a' <= c && c <= 'z') || ('A' <= c && c <= 'Z') || c == '_'
    } else {
        is_word_character(c)
    }
}

/// A stored password, taken apart.
pub struct PwdParts {
    /// The scheme only (e.g., "01")
    pub scheme_name: String,
    /// The hashed password,
    pub hashed: String,
}

impl PwdParts {
    /// Takes a stored password apart. Text that is not the stored form of a
    /// scheme name and a hashed password is refused as a whole.
    pub fn from_str(pwd_with_scheme: &str) -> (res: Result<PwdParts, Error>)
        ensures
            match res {
                Ok(parts) => parse_stored(pwd_with_scheme@) == Some(
                    (parts.scheme_name@, parts.hashed@),
                ),
                Err(e) => parse_stored(pwd_with_scheme@) is None
                    && e@ == super::error::ErrorView::PassWithSchemeFailedToParse,
            },
    {
        let chars = chars_of(pwd_with_scheme);
        let n = chars.len();
        if n == 0 || chars[0] != '#' {
            return Err(Error::PassWithSchemeFailedToParse);
        }
        let mut end: usize = 1;
        while end < n && scheme_char(chars[end])
            invariant
                1 <= end <= n,
                n == chars@.len(),
                forall|i: int| 1 <= i < end ==> is_scheme_char(#[trigger] chars@[i]),
            decreases n - end,
        {
            end += 1;
        }
        proof {
            lemma_name_end_of_run(chars@, 1, end as int);
        }
        if end == 1 || end == n || chars[end] != '#' {
            return Err(Error::PassWithSchemeFailedToParse);
        }
        let start = end + 1;
        let mut i: usize = start;
        while i < n
            invariant
                start <= i <= n,
                n == chars@.len(),
                chars@ == pwd_with_scheme@,
                name_end(chars@, 1) + 1 == start,
                forall|k: int| start <= k < i ==> #[trigger] chars@[k] != '\n',
            decreases n - i,
        {
            if chars[i] == '\n' {
                proof {
                    assert(chars@.skip(start as int)[i - start] == '\n');
                }
                return Err(Error::PassWithSchemeFailedToParse);
            }
            i += 1;
        }
        let scheme_name = pwd_with_scheme.substring_char(1, end).to_owned();
        let hashed = pwd_with_scheme.substring_char(start, n).to_owned();
        proof {
            assert(chars@.subrange(start as int, n as int) =~= chars@.skip(start as int));
        }
        Ok(PwdParts { scheme_name, hashed })
    }

    /// Puts the parts together again, as `encode` does.
    pub fn to_stored(&self) -> (s: String)
        ensures
            s@ == stored_form(self.scheme_name@, self.hashed@),
    {
        encode(self.scheme_name.as_str(), self.hashed.as_str())
    }
}

/// The stored text for a scheme name and a hashed password. Nothing is
/// escaped.
pub fn encode(scheme_name: &str, hashed: &str) -> (s: String)
    ensures
        s@ == stored_form(scheme_name@, hashed@),
{
    let mut s = String::from_str("#");
    s.append(scheme_name);
    s.append("#");
    s.append(hashed);
    proof {
        reveal_strlit("#");
        assert("#"@ =~= seq!['#']);
    }
    s
}

} // verus!
