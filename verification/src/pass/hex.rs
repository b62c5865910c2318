//! Bytes written as text, two lower-case hexadecimal digits each.

use vstd::prelude::*;
use vstd::string::StringExecFns;
use vstd::string::StrSliceExecFns;

use super::parts::is_hashed;

verus! {

/// The sixteen digits, in order of their value.
pub const HEX_DIGITS: &'static str = "0123456789abcdef";

/// The digit for a value below sixteen.
pub open spec fn hex_digit(n: int) -> char {
    HEX_DIGITS@[n]
}

/// The text for `bytes`: for each byte its high digit, then its low one.
pub open spec fn hex_of(bytes: Seq<u8>) -> Seq<char> {
    Seq::new(
        2 * bytes.len(),
        |i: int|
            if i % 2 == 0 {
                hex_digit(bytes[i / 2] as int / 16)
            } else {
                hex_digit(bytes[i / 2] as int % 16)
            },
    )
}

/// The sixteen digits are distinct, and none is `#` or a line feed.
pub proof fn lemma_hex_digits()
    ensures
        HEX_DIGITS@.len() == 16,
        forall|m: int, n: int|
            0 <= m < 16 && 0 <= n < 16 && #[trigger] hex_digit(m) == #[trigger] hex_digit(n)
                ==> m == n,
        forall|n: int| 0 <= n < 16 ==> #[trigger] hex_digit(n) != '\n' && hex_digit(n) != '#',
        vstd::utf8::is_ascii_chars(HEX_DIGITS@),
{
    reveal_strlit("0123456789abcdef");
}

/// Different bytes give different text.
pub proof fn lemma_hex_of_injective(a: Seq<u8>, b: Seq<u8>)
    requires
        hex_of(a) == hex_of(b),
    ensures
        a == b,
{
    lemma_hex_digits();
    assert(hex_of(a).len() == 2 * a.len());
    assert(hex_of(b).len() == 2 * b.len());
    assert(a.len() == b.len());
    assert forall|i: int| 0 <= i < a.len() implies a[i] == b[i] by {
        assert(hex_of(a)[2 * i] == hex_of(b)[2 * i]);
        assert(hex_of(a)[2 * i + 1] == hex_of(b)[2 * i + 1]);
        assert(hex_of(a)[2 * i] == hex_digit(a[i] as int / 16));
        assert(hex_of(b)[2 * i] == hex_digit(b[i] as int / 16));
        assert(hex_of(a)[2 * i + 1] == hex_digit(a[i] as int % 16));
        assert(hex_of(b)[2 * i + 1] == hex_digit(b[i] as int % 16));
    }
    assert(a =~= b);
}

/// Hexadecimal text can be stored as a hashed password: it holds no line
/// feed. It is empty only for no bytes.
pub proof fn lemma_hex_of_is_hashed(bytes: Seq<u8>)
    ensures
        is_hashed(hex_of(bytes)),
        hex_of(bytes).len() == 2 * bytes.len(),
{
    lemma_hex_digits();
}

/// Writes `bytes` as hexadecimal text.
pub fn hex_encode(bytes: &[u8]) -> (s: String)
    ensures
        s@ == hex_of(bytes@),
{
    let mut s = String::new();
    let n = bytes.len();
    let mut i: usize = 0;
    proof {
        lemma_hex_digits();
    }
    while i < n
        invariant
            i <= n,
            n == bytes@.len(),
            HEX_DIGITS@.len() == 16,
            HEX_DIGITS.is_ascii(),
            s@ == hex_of(bytes@.take(i as int)),
        decreases n - i,
    {
        let b = bytes[i];
        let high = (b / 16) as usize;
        let low = (b % 16) as usize;
        s.append(HEX_DIGITS.substring_ascii(high, high + 1));
        s.append(HEX_DIGITS.substring_ascii(low, low + 1));
        i += 1;
        proof {
            let before = bytes@.take(i - 1);
            let now = bytes@.take(i as int);
            assert(now.len() == before.len() + 1);
            assert forall|k: int| 0 <= k < 2 * before.len() implies hex_of(now)[k] == hex_of(
                before,
            )[k] by {
                assert(now[k / 2] == before[k / 2]);
            }
            assert(now[i - 1] == b);
            assert(s@ =~= hex_of(now));
        }
    }
    proof {
        assert(bytes@.take(n as int) =~= bytes@);
    }
    s
}

} // verus!
