//! Bytes written as text in base 64, with the alphabet that is safe in a URL
//! and without padding.

use vstd::prelude::*;
use vstd::string::StringExecFns;
use vstd::string::StrSliceExecFns;

verus! {

/// The sixty-four digits, in order of their value.
pub const B64U_DIGITS: &'static str =
    "ABCDEFGHIJKLMNOPQRSTUVWXYZabcdefghijklmnopqrstuvwxyz0123456789-_";

/// The digit for a value below sixty-four.
pub open spec fn b64u_digit(n: int) -> char {
    B64U_DIGITS@[n]
}

/// The text for `bytes`. Three bytes are twenty-four bits and give four
/// digits of six bits each, the high bits first. One byte that is left over
/// gives two digits, and two give three: what a digit lacks is filled with
/// zero bits.
pub open spec fn b64u_of(bytes: Seq<u8>) -> Seq<char>
    decreases bytes.len(),
{
    if bytes.len() == 0 {
        seq![]
    } else if bytes.len() == 1 {
        seq![b64u_digit(bytes[0] as int / 4), b64u_digit(bytes[0] as int % 4 * 16)]
    } else if bytes.len() == 2 {
        seq![
            b64u_digit(bytes[0] as int / 4),
            b64u_digit(bytes[0] as int % 4 * 16 + bytes[1] as int / 16),
            b64u_digit(bytes[1] as int % 16 * 4),
        ]
    } else {
        seq![
            b64u_digit(bytes[0] as int / 4),
            b64u_digit(bytes[0] as int % 4 * 16 + bytes[1] as int / 16),
            b64u_digit(bytes[1] as int % 16 * 4 + bytes[2] as int / 64),
            b64u_digit(bytes[2] as int % 64),
        ] + b64u_of(bytes.skip(3))
    }
}

/// There are sixty-four digits, all of them ASCII.
proof fn lemma_b64u_digits()
    ensures
        B64U_DIGITS@.len() == 64,
        vstd::utf8::is_ascii_chars(B64U_DIGITS@),
{
    reveal_strlit("ABCDEFGHIJKLMNOPQRSTUVWXYZabcdefghijklmnopqrstuvwxyz0123456789-_");
}

/// Appends the digit of value `n` to `text`.
fn push_digit(text: &mut String, n: u8)
    requires
        n < 64,
    ensures
        final(text)@ == old(text)@.push(b64u_digit(n as int)),
{
    proof {
        lemma_b64u_digits();
    }
    let at = n as usize;
    let digit = B64U_DIGITS.substring_ascii(at, at + 1);
    proof {
        assert(digit@ =~= seq![b64u_digit(n as int)]);
    }
    text.append(digit);
    proof {
        assert(old(text)@ + seq![b64u_digit(n as int)] =~= old(text)@.push(b64u_digit(n as int)));
    }
}

/// Writes `content` in base 64.
pub fn b64u_encode(content: &[u8]) -> (text: String)
    ensures
        text@ == b64u_of(content@),
{
    let mut text = String::new();
    let n = content.len();
    let mut i: usize = 0;
    proof {
        assert(content@.skip(0) =~= content@);
    }
    while n - i >= 3
        invariant
            i <= n,
            n == content@.len(),
            b64u_of(content@) == text@ + b64u_of(content@.skip(i as int)),
        decreases n - i,
    {
        let b0 = content[i];
        let b1 = content[i + 1];
        let b2 = content[i + 2];
        let ghost before = text@;
        push_digit(&mut text, b0 / 4);
        push_digit(&mut text, b0 % 4 * 16 + b1 / 16);
        push_digit(&mut text, b1 % 16 * 4 + b2 / 64);
        push_digit(&mut text, b2 % 64);
        proof {
            let rest = content@.skip(i as int);
            assert(rest[0] == b0 && rest[1] == b1 && rest[2] == b2);
            assert(rest.skip(3) =~= content@.skip(i + 3));
            assert(text@ =~= before + seq![
                b64u_digit(b0 as int / 4),
                b64u_digit(b0 as int % 4 * 16 + b1 as int / 16),
                b64u_digit(b1 as int % 16 * 4 + b2 as int / 64),
                b64u_digit(b2 as int % 64),
            ]);
            assert(b64u_of(content@) =~= text@ + b64u_of(content@.skip(i + 3)));
        }
        i += 3;
    }
    let ghost before = text@;
    let ghost rest = content@.skip(i as int);
    if n - i == 1 {
        let b0 = content[i];
        push_digit(&mut text, b0 / 4);
        push_digit(&mut text, b0 % 4 * 16);
        proof {
            assert(rest[0] == b0);
            assert(text@ =~= before + b64u_of(rest));
        }
    } else if n - i == 2 {
        let b0 = content[i];
        let b1 = content[i + 1];
        push_digit(&mut text, b0 / 4);
        push_digit(&mut text, b0 % 4 * 16 + b1 / 16);
        push_digit(&mut text, b1 % 16 * 4);
        proof {
            assert(rest[0] == b0 && rest[1] == b1);
            assert(text@ =~= before + b64u_of(rest));
        }
    } else {
        proof {
            assert(text@ =~= before + b64u_of(rest));
        }
    }
    text
}

} // verus!
