//! Text helpers: decimal rendering of small integers, and the two std text
//! functions the library relies on (lossy UTF-8 decoding and the Unicode
//! alphanumeric test).

use vstd::prelude::*;
use vstd::utf8::{decode_utf8, valid_utf8};

verus! {

/// The ASCII digit for `d` (expected to be below ten).
pub open spec fn digit_char(d: u8) -> char {
    (d + 48) as char
}

/// Decimal rendering of `n` without leading zeros.
pub open spec fn decimal(n: u8) -> Seq<char> {
    if n < 10 {
        seq![digit_char(n)]
    } else if n < 100 {
        seq![digit_char(n / 10), digit_char(n % 10)]
    } else {
        seq![digit_char(n / 100), digit_char((n / 10) % 10), digit_char(n % 10)]
    }
}

/// True when every char of `s` is ASCII.
pub open spec fn is_ascii_text(s: Seq<char>) -> bool {
    vstd::utf8::is_ascii_chars(s)
}

fn digit_str(d: u8) -> (r: &'static str)
    requires
        d < 10,
    ensures
        r@ == seq![digit_char(d)],
{
    match d {
        0 => {
            proof {
                reveal_strlit("0");
            }
            "0"
        },
        1 => {
            proof {
                reveal_strlit("1");
            }
            "1"
        },
        2 => {
            proof {
                reveal_strlit("2");
            }
            "2"
        },
        3 => {
            proof {
                reveal_strlit("3");
            }
            "3"
        },
        4 => {
            proof {
                reveal_strlit("4");
            }
            "4"
        },
        5 => {
            proof {
                reveal_strlit("5");
            }
            "5"
        },
        6 => {
            proof {
                reveal_strlit("6");
            }
            "6"
        },
        7 => {
            proof {
                reveal_strlit("7");
            }
            "7"
        },
        8 => {
            proof {
                reveal_strlit("8");
            }
            "8"
        },
        _ => {
            proof {
                reveal_strlit("9");
            }
            "9"
        },
    }
}

/// Appends the decimal rendering of `n` to `out`.
pub fn push_decimal(out: &mut String, n: u8)
    ensures
        final(out)@ == old(out)@ + decimal(n),
{
    if n >= 100 {
        out.append(digit_str(n / 100));
    }
    if n >= 10 {
        out.append(digit_str((n / 10) % 10));
    }
    out.append(digit_str(n % 10));
    assert(final(out)@ =~= old(out)@ + decimal(n));
}

/// What `String::from_utf8_lossy` makes of `bytes`.
pub uninterp spec fn utf8_lossy(bytes: Seq<u8>) -> Seq<char>;

/// Decodes `bytes` as UTF-8, replacing each invalid sequence with U+FFFD.
///
/// Calls `String::from_utf8_lossy`. The contract names its result
/// (`utf8_lossy`) and states what std documents for well-formed input:
/// valid UTF-8 is decoded unchanged. How invalid sequences are replaced is
/// left unstated.
#[verifier::external_body]
pub(crate) fn decode_lossy(bytes: &[u8]) -> (r: String)
    ensures
        r@ == utf8_lossy(bytes@),
        valid_utf8(bytes@) ==> r@ == decode_utf8(bytes@),
{
    String::from_utf8_lossy(bytes).into_owned()
}

/// What `char::is_alphanumeric` answers for `c`.
pub uninterp spec fn unicode_alphanumeric(c: char) -> bool;

/// True for ASCII letters and digits.
pub open spec fn ascii_alphanumeric(c: char) -> bool {
    ('0' <= c && c <= '9') || ('a' <= c && c <= 'z') || ('A' <= c && c <= 'Z')
}

/// Whether `c` is alphabetic or numeric in the Unicode sense.
///
/// Calls `char::is_alphanumeric`. The contract names its result
/// (`unicode_alphanumeric`) and states that for ASCII chars it holds exactly
/// of the letters and digits; which non-ASCII chars qualify is left to the
/// Unicode tables and not stated.
#[verifier::external_body]
pub(crate) fn is_alphanumeric(c: char) -> (r: bool)
    ensures
        r == unicode_alphanumeric(c),
        (c as u32) < 128 ==> (r == ascii_alphanumeric(c)),
{
    c.is_alphanumeric()
}

/// The number a string of decimal digits stands for.
pub open spec fn digits_value(s: Seq<char>) -> int
    decreases s.len(),
{
    if s.len() == 0 {
        0
    } else {
        digits_value(s.drop_last()) * 10 + (s.last() as int - 48)
    }
}

/// The decimal text of `n` is one to three digits without a leading zero,
/// and reads back as `n`.
pub proof fn lemma_decimal_reads_back(n: u8)
    ensures
        1 <= decimal(n).len() <= 3,
        forall|i: int| 0 <= i < decimal(n).len() ==> '0' <= #[trigger] decimal(n)[i] <= '9',
        decimal(n).len() > 1 ==> decimal(n)[0] != '0',
        digits_value(decimal(n)) == n,
{
    let d = decimal(n);
    reveal_with_fuel(digits_value, 4);
    if n < 10 {
        assert(d.drop_last() =~= Seq::<char>::empty());
    } else if n < 100 {
        assert(d.drop_last() =~= seq![digit_char(n / 10)]);
        assert(d.drop_last().drop_last() =~= Seq::<char>::empty());
        assert((n / 10) * 10 + n % 10 == n);
    } else {
        assert(d.drop_last() =~= seq![digit_char(n / 100), digit_char((n / 10) % 10)]);
        assert(d.drop_last().drop_last() =~= seq![digit_char(n / 100)]);
        assert(d.drop_last().drop_last().drop_last() =~= Seq::<char>::empty());
        assert((n / 100) * 100 + ((n / 10) % 10) * 10 + n % 10 == n) by (nonlinear_arith)
            requires
                100 <= n < 256,
        ;
    }
}

} // verus!
