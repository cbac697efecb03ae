//! Small text utilities: decimal rendering of integers, percentage rendering,
//! string equality, and byte-to-text decoding.
//!
//! Everything here is verified except the UTF-8 decoding step, which relies on
//! the standard library.

use vstd::prelude::*;

verus! {

/// The character for a single decimal digit.
pub open spec fn dec_digit(d: nat) -> char {
    if d == 0 {
        '0'
    } else if d == 1 {
        '1'
    } else if d == 2 {
        '2'
    } else if d == 3 {
        '3'
    } else if d == 4 {
        '4'
    } else if d == 5 {
        '5'
    } else if d == 6 {
        '6'
    } else if d == 7 {
        '7'
    } else if d == 8 {
        '8'
    } else {
        '9'
    }
}

/// The decimal rendering of `n`, most significant digit first.
pub open spec fn dec_str(n: nat) -> Seq<char>
    decreases n,
{
    if n < 10 {
        seq![dec_digit(n)]
    } else {
        dec_str(n / 10).push(dec_digit(n % 10))
    }
}

/// A percentage held in hundredths of a percent, rendered with one decimal
/// place, truncated: 6049 becomes `60.4`.
pub open spec fn pct_str(bps: nat) -> Seq<char> {
    dec_str(bps / 100) + seq!['.'] + seq![dec_digit((bps % 100) / 10)]
}

fn digit_str(d: u64) -> (r: &'static str)
    requires
        d < 10,
    ensures
        r@ == seq![dec_digit(d as nat)],
{
    match d {
        0 => {
            proof {
                reveal_strlit("0");
            }
            let r = "0";
            assert(r@ =~= seq![dec_digit(d as nat)]);
            r
        },
        1 => {
            proof {
                reveal_strlit("1");
            }
            let r = "1";
            assert(r@ =~= seq![dec_digit(d as nat)]);
            r
        },
        2 => {
            proof {
                reveal_strlit("2");
            }
            let r = "2";
            assert(r@ =~= seq![dec_digit(d as nat)]);
            r
        },
        3 => {
            proof {
                reveal_strlit("3");
            }
            let r = "3";
            assert(r@ =~= seq![dec_digit(d as nat)]);
            r
        },
        4 => {
            proof {
                reveal_strlit("4");
            }
            let r = "4";
            assert(r@ =~= seq![dec_digit(d as nat)]);
            r
        },
        5 => {
            proof {
                reveal_strlit("5");
            }
            let r = "5";
            assert(r@ =~= seq![dec_digit(d as nat)]);
            r
        },
        6 => {
            proof {
                reveal_strlit("6");
            }
            let r = "6";
            assert(r@ =~= seq![dec_digit(d as nat)]);
            r
        },
        7 => {
            proof {
                reveal_strlit("7");
            }
            let r = "7";
            assert(r@ =~= seq![dec_digit(d as nat)]);
            r
        },
        8 => {
            proof {
                reveal_strlit("8");
            }
            let r = "8";
            assert(r@ =~= seq![dec_digit(d as nat)]);
            r
        },
        _ => {
            proof {
                reveal_strlit("9");
            }
            let r = "9";
            assert(r@ =~= seq![dec_digit(d as nat)]);
            r
        },
    }
}

/// Renders `n` in decimal.
pub fn u64_to_string(n: u64) -> (r: String)
    ensures
        r@ == dec_str(n as nat),
    decreases n,
{
    if n < 10 {
        String::from_str(digit_str(n))
    } else {
        let prefix = u64_to_string(n / 10);
        let r = prefix.concat(digit_str(n % 10));
        assert(dec_str(n as nat) =~= dec_str((n / 10) as nat) + seq![
            dec_digit((n % 10) as nat),
        ]);
        r
    }
}

/// Renders a percentage held in hundredths of a percent with one decimal
/// place, truncated.
pub fn pct_to_string(bps: u64) -> (r: String)
    ensures
        r@ == pct_str(bps as nat),
{
    proof {
        reveal_strlit(".");
    }
    let whole = u64_to_string(bps / 100);
    let dot = ".";
    assert(dot@ =~= seq!['.']);
    let r = whole.concat(dot).concat(digit_str((bps % 100) / 10));
    r
}

/// Whether two string slices hold the same characters.
pub fn str_eq(a: &str, b: &str) -> (r: bool)
    ensures
        r == (a@ == b@),
{
    let sa = String::from_str(a);
    let sb = String::from_str(b);
    sa == sb
}

/// What the standard library's lossy UTF-8 decoding returns for a byte
/// sequence.
pub uninterp spec fn utf8_lossy_of(bytes: Seq<u8>) -> Seq<char>;

/// Relies on String::from_utf8_lossy: the result is a function of the bytes
/// alone; valid UTF-8 (and so pure ASCII) decodes to itself, invalid sequences
/// become replacement characters.
#[verifier::external_body]
pub fn utf8_lossy(bytes: &Vec<u8>) -> (r: String)
    ensures
        r@ == utf8_lossy_of(bytes@),
        (forall|i: int| 0 <= i < bytes@.len() ==> bytes@[i] < 128) ==> r@ == bytes@.map(
            |_i: int, b: u8| b as char,
        ),
        bytes@.len() == 0 ==> r@.len() == 0,
{
    String::from_utf8_lossy(bytes.as_slice()).into_owned()
}

} // verus!
