use vstd::prelude::*;
use crate::text::push_text;

verus! {

pub open spec fn is_digit(c: char) -> bool {
    '0' <= c && c <= '9'
}

/// The number that a string of decimal digits denotes.
pub open spec fn digits_value(s: Seq<char>) -> int
    decreases s.len(),
{
    if s.len() == 0 {
        0
    } else {
        digits_value(s.drop_last()) * 10 + (s.last() as int - '0' as int)
    }
}

/// What `i64::from_str` gives: an optional sign then at least one decimal
/// digit, and a value in range; `None` for anything else.
pub open spec fn i64_of(s: Seq<char>) -> Option<i64> {
    let signed = s.len() > 0 && (s[0] == '+' || s[0] == '-');
    let digits = if signed { s.drop_first() } else { s };
    let v = if signed && s[0] == '-' { -digits_value(digits) } else { digits_value(digits) };
    if digits.len() == 0 || !(forall|i: int| 0 <= i < digits.len() ==> is_digit(#[trigger] digits[i])) {
        None
    } else if i64::MIN <= v && v <= i64::MAX {
        Some(v as i64)
    } else {
        None
    }
}

/// Relies on `str::parse::<i64>` (`i64::from_str`): accepts an optional '+' or
/// '-' followed by ASCII digits whose value fits, as its documentation states.
#[verifier::external_body]
fn parse_i64(s: &str) -> (r: Option<i64>)
    ensures
        r == i64_of(s@),
{
    s.parse::<i64>().ok()
}

/// ASCII to integer: the decimal value, or 0 where the text is not one.
pub fn atoi(ascii: &str) -> (r: i64)
    ensures
        r == match i64_of(ascii@) {
            Some(v) => v,
            None => 0,
        },
{
    match parse_i64(ascii) {
        Some(v) => v,
        None => 0,
    }
}

/// String to integer, as `atoi`.
pub fn stoi(ascii: String) -> (r: i64)
    ensures
        r == match i64_of(ascii@) {
            Some(v) => v,
            None => 0,
        },
{
    atoi(ascii.as_str())
}

/// Optional text to integer; absent text gives 0.
pub fn aotoi(ascii_option: Option<&str>) -> (r: i64)
    ensures
        r == match ascii_option {
            Some(s) => match i64_of(s@) {
                Some(v) => v,
                None => 0,
            },
            None => 0,
        },
{
    match ascii_option {
        Some(s) => atoi(s),
        None => {
            let r = atoi("");
            proof {
                reveal_strlit("");
            }
            r
        },
    }
}

/// Optional string to integer; absent text gives 0.
pub fn sotoi(ascii_option: Option<String>) -> (r: i64)
    ensures
        r == match ascii_option {
            Some(s) => match i64_of(s@) {
                Some(v) => v,
                None => 0,
            },
            None => 0,
        },
{
    match ascii_option {
        Some(s) => stoi(s),
        None => aotoi(None),
    }
}

/// A string, or a default where it is empty.
pub trait StringExt {
    fn or(self, dflt: &str) -> String;
}

impl StringExt for String {
    fn or(self, dflt: &str) -> (r: String)
        ensures
            self@.len() == 0 ==> r@ == dflt@,
            self@.len() > 0 ==> r@ == self@,
    {
        let mut s = self;
        if s.as_str().unicode_len() == 0 {
            push_text(&mut s, dflt);
            assert(s@ =~= dflt@);
        }
        s
    }
}

} // verus!
