//! Native tags: a notification's numeric id written as decimal text, and
//! read back from the native store.
use vstd::prelude::*;

verus! {

pub open spec fn digit_char(d: int) -> char {
    if d == 0 { '0' }
    else if d == 1 { '1' }
    else if d == 2 { '2' }
    else if d == 3 { '3' }
    else if d == 4 { '4' }
    else if d == 5 { '5' }
    else if d == 6 { '6' }
    else if d == 7 { '7' }
    else if d == 8 { '8' }
    else { '9' }
}

pub open spec fn digit_value(c: char) -> Option<int> {
    if c == '0' { Some(0) }
    else if c == '1' { Some(1) }
    else if c == '2' { Some(2) }
    else if c == '3' { Some(3) }
    else if c == '4' { Some(4) }
    else if c == '5' { Some(5) }
    else if c == '6' { Some(6) }
    else if c == '7' { Some(7) }
    else if c == '8' { Some(8) }
    else if c == '9' { Some(9) }
    else { None }
}

/// The decimal digits of `n`, most significant first, without leading zeros.
pub open spec fn decimal_text(n: nat) -> Seq<char>
    decreases n,
{
    if n < 10 {
        seq![digit_char(n as int)]
    } else {
        decimal_text(n / 10).push(digit_char((n % 10) as int))
    }
}

/// The decimal text of an integer: its digits, after a `-` when it is negative.
pub open spec fn int_text(n: int) -> Seq<char> {
    if n < 0 {
        seq!['-'] + decimal_text((-n) as nat)
    } else {
        decimal_text(n as nat)
    }
}

/// The value of a non-empty run of decimal digits; `None` when the run is
/// empty or holds anything but digits.
pub open spec fn digits_value(s: Seq<char>) -> Option<int>
    decreases s.len(),
{
    if s.len() == 0 {
        None
    } else if s.len() == 1 {
        digit_value(s[0])
    } else {
        match (digits_value(s.drop_last()), digit_value(s.last())) {
            (Some(a), Some(d)) => Some(a * 10 + d),
            _ => None,
        }
    }
}

/// What reading `s` as an `i32` gives: an optional `+` or `-`, then at
/// least one digit, and a value in range.
pub open spec fn parse_i32_text(s: Seq<char>) -> Option<i32> {
    let negative = s.len() > 0 && s[0] == '-';
    let body = if s.len() > 0 && (s[0] == '-' || s[0] == '+') {
        s.skip(1)
    } else {
        s
    };
    match digits_value(body) {
        Some(v) => {
            let x = if negative { -v } else { v };
            if i32::MIN <= x && x <= i32::MAX {
                Some(x as i32)
            } else {
                None
            }
        },
        None => None,
    }
}

proof fn lemma_decimal_text_digits(n: nat)
    ensures
        decimal_text(n).len() >= 1,
        digit_value(decimal_text(n)[0]) is Some,
        digits_value(decimal_text(n)) == Some(n as int),
    decreases n,
{
    if n >= 10 {
        lemma_decimal_text_digits(n / 10);
        let s = decimal_text(n);
        assert(s.drop_last() =~= decimal_text(n / 10));
        assert(s[0] == decimal_text(n / 10)[0]);
    }
}

/// Reading back the decimal text of any `i32` gives that `i32`.
pub proof fn lemma_parse_int_text(n: i32)
    ensures
        parse_i32_text(int_text(n as int)) == Some(n),
{
    if n < 0 {
        let m = (-(n as int)) as nat;
        lemma_decimal_text_digits(m);
        let s = int_text(n as int);
        assert(s.skip(1) =~= decimal_text(m));
    } else {
        lemma_decimal_text_digits(n as nat);
    }
}

/// Relies on `i32`'s `ToString`, which formats through `Display`: the
/// decimal digits, after a `-` when the value is negative.
#[verifier::external_body]
pub(crate) fn id_text(id: i32) -> (r: String)
    ensures
        r@ == int_text(id as int),
{
    id.to_string()
}

/// Relies on `str::parse::<i32>`: an optional sign, then decimal digits
/// only, with a value that fits; anything else is an error.
#[verifier::external_body]
pub(crate) fn parse_id(s: &str) -> (r: Option<i32>)
    ensures
        r == parse_i32_text(s@),
{
    s.parse::<i32>().ok()
}

/// The native tag under which a notification with id `id` is filed.
pub fn tag_for(id: i32) -> (r: String)
    ensures
        r@ == int_text(id as int),
        tag_id(r@) == Some(id),
{
    proof {
        lemma_parse_int_text(id);
    }
    id_text(id)
}

/// The id that a native tag carries, if it is the decimal text of an `i32`.
pub open spec fn tag_id(tag: Seq<char>) -> Option<i32> {
    parse_i32_text(tag)
}

/// Reads the id out of a native tag.
pub fn id_of_tag(tag: &str) -> (r: Option<i32>)
    ensures
        r == tag_id(tag@),
{
    parse_id(tag)
}

} // verus!
