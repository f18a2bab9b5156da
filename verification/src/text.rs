//! Decimal rendering of comic numbers and the feed's addresses.

use vstd::prelude::*;
use vstd::string::*;

verus! {

/// The character that writes the digit `d` (meaningful for `d < 10`).
pub open spec fn digit_char(d: nat) -> char {
    if d == 0 {
        '0'
    } else if d == 1 {
        '1'
    } else if d == 2 {
        '2'
    } else if d == 3 {
        '3'
    } else if d == 4 {
        '4'
    } else if d == 5 {
        '5'
    } else if d == 6 {
        '6'
    } else if d == 7 {
        '7'
    } else if d == 8 {
        '8'
    } else {
        '9'
    }
}

/// The decimal numeral of `n`: no sign, no leading zero, `"0"` for zero.
pub open spec fn decimal_digits(n: nat) -> Seq<char>
    decreases n,
{
    if n < 10 {
        seq![digit_char(n)]
    } else {
        decimal_digits(n / 10).push(digit_char(n % 10))
    }
}

/// The one-character text of a single digit.
fn digit_text(d: usize) -> (text: &'static str)
    requires
        d < 10,
    ensures
        text@ == seq![digit_char(d as nat)],
{
    proof {
        reveal_strlit("0");
        reveal_strlit("1");
        reveal_strlit("2");
        reveal_strlit("3");
        reveal_strlit("4");
        reveal_strlit("5");
        reveal_strlit("6");
        reveal_strlit("7");
        reveal_strlit("8");
        reveal_strlit("9");
    }
    let text = if d == 0 {
        "0"
    } else if d == 1 {
        "1"
    } else if d == 2 {
        "2"
    } else if d == 3 {
        "3"
    } else if d == 4 {
        "4"
    } else if d == 5 {
        "5"
    } else if d == 6 {
        "6"
    } else if d == 7 {
        "7"
    } else if d == 8 {
        "8"
    } else {
        "9"
    };
    assert(text@ =~= seq![digit_char(d as nat)]);
    text
}

/// Writes `n` in decimal.
pub fn decimal(n: usize) -> (text: String)
    ensures
        text@ == decimal_digits(n as nat),
    decreases n,
{
    if n < 10 {
        String::from_str(digit_text(n))
    } else {
        let head = decimal(n / 10);
        let text = head.concat(digit_text(n % 10));
        assert(text@ =~= decimal_digits(n as nat));
        text
    }
}

/// Where the feed lives.
pub const FEED_ROOT: &'static str = "https://xkcd.com/";

/// What follows an item's number, or the root itself, in the address of a
/// description.
pub const INFO_PATH: &'static str = "info.0.json";

/// The address of the description of comic `num`.
pub open spec fn comic_url_spec(num: usize) -> Seq<char> {
    FEED_ROOT@ + decimal_digits(num as nat) + "/"@ + INFO_PATH@
}

/// The address of the description of the newest comic.
pub open spec fn latest_url_spec() -> Seq<char> {
    FEED_ROOT@ + INFO_PATH@
}

/// The address of the description of comic `num`.
pub fn comic_url(num: usize) -> (url: String)
    ensures
        url@ == comic_url_spec(num),
{
    String::from_str(FEED_ROOT).concat(decimal(num).as_str()).concat("/").concat(INFO_PATH)
}

/// The address of the description of the newest comic.
pub fn latest_url() -> (url: String)
    ensures
        url@ == latest_url_spec(),
{
    String::from_str(FEED_ROOT).concat(INFO_PATH)
}

} // verus!
