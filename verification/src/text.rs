//! Text helpers: comparison, ASCII case folding and decimal rendering.

use vstd::prelude::*;

verus! {

/// Whether two strings hold the same characters.
pub fn text_eq(a: &str, b: &str) -> (same: bool)
    ensures
        same == (a@ == b@),
{
    let left = a.to_owned();
    let right = b.to_owned();
    left == right
}

/// The ASCII lower-case form of a character: `A` to `Z` become `a` to `z`,
/// every other character stays.
pub open spec fn ascii_lower(c: char) -> char {
    if 'A' <= c && c <= 'Z' {
        ((c as u8) + 32) as char
    } else {
        c
    }
}

/// Whether two texts are equal once ASCII letters are folded to lower case.
pub open spec fn ascii_fold_eq(a: Seq<char>, b: Seq<char>) -> bool {
    &&& a.len() == b.len()
    &&& forall|i: int| 0 <= i < a.len() ==> ascii_lower(#[trigger] a[i]) == ascii_lower(b[i])
}

/// The ASCII lower-case form of a character.
pub fn to_ascii_lower(c: char) -> (folded: char)
    ensures
        folded == ascii_lower(c),
{
    if 'A' <= c && c <= 'Z' {
        ((c as u8) + 32) as char
    } else {
        c
    }
}

/// Whether two strings match when the case of ASCII letters is ignored.
pub fn eq_ignore_ascii_case(a: &str, b: &str) -> (same: bool)
    ensures
        same == ascii_fold_eq(a@, b@),
{
    let n: usize = a.unicode_len();
    if b.unicode_len() != n {
        return false;
    }
    let mut i: usize = 0;
    while i < n
        invariant
            i <= n,
            n == a@.len(),
            n == b@.len(),
            forall|j: int| 0 <= j < i ==> ascii_lower(#[trigger] a@[j]) == ascii_lower(b@[j]),
        decreases n - i,
    {
        if to_ascii_lower(a.get_char(i)) != to_ascii_lower(b.get_char(i)) {
            return false;
        }
        i = i + 1;
    }
    true
}

/// The lower-case form of a text, as `str::to_lowercase` of the standard
/// library gives it: Unicode-aware, and the same for the same text.
pub uninterp spec fn lowercase(text: Seq<char>) -> Seq<char>;

/// Calls `str::to_lowercase`. The contract only names what it returns: the
/// lower-case form of the text, which depends on the text alone.
#[verifier::external_body]
pub(crate) fn to_lowercase(text: &str) -> (lowered: String)
    ensures
        lowered@ == lowercase(text@),
{
    text.to_lowercase()
}

/// The character of a decimal digit.
pub open spec fn digit_char(digit: int) -> char {
    if digit == 0 {
        '0'
    } else if digit == 1 {
        '1'
    } else if digit == 2 {
        '2'
    } else if digit == 3 {
        '3'
    } else if digit == 4 {
        '4'
    } else if digit == 5 {
        '5'
    } else if digit == 6 {
        '6'
    } else if digit == 7 {
        '7'
    } else if digit == 8 {
        '8'
    } else {
        '9'
    }
}

/// A natural number in decimal, without leading zeros.
pub open spec fn decimal(n: nat) -> Seq<char>
    decreases n,
{
    if n < 10 {
        seq![digit_char(n as int)]
    } else {
        decimal(n / 10).push(digit_char((n % 10) as int))
    }
}

/// An integer in decimal, with a minus sign in front of a negative one.
pub open spec fn signed_decimal(n: int) -> Seq<char> {
    if n < 0 {
        seq!['-'] + decimal((-n) as nat)
    } else {
        decimal(n as nat)
    }
}

/// The last `places` decimal digits of a number, with leading zeros.
pub open spec fn fraction(n: nat, places: nat) -> Seq<char>
    decreases places,
{
    if places == 0 {
        Seq::empty()
    } else {
        fraction(n / 10, (places - 1) as nat).push(digit_char((n % 10) as int))
    }
}

/// The fractional part of a number given as `n` units of `10^-places`: a
/// point and the digits without trailing zeros, or nothing where all the
/// digits are zero.
pub open spec fn short_fraction(n: nat, places: nat) -> Seq<char>
    decreases places,
{
    if places == 0 {
        Seq::empty()
    } else if n % 10 == 0 {
        short_fraction(n / 10, (places - 1) as nat)
    } else {
        seq!['.'] + fraction(n, places)
    }
}

/// A number of millionths as a decimal number in its shortest form: `1.5`
/// for 1,500,000 and `10` for 10,000,000.
pub open spec fn millionths_text(millionths: int) -> Seq<char> {
    let size = if millionths < 0 {
        -millionths
    } else {
        millionths
    };
    let sign = if millionths < 0 {
        seq!['-']
    } else {
        Seq::empty()
    };
    sign + decimal((size / 1_000_000) as nat) + short_fraction((size % 1_000_000) as nat, 6)
}

/// A number of millionths rounded to thousandths, a tie going to the even
/// neighbour.
pub open spec fn rounded_thousandths(millionths: nat) -> nat {
    let whole = millionths / 1000;
    let rest = millionths % 1000;
    if rest > 500 || (rest == 500 && whole % 2 == 1) {
        whole + 1
    } else {
        whole
    }
}

/// A number of thousandths as a decimal number with exactly three digits
/// after the point.
pub open spec fn thousandths_text(thousandths: nat) -> Seq<char> {
    decimal(thousandths / 1000) + seq!['.'] + fraction(thousandths % 1000, 3)
}

/// The text of one decimal digit.
fn digit_text(digit: u8) -> (text: &'static str)
    requires
        digit < 10,
    ensures
        text@ == seq![digit_char(digit as int)],
{
    proof {
        reveal_strlit("0");
        reveal_strlit("1");
        reveal_strlit("2");
        reveal_strlit("3");
        reveal_strlit("4");
        reveal_strlit("5");
        reveal_strlit("6");
        reveal_strlit("7");
        reveal_strlit("8");
        reveal_strlit("9");
    }
    let text = match digit {
        0 => "0",
        1 => "1",
        2 => "2",
        3 => "3",
        4 => "4",
        5 => "5",
        6 => "6",
        7 => "7",
        8 => "8",
        _ => "9",
    };
    assert(text@ =~= seq![digit_char(digit as int)]);
    text
}

/// Renders a natural number in decimal.
pub fn render_unsigned(n: u64) -> (text: String)
    ensures
        text@ == decimal(n as nat),
    decreases n,
{
    if n < 10 {
        digit_text(n as u8).to_owned()
    } else {
        let mut text = render_unsigned(n / 10);
        text.append(digit_text((n % 10) as u8));
        text
    }
}

/// Renders an integer in decimal.
pub fn render_integer(n: i64) -> (text: String)
    ensures
        text@ == signed_decimal(n as int),
{
    if n < 0 {
        proof {
            reveal_strlit("-");
        }
        let size: u64 = (-(n as i128)) as u64;
        let digits = render_unsigned(size);
        let text = "-".to_owned().concat(digits.as_str());
        assert(text@ =~= signed_decimal(n as int));
        text
    } else {
        render_unsigned(n as u64)
    }
}

/// Renders the last `places` decimal digits of a number, with leading zeros.
pub fn render_fraction(n: u64, places: u8) -> (text: String)
    ensures
        text@ == fraction(n as nat, places as nat),
    decreases places,
{
    if places == 0 {
        String::new()
    } else {
        let mut text = render_fraction(n / 10, places - 1);
        text.append(digit_text((n % 10) as u8));
        text
    }
}

/// Renders the fractional part of a number in its shortest form.
fn render_short_fraction(n: u64, places: u8) -> (text: String)
    ensures
        text@ == short_fraction(n as nat, places as nat),
    decreases places,
{
    if places == 0 {
        String::new()
    } else if n % 10 == 0 {
        render_short_fraction(n / 10, places - 1)
    } else {
        proof {
            reveal_strlit(".");
        }
        let digits = render_fraction(n, places);
        let text = ".".to_owned().concat(digits.as_str());
        assert(text@ =~= short_fraction(n as nat, places as nat));
        text
    }
}

/// Renders a number of millionths as a decimal number in its shortest form.
pub fn render_millionths(millionths: i64) -> (text: String)
    ensures
        text@ == millionths_text(millionths as int),
{
    let size: u64 = if millionths < 0 {
        (-(millionths as i128)) as u64
    } else {
        millionths as u64
    };
    let mut text = if millionths < 0 {
        proof {
            reveal_strlit("-");
        }
        "-".to_owned()
    } else {
        String::new()
    };
    let whole = render_unsigned(size / 1_000_000);
    let part = render_short_fraction(size % 1_000_000, 6);
    text.append(whole.as_str());
    text.append(part.as_str());
    assert(text@ =~= millionths_text(millionths as int));
    text
}

/// Rounds a number of millionths to thousandths, a tie going to the even
/// neighbour.
pub fn round_to_thousandths(millionths: u64) -> (thousandths: u64)
    ensures
        thousandths == rounded_thousandths(millionths as nat),
{
    let whole: u64 = millionths / 1000;
    let rest: u64 = millionths % 1000;
    if rest > 500 || (rest == 500 && whole % 2 == 1) {
        whole + 1
    } else {
        whole
    }
}

/// Renders a number of thousandths with exactly three digits after the
/// point.
pub fn render_thousandths(thousandths: u64) -> (text: String)
    ensures
        text@ == thousandths_text(thousandths as nat),
{
    proof {
        reveal_strlit(".");
    }
    let mut text = render_unsigned(thousandths / 1000);
    let part = render_fraction(thousandths % 1000, 3);
    text.append(".");
    text.append(part.as_str());
    assert(text@ =~= thousandths_text(thousandths as nat));
    text
}

/// The character of a hexadecimal digit, in lower case.
pub open spec fn hex_digit_char(digit: int) -> char {
    if digit < 10 {
        digit_char(digit)
    } else if digit == 10 {
        'a'
    } else if digit == 11 {
        'b'
    } else if digit == 12 {
        'c'
    } else if digit == 13 {
        'd'
    } else if digit == 14 {
        'e'
    } else {
        'f'
    }
}

/// A natural number in hexadecimal, in lower case and without leading zeros.
pub open spec fn hexadecimal(n: nat) -> Seq<char>
    decreases n,
{
    if n < 16 {
        seq![hex_digit_char(n as int)]
    } else {
        hexadecimal(n / 16).push(hex_digit_char((n % 16) as int))
    }
}

/// An address as it is written in text: `0x` and the hexadecimal digits.
pub open spec fn address_text(address: nat) -> Seq<char> {
    seq!['0', 'x'] + hexadecimal(address)
}

/// Whether `needle` stands in `haystack` at place `at`.
pub open spec fn occurs_at(haystack: Seq<char>, needle: Seq<char>, at: int) -> bool {
    &&& 0 <= at
    &&& at + needle.len() <= haystack.len()
    &&& forall|k: int| 0 <= k < needle.len() ==> haystack[at + k] == #[trigger] needle[k]
}

/// Whether `needle` stands somewhere in `haystack`.
pub open spec fn occurs_in(haystack: Seq<char>, needle: Seq<char>) -> bool {
    exists|at: int| occurs_at(haystack, needle, at)
}

/// The text of one hexadecimal digit.
fn hex_digit_text(digit: u8) -> (text: &'static str)
    requires
        digit < 16,
    ensures
        text@ == seq![hex_digit_char(digit as int)],
{
    if digit < 10 {
        digit_text(digit)
    } else {
        proof {
            reveal_strlit("a");
            reveal_strlit("b");
            reveal_strlit("c");
            reveal_strlit("d");
            reveal_strlit("e");
            reveal_strlit("f");
        }
        let text = match digit {
            10 => "a",
            11 => "b",
            12 => "c",
            13 => "d",
            14 => "e",
            _ => "f",
        };
        assert(text@ =~= seq![hex_digit_char(digit as int)]);
        text
    }
}

/// Renders a natural number in hexadecimal.
pub fn render_hexadecimal(n: u64) -> (text: String)
    ensures
        text@ == hexadecimal(n as nat),
    decreases n,
{
    if n < 16 {
        hex_digit_text(n as u8).to_owned()
    } else {
        let mut text = render_hexadecimal(n / 16);
        text.append(hex_digit_text((n % 16) as u8));
        text
    }
}

/// Renders an address as it is written in text.
pub fn render_address(address: usize) -> (text: String)
    ensures
        text@ == address_text(address as nat),
{
    proof {
        reveal_strlit("0x");
    }
    let digits = render_hexadecimal(address as u64);
    let text = "0x".to_owned().concat(digits.as_str());
    assert(text@ =~= address_text(address as nat));
    text
}

/// Whether `needle` stands somewhere in `haystack`.
pub fn contains(haystack: &str, needle: &str) -> (found: bool)
    ensures
        found == occurs_in(haystack@, needle@),
{
    let long: usize = haystack.unicode_len();
    let short: usize = needle.unicode_len();
    if short > long {
        assert forall|at: int| !occurs_at(haystack@, needle@, at) by {}
        return false;
    }
    let last: usize = long - short;
    let mut at: usize = 0;
    while at <= last
        invariant
            at <= last + 1,
            last == long - short,
            long == haystack@.len(),
            short == needle@.len(),
            forall|earlier: int| 0 <= earlier < at ==> !occurs_at(haystack@, needle@, earlier),
        decreases last + 1 - at,
    {
        let mut k: usize = 0;
        while k < short && haystack.get_char(at + k) == needle.get_char(k)
            invariant
                k <= short,
                at <= last,
                last == long - short,
                long == haystack@.len(),
                short == needle@.len(),
                forall|j: int| 0 <= j < k ==> haystack@[at + j] == #[trigger] needle@[j],
            decreases short - k,
        {
            k = k + 1;
        }
        if k == short {
            assert(occurs_at(haystack@, needle@, at as int));
            return true;
        }
        assert(!occurs_at(haystack@, needle@, at as int)) by {
            assert(haystack@[at + k] != needle@[k as int]);
        }
        at = at + 1;
    }
    assert forall|place: int| !occurs_at(haystack@, needle@, place) by {}
    false
}

} // verus!
