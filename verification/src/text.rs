//! Text: decimal numerals, suffixes and comparison without regard to ASCII case.
use vstd::prelude::*;

verus! {

/// The character for a decimal digit.
pub open spec fn digit(d: nat) -> char {
    (48 + d) as char
}

/// The decimal numeral of a number, without leading zeros.
pub open spec fn decimal(n: nat) -> Seq<char>
    decreases n,
{
    if n < 10 {
        seq![digit(n)]
    } else {
        decimal(n / 10).push(digit(n % 10))
    }
}

/// Whether `text` ends in `suffix`.
pub open spec fn has_suffix(text: Seq<char>, suffix: Seq<char>) -> bool {
    suffix.len() <= text.len() && text.skip(text.len() - suffix.len()) == suffix
}

/// The ASCII lower case of a character; a character outside `A` to `Z` is its own.
pub open spec fn ascii_lower(c: char) -> char {
    if 'A' <= c <= 'Z' {
        (c as u32 + 32) as char
    } else {
        c
    }
}

/// Whether two texts differ at most in the case of ASCII letters.
pub open spec fn same_ignoring_ascii_case(a: Seq<char>, b: Seq<char>) -> bool {
    &&& a.len() == b.len()
    &&& forall|i: int| 0 <= i < a.len() ==> ascii_lower(#[trigger] a[i]) == ascii_lower(b[i])
}

/// The characters of `text`, in order.
pub(crate) fn chars_of(text: &str) -> (chars: Vec<char>)
    ensures
        chars@ == text@,
{
    let mut chars: Vec<char> = Vec::new();
    for c in it: text.chars()
        invariant
            it.seq() == text@,
            chars@ == text@.take(it.index()),
    {
        chars.push(c);
    }
    chars
}

fn digit_text(d: u32) -> (text: &'static str)
    requires
        d < 10,
    ensures
        text@ == seq![digit(d as nat)],
{
    proof {
        reveal_strlit("0");
        reveal_strlit("1");
        reveal_strlit("2");
        reveal_strlit("3");
        reveal_strlit("4");
        reveal_strlit("5");
        reveal_strlit("6");
        reveal_strlit("7");
        reveal_strlit("8");
        reveal_strlit("9");
    }
    match d {
        0 => "0",
        1 => "1",
        2 => "2",
        3 => "3",
        4 => "4",
        5 => "5",
        6 => "6",
        7 => "7",
        8 => "8",
        _ => "9",
    }
}

/// Writes a number in decimal.
pub fn decimal_text(n: u32) -> (text: String)
    ensures
        text@ == decimal(n as nat),
    decreases n,
{
    if n < 10 {
        String::from_str(digit_text(n))
    } else {
        let mut text = decimal_text(n / 10);
        text.append(digit_text(n % 10));
        text
    }
}

/// Whether `text` ends in `suffix`.
pub fn ends_with(text: &str, suffix: &str) -> (found: bool)
    ensures
        found == has_suffix(text@, suffix@),
{
    let text_chars = chars_of(text);
    let suffix_chars = chars_of(suffix);
    if suffix_chars.len() > text_chars.len() {
        return false;
    }
    let start: usize = text_chars.len() - suffix_chars.len();
    let ghost tail = text@.skip(start as int);
    let mut i: usize = 0;
    while i < suffix_chars.len()
        invariant
            text_chars@ == text@,
            suffix_chars@ == suffix@,
            start + suffix_chars.len() == text_chars.len(),
            tail == text@.skip(start as int),
            i <= suffix@.len(),
            forall|j: int| 0 <= j < i ==> tail[j] == suffix@[j],
        decreases suffix_chars.len() - i,
    {
        if text_chars[start + i] != suffix_chars[i] {
            assert(tail[i as int] != suffix@[i as int]);
            return false;
        }
        i += 1;
    }
    assert(tail =~= suffix@);
    true
}

fn to_ascii_lower(c: char) -> (lower: char)
    ensures
        lower == ascii_lower(c),
{
    if 'A' <= c && c <= 'Z' {
        (c as u8 + 32) as char
    } else {
        c
    }
}

/// Whether two texts are equal up to the case of ASCII letters.
pub fn eq_ignore_ascii_case(a: &str, b: &str) -> (same: bool)
    ensures
        same == same_ignoring_ascii_case(a@, b@),
{
    let a_chars = chars_of(a);
    let b_chars = chars_of(b);
    if a_chars.len() != b_chars.len() {
        return false;
    }
    let mut i: usize = 0;
    while i < a_chars.len()
        invariant
            a_chars@ == a@,
            b_chars@ == b@,
            a@.len() == b@.len(),
            i <= a@.len(),
            forall|j: int| 0 <= j < i ==> ascii_lower(#[trigger] a@[j]) == ascii_lower(b@[j]),
        decreases a_chars.len() - i,
    {
        if to_ascii_lower(a_chars[i]) != to_ascii_lower(b_chars[i]) {
            assert(ascii_lower(a@[i as int]) != ascii_lower(b@[i as int]));
            return false;
        }
        i += 1;
    }
    true
}

/// The number that a decimal numeral stands for.
pub open spec fn numeral_value(numeral: Seq<char>) -> int
    decreases numeral.len(),
{
    if numeral.len() == 0 {
        0
    } else {
        10 * numeral_value(numeral.drop_last()) + (numeral.last() as int - '0' as int)
    }
}

/// A numeral reads back as the number it was written for, holds digits alone, and starts
/// with a zero only where it is the numeral of zero.
pub proof fn law_decimal_reads_back(n: nat)
    ensures
        numeral_value(decimal(n)) == n,
        decimal(n).len() > 0,
        forall|i: int| 0 <= i < decimal(n).len() ==> '0' <= #[trigger] decimal(n)[i] <= '9',
        decimal(n)[0] == '0' ==> n == 0 && decimal(n).len() == 1,
    decreases n,
{
    reveal_with_fuel(numeral_value, 2);
    if n >= 10 {
        law_decimal_reads_back(n / 10);
        assert(decimal(n).drop_last() =~= decimal(n / 10));
    } else {
        assert(decimal(n).drop_last() =~= seq![]);
    }
}

/// Another digit behind a numeral makes it ten times as large, and the digit more.
pub proof fn law_decimal_grows_by_digits(n: nat, d: nat)
    requires
        d < 10,
    ensures
        decimal(d) == seq![('0' as int + d) as char],
        n > 0 ==> decimal(10 * n + d) == decimal(n) + seq![('0' as int + d) as char],
{
    if n > 0 {
        assert((10 * n + d) / 10 == n && (10 * n + d) % 10 == d);
    }
}

/// A text ends in a suffix exactly where it is something followed by that suffix.
pub proof fn law_suffix_comes_last(text: Seq<char>, suffix: Seq<char>)
    ensures
        has_suffix(text, suffix) <==> exists|front: Seq<char>| text == #[trigger] (front + suffix),
{
    if has_suffix(text, suffix) {
        let front = text.take(text.len() - suffix.len());
        assert(text =~= front + suffix);
    }
    if exists|front: Seq<char>| text == #[trigger] (front + suffix) {
        let front = choose|front: Seq<char>| text == #[trigger] (front + suffix);
        assert(text.skip(text.len() - suffix.len()) =~= suffix);
    }
}

/// Two texts are the same up to ASCII case exactly where, place by place, they hold one
/// character, or the capital and the small form of one ASCII letter.
pub proof fn law_ascii_case_is_all_that_is_ignored(a: Seq<char>, b: Seq<char>)
    ensures
        same_ignoring_ascii_case(a, b) <==> {
            &&& a.len() == b.len()
            &&& forall|i: int|
                0 <= i < a.len() ==> {
                    ||| #[trigger] a[i] == b[i]
                    ||| 'A' <= a[i] <= 'Z' && b[i] as int == a[i] as int + 32
                    ||| 'A' <= b[i] <= 'Z' && a[i] as int == b[i] as int + 32
                }
        },
        same_ignoring_ascii_case(a, b) == same_ignoring_ascii_case(b, a),
{
    assert forall|x: char, y: char|
        #![trigger ascii_lower(x), ascii_lower(y)]
        ascii_lower(x) == ascii_lower(y) <==> {
            ||| x == y
            ||| 'A' <= x <= 'Z' && y as int == x as int + 32
            ||| 'A' <= y <= 'Z' && x as int == y as int + 32
        } by {}
    if same_ignoring_ascii_case(b, a) {
        assert(forall|i: int| 0 <= i < a.len() ==> ascii_lower(#[trigger] b[i]) == ascii_lower(a[i]));
        assert forall|i: int| 0 <= i < a.len() implies ascii_lower(#[trigger] a[i]) == ascii_lower(
            b[i],
        ) by {
            let _ = b[i];
        }
    }
    if same_ignoring_ascii_case(a, b) {
        assert forall|i: int| 0 <= i < b.len() implies ascii_lower(#[trigger] b[i]) == ascii_lower(
            a[i],
        ) by {
            let _ = a[i];
        }
    }
}

} // verus!
