//! Text the producer writes into its errors and reads out of message
//! properties: decimal numbers, joined lists, prefixes.

use vstd::prelude::*;
use vstd::string::*;

verus! {

broadcast use vstd::string::group_string_axioms;

// ---------------------------------------------------------------------------
// Writing numbers
// ---------------------------------------------------------------------------

/// The decimal digit that stands for `d`.
pub open spec fn digit_char(d: int) -> char
    recommends
        0 <= d < 10,
{
    ('0' as int + d) as char
}

/// `n` written in decimal, without leading zeros.
pub open spec fn decimal(n: nat) -> Seq<char>
    decreases n,
{
    if n < 10 {
        seq![digit_char(n as int)]
    } else {
        decimal(n / 10).push(digit_char((n % 10) as int))
    }
}

fn digit_text(d: u128) -> (text: &'static str)
    requires
        d < 10,
    ensures
        text@ == seq![digit_char(d as int)],
{
    proof {
        reveal_strlit("0");
        reveal_strlit("1");
        reveal_strlit("2");
        reveal_strlit("3");
        reveal_strlit("4");
        reveal_strlit("5");
        reveal_strlit("6");
        reveal_strlit("7");
        reveal_strlit("8");
        reveal_strlit("9");
    }
    if d == 0 {
        "0"
    } else if d == 1 {
        "1"
    } else if d == 2 {
        "2"
    } else if d == 3 {
        "3"
    } else if d == 4 {
        "4"
    } else if d == 5 {
        "5"
    } else if d == 6 {
        "6"
    } else if d == 7 {
        "7"
    } else if d == 8 {
        "8"
    } else {
        "9"
    }
}

/// Appends `n` to `out`, in decimal.
pub fn append_decimal(out: &mut String, n: u128)
    ensures
        final(out)@ == old(out)@ + decimal(n as nat),
    decreases n,
{
    if n >= 10 {
        append_decimal(out, n / 10);
    }
    out.append(digit_text(n % 10));
    assert(out@ =~= old(out)@ + decimal(n as nat));
}

// ---------------------------------------------------------------------------
// Joining
// ---------------------------------------------------------------------------

/// What the texts of a list say.
pub open spec fn texts(list: Seq<String>) -> Seq<Seq<char>> {
    list.map_values(|text: String| text@)
}

/// The `parts`, in order, with `separator` between neighbours.
pub open spec fn joined(parts: Seq<Seq<char>>, separator: Seq<char>) -> Seq<char>
    decreases parts.len(),
{
    if parts.len() == 0 {
        Seq::empty()
    } else if parts.len() == 1 {
        parts[0]
    } else {
        joined(parts.drop_last(), separator) + separator + parts.last()
    }
}

/// Appends the joined `parts` to `out`.
pub fn append_joined(out: &mut String, parts: &Vec<String>, separator: &str)
    ensures
        final(out)@ == old(out)@ + joined(texts(parts@), separator@),
{
    let mut i: usize = 0;
    let ghost all = texts(parts@);
    assert(out@ =~= old(out)@ + joined(all.take(0), separator@));
    while i < parts.len()
        invariant
            i <= parts@.len(),
            all == texts(parts@),
            out@ == old(out)@ + joined(all.take(i as int), separator@),
        decreases parts@.len() - i,
    {
        if i > 0 {
            out.append(separator);
        }
        out.append(parts[i].as_str());
        proof {
            let next = all.take(i + 1);
            assert(next.drop_last() =~= all.take(i as int));
            assert(out@ =~= old(out)@ + joined(next, separator@));
        }
        i += 1;
    }
    assert(all.take(i as int) =~= all);
}

// ---------------------------------------------------------------------------
// Reading
// ---------------------------------------------------------------------------

/// Whether `text` begins with `prefix`.
pub open spec fn has_prefix(text: Seq<char>, prefix: Seq<char>) -> bool {
    prefix.len() <= text.len() && text.take(prefix.len() as int) == prefix
}

/// The characters of `text`.
fn characters(text: &str) -> (chars: Vec<char>)
    ensures
        chars@ == text@,
{
    let mut chars: Vec<char> = Vec::new();
    for c in it: text.chars()
        invariant
            chars@ == it.seq().take(it.index() as int),
            it.seq() == text@,
    {
        chars.push(c);
        assert(chars@ =~= it.seq().take(it.index() + 1));
    }
    assert(chars@ =~= text@);
    chars
}

/// Decides whether `text` begins with `prefix`.
pub fn starts_with(text: &str, prefix: &str) -> (yes: bool)
    ensures
        yes == has_prefix(text@, prefix@),
{
    let text_chars = characters(text);
    let prefix_chars = characters(prefix);
    if prefix_chars.len() > text_chars.len() {
        return false;
    }
    let mut i: usize = 0;
    while i < prefix_chars.len()
        invariant
            i <= prefix_chars@.len() <= text_chars@.len(),
            text_chars@ == text@,
            prefix_chars@ == prefix@,
            forall|j: int| 0 <= j < i ==> text@[j] == prefix@[j],
        decreases prefix_chars@.len() - i,
    {
        if text_chars[i] != prefix_chars[i] {
            assert(text@.take(prefix@.len() as int)[i as int] != prefix@[i as int]);
            return false;
        }
        i += 1;
    }
    assert(text@.take(prefix@.len() as int) =~= prefix@);
    true
}

/// Whether `c` is one of the ten decimal digits.
pub open spec fn is_digit(c: char) -> bool {
    '0' <= c <= '9'
}

/// The number that a run of decimal digits stands for.
pub open spec fn digits_value(digits: Seq<char>) -> int
    decreases digits.len(),
{
    if digits.len() == 0 {
        0
    } else {
        digits_value(digits.drop_last()) * 10 + (digits.last() as int - '0' as int)
    }
}

/// What is left of a number's text behind its sign, if it has one.
pub open spec fn unsigned_part(text: Seq<char>) -> Seq<char> {
    if text.len() > 0 && (text[0] == '-' || text[0] == '+') {
        text.skip(1)
    } else {
        text
    }
}

/// The number that the text of a signed integer stands for.
pub open spec fn signed_value(text: Seq<char>) -> int {
    if text.len() > 0 && text[0] == '-' {
        -digits_value(unsigned_part(text))
    } else {
        digits_value(unsigned_part(text))
    }
}

/// The 32-bit integer that `text` denotes: an optional sign and at least one
/// digit, nothing else, with a value that fits.
pub open spec fn denoted_i32(text: Seq<char>) -> Option<i32> {
    let digits = unsigned_part(text);
    if digits.len() > 0 && (forall|i: int| 0 <= i < digits.len() ==> is_digit(#[trigger] digits[i]))
        && i32::MIN <= signed_value(text) <= i32::MAX {
        Some(signed_value(text) as i32)
    } else {
        None
    }
}

proof fn lemma_digits_value_grows(digits: Seq<char>, k: int)
    requires
        0 <= k <= digits.len(),
        forall|i: int| 0 <= i < digits.len() ==> is_digit(#[trigger] digits[i]),
    ensures
        0 <= digits_value(digits.take(k)) <= digits_value(digits),
    decreases digits.len(),
{
    if digits.len() == 0 {
        assert(digits.take(k) =~= digits);
    } else {
        let shorter = digits.drop_last();
        assert forall|i: int| 0 <= i < shorter.len() implies is_digit(#[trigger] shorter[i]) by {
            assert(is_digit(digits[i]));
        }
        assert(is_digit(digits[digits.len() - 1]));
        if k == digits.len() {
            lemma_digits_value_grows(shorter, shorter.len() as int);
            assert(shorter.take(shorter.len() as int) =~= shorter);
            assert(digits.take(k) =~= digits);
        } else {
            lemma_digits_value_grows(shorter, k);
            assert(shorter.take(k) =~= digits.take(k));
        }
    }
}

/// One more than the largest 32-bit integer.
const I32_LIMIT: i64 = 2147483648;

/// Reads `text` as a 32-bit integer.
pub fn parse_i32(text: &str) -> (number: Option<i32>)
    ensures
        number == denoted_i32(text@),
{
    let chars = characters(text);
    let mut negative: bool = false;
    let mut start: usize = 0;
    if chars.len() > 0 && (chars[0] == '-' || chars[0] == '+') {
        negative = chars[0] == '-';
        start = 1;
    }
    let ghost digits = unsigned_part(text@);
    if start == chars.len() {
        assert(digits.len() == 0);
        return None;
    }
    let mut value: i64 = 0;
    let mut i: usize = start;
    assert(digits.take(0).len() == 0);
    while i < chars.len()
        invariant
            chars@ == text@,
            start <= i <= chars@.len(),
            start < chars@.len(),
            start == 0 || start == 1,
            start == 1 ==> digits == text@.skip(1),
            start == 0 ==> digits == text@,
            digits == unsigned_part(text@),
            negative == (text@.len() > 0 && text@[0] == '-'),
            0 <= value <= I32_LIMIT,
            value == digits_value(digits.take(i - start)),
            forall|j: int| 0 <= j < i - start ==> is_digit(#[trigger] digits[j]),
        decreases chars@.len() - i,
    {
        let c = chars[i];
        assert(digits[i - start] == c);
        if !('0' <= c && c <= '9') {
            return None;
        }
        let ghost before = digits.take(i - start);
        value = value * 10 + (c as i64 - '0' as i64);
        i += 1;
        proof {
            assert(digits.take(i - start).drop_last() =~= before);
            assert(value == digits_value(digits.take(i - start)));
        }
        if value > I32_LIMIT {
            proof {
                if forall|j: int| 0 <= j < digits.len() ==> is_digit(#[trigger] digits[j]) {
                    lemma_digits_value_grows(digits, i - start);
                }
            }
            return None;
        }
    }
    assert(digits.take(i - start) =~= digits);
    if negative {
        Some((-value) as i32)
    } else if value < I32_LIMIT {
        Some(value as i32)
    } else {
        None
    }
}

proof fn lemma_decimal_is_digits(n: nat)
    ensures
        decimal(n).len() > 0,
        forall|i: int| 0 <= i < decimal(n).len() ==> is_digit(#[trigger] decimal(n)[i]),
        digits_value(decimal(n)) == n,
    decreases n,
{
    if n < 10 {
        assert(decimal(n).drop_last().len() == 0);
        reveal_with_fuel(digits_value, 2);
    } else {
        lemma_decimal_is_digits(n / 10);
        assert(decimal(n).drop_last() =~= decimal(n / 10));
    }
}

/// A number that fits reads back as what was written.
pub proof fn law_written_number_reads_back(n: nat)
    requires
        n <= i32::MAX,
    ensures
        denoted_i32(decimal(n)) == Some(n as i32),
{
    lemma_decimal_is_digits(n);
    assert(is_digit(decimal(n)[0]));
}

/// A text begins with a prefix exactly if it is that prefix and something behind it.
pub proof fn law_prefix_stands_in_front(text: Seq<char>, prefix: Seq<char>, rest: Seq<char>, i: int)
    ensures
        has_prefix(prefix + rest, prefix),
        has_prefix(text, prefix) ==> text == prefix + text.skip(prefix.len() as int),
        text.len() < prefix.len() ==> !has_prefix(text, prefix),
        0 <= i < prefix.len() && i < text.len() && text[i] != prefix[i] ==> !has_prefix(
            text,
            prefix,
        ),
{
    assert((prefix + rest).take(prefix.len() as int) =~= prefix);
    if has_prefix(text, prefix) {
        assert(text =~= prefix + text.skip(prefix.len() as int)) by {
            assert forall|j: int| 0 <= j < prefix.len() implies text[j] == prefix[j] by {
                assert(text.take(prefix.len() as int)[j] == prefix[j]);
            }
        }
        if 0 <= i < prefix.len() {
            assert(text.take(prefix.len() as int)[i] == prefix[i]);
        }
    }
}

/// A digit is written as itself, and ten times a number plus a digit as the number
/// with the digit behind it.
pub proof fn law_decimal_goes_by_places(m: nat, d: nat)
    requires
        d < 10,
    ensures
        decimal(d).len() == 1,
        decimal(d)[0] as int == '0' as int + d,
        m > 0 ==> decimal(10 * m + d) == decimal(m) + decimal(d),
{
    if m > 0 {
        let n: nat = 10 * m + d;
        assert(n / 10 == m && n % 10 == d);
        assert(decimal(n) =~= decimal(m) + decimal(d));
    }
}

/// Joining sets a separator between neighbours and nowhere else.
pub proof fn law_joined_parts_are_separated(
    parts: Seq<Seq<char>>,
    part: Seq<char>,
    separator: Seq<char>,
)
    ensures
        joined(Seq::empty(), separator) == Seq::<char>::empty(),
        joined(seq![part], separator) == part,
        parts.len() > 0 ==> joined(parts.push(part), separator) == joined(parts, separator)
            + separator + part,
{
    assert(parts.push(part).drop_last() =~= parts);
}

/// The texts of a list are those of its entries.
pub proof fn law_texts_are_of_the_entries(list: Seq<String>, i: int)
    requires
        0 <= i < list.len(),
    ensures
        texts(list).len() == list.len(),
        texts(list)[i] == list[i]@,
{
}

/// A number is read with its sign if it fits into 32 bits, and not at all otherwise.
pub proof fn law_signed_numbers_are_read(n: nat)
    ensures
        n <= 2147483647 ==> denoted_i32(decimal(n)) == Some(n as i32) && denoted_i32(
            seq!['+'] + decimal(n),
        ) == Some(n as i32),
        n > 2147483647 ==> denoted_i32(decimal(n)) is None && denoted_i32(seq!['+'] + decimal(n))
            is None,
        n <= 2147483648 ==> denoted_i32(seq!['-'] + decimal(n)) == Some((-n) as i32),
        n > 2147483648 ==> denoted_i32(seq!['-'] + decimal(n)) is None,
{
    lemma_decimal_is_digits(n);
    assert(is_digit(decimal(n)[0]));
    assert((seq!['+'] + decimal(n)).skip(1) =~= decimal(n));
    assert((seq!['-'] + decimal(n)).skip(1) =~= decimal(n));
    assert((seq!['-'] + decimal(n))[0] == '-');
    assert((seq!['+'] + decimal(n))[0] == '+');
}

proof fn lemma_leading_zero_adds_nothing(digits: Seq<char>)
    ensures
        digits_value(seq!['0'] + digits) == digits_value(digits),
    decreases digits.len(),
{
    let longer = seq!['0'] + digits;
    if digits.len() == 0 {
        assert(longer.drop_last().len() == 0);
        reveal_with_fuel(digits_value, 2);
    } else {
        lemma_leading_zero_adds_nothing(digits.drop_last());
        assert(longer.drop_last() =~= seq!['0'] + digits.drop_last());
    }
}

/// Zeros in front of a number change nothing of what is read.
pub proof fn law_leading_zeros_do_not_count(digits: Seq<char>, sign: char)
    requires
        digits.len() > 0,
        '0' <= digits[0] <= '9',
        sign == '+' || sign == '-',
    ensures
        denoted_i32(seq!['0'] + digits) == denoted_i32(digits),
        denoted_i32(seq![sign] + (seq!['0'] + digits)) == denoted_i32(seq![sign] + digits),
{
    let longer = seq!['0'] + digits;
    lemma_leading_zero_adds_nothing(digits);
    assert((seq![sign] + longer).skip(1) =~= longer);
    assert((seq![sign] + digits).skip(1) =~= digits);
    assert((seq![sign] + longer)[0] == sign && (seq![sign] + digits)[0] == sign);
    assert(longer[0] == '0');
    assert((forall|i: int| 0 <= i < longer.len() ==> is_digit(#[trigger] longer[i])) == (forall|
        i: int,
    |
        0 <= i < digits.len() ==> is_digit(#[trigger] digits[i]))) by {
        if forall|i: int| 0 <= i < longer.len() ==> is_digit(#[trigger] longer[i]) {
            assert forall|i: int| 0 <= i < digits.len() implies is_digit(#[trigger] digits[i]) by {
                assert(is_digit(longer[i + 1]));
            }
        }
        if forall|i: int| 0 <= i < digits.len() ==> is_digit(#[trigger] digits[i]) {
            assert forall|i: int| 0 <= i < longer.len() implies is_digit(#[trigger] longer[i]) by {
                if i > 0 {
                    assert(is_digit(digits[i - 1]));
                }
            }
        }
    }
}

/// Nothing is read from a text without digits, nor from one with anything else in it
/// than digits behind a sign.
pub proof fn law_other_texts_are_no_numbers(text: Seq<char>, i: int)
    requires
        text.len() == 0 || (text.len() == 1 && !('0' <= text[0] <= '9')) || (0 <= i < text.len()
            && !('0' <= text[i] <= '9') && (i > 0 || (text[0] != '-' && text[0] != '+'))),
    ensures
        denoted_i32(text) is None,
{
    let digits = unsigned_part(text);
    if digits.len() > 0 {
        if 0 <= i < text.len() && !('0' <= text[i] <= '9') && (i > 0 || (text[0] != '-' && text[0]
            != '+')) {
            let at = i - (text.len() - digits.len());
            assert(!is_digit(digits[at]));
        } else {
            assert(!is_digit(digits[0]));
        }
    }
}

} // verus!
