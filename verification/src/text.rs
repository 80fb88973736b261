//! Text helpers: comparing strings, writing and reading decimal numbers,
//! joining pieces with a separator, lower-casing, and cutting the first
//! line out of a text.
use vstd::prelude::*;
use vstd::string::*;

verus! {

/// Whether two strings hold the same characters.
pub fn str_equal(a: &str, b: &str) -> (same: bool)
    ensures
        same == (a@ == b@),
{
    String::from_str(a) == String::from_str(b)
}

/// Two texts, one behind the other.
pub fn concat2(first: &str, second: &str) -> (text: String)
    ensures
        text@ == first@ + second@,
{
    let mut text = String::from_str(first);
    text.append(second);
    text
}

/// Three texts, one behind the other.
pub fn concat3(first: &str, second: &str, third: &str) -> (text: String)
    ensures
        text@ == first@ + second@ + third@,
{
    let mut text = String::from_str(first);
    text.append(second);
    text.append(third);
    text
}

/// The character that writes the digit `d`.
pub open spec fn digit_char(d: nat) -> char {
    if d == 0 {
        '0'
    } else if d == 1 {
        '1'
    } else if d == 2 {
        '2'
    } else if d == 3 {
        '3'
    } else if d == 4 {
        '4'
    } else if d == 5 {
        '5'
    } else if d == 6 {
        '6'
    } else if d == 7 {
        '7'
    } else if d == 8 {
        '8'
    } else {
        '9'
    }
}

/// The decimal notation of `n`, without leading zeros.
pub open spec fn decimal(n: nat) -> Seq<char>
    decreases n,
{
    if n < 10 {
        seq![digit_char(n)]
    } else {
        decimal(n / 10).push(digit_char(n % 10))
    }
}

/// The decimal notation of `i`, with a minus sign where `i` is negative.
pub open spec fn signed_decimal(i: int) -> Seq<char> {
    if i < 0 {
        seq!['-'] + decimal((-i) as nat)
    } else {
        decimal(i as nat)
    }
}

fn digit_text(d: u64) -> (text: &'static str)
    requires
        d < 10,
    ensures
        text@ == seq![digit_char(d as nat)],
{
    proof {
        reveal_strlit("0");
        reveal_strlit("1");
        reveal_strlit("2");
        reveal_strlit("3");
        reveal_strlit("4");
        reveal_strlit("5");
        reveal_strlit("6");
        reveal_strlit("7");
        reveal_strlit("8");
        reveal_strlit("9");
    }
    let text = if d == 0 {
        "0"
    } else if d == 1 {
        "1"
    } else if d == 2 {
        "2"
    } else if d == 3 {
        "3"
    } else if d == 4 {
        "4"
    } else if d == 5 {
        "5"
    } else if d == 6 {
        "6"
    } else if d == 7 {
        "7"
    } else if d == 8 {
        "8"
    } else {
        "9"
    };
    assert(text@ =~= seq![digit_char(d as nat)]);
    text
}

/// Writes `n` in decimal.
pub fn decimal_string(n: u64) -> (text: String)
    ensures
        text@ == decimal(n as nat),
    decreases n,
{
    if n < 10 {
        String::from_str(digit_text(n))
    } else {
        let mut text = decimal_string(n / 10);
        text.append(digit_text(n % 10));
        assert(text@ =~= decimal(n as nat));
        text
    }
}

/// Writes `i` in decimal, with a minus sign where it is negative.
pub fn signed_decimal_string(i: i32) -> (text: String)
    ensures
        text@ == signed_decimal(i as int),
{
    if i < 0 {
        let magnitude: u64 = (0 - (i as i64)) as u64;
        let mut text = String::from_str("-");
        let digits = decimal_string(magnitude);
        text.append(digits.as_str());
        proof {
            reveal_strlit("-");
            assert(text@ =~= signed_decimal(i as int));
        }
        text
    } else {
        decimal_string(i as u64)
    }
}

/// Whether `c` is one of the ten decimal digits.
pub open spec fn is_digit(c: char) -> bool {
    '0' <= c <= '9'
}

/// The number that a sequence of decimal digits writes.
pub open spec fn digits_value(digits: Seq<char>) -> nat
    decreases digits.len(),
{
    if digits.len() == 0 {
        0
    } else {
        digits_value(digits.drop_last()) * 10 + ((digits.last() as nat) - ('0' as nat)) as nat
    }
}

/// Whether every character is a decimal digit.
pub open spec fn all_digits(text: Seq<char>) -> bool {
    forall|i: int| 0 <= i < text.len() ==> is_digit(#[trigger] text[i])
}

/// Whether `text` starts with a sign.
pub open spec fn has_sign(text: Seq<char>) -> bool {
    text.len() > 0 && (text[0] == '-' || text[0] == '+')
}

/// The number that `text` writes as a 32-bit signed integer: an optional
/// sign, then one decimal digit or more, the value within the type's
/// range. Anything else writes no number.
pub open spec fn parse_i32(text: Seq<char>) -> Option<i32> {
    let digits = if has_sign(text) {
        text.skip(1)
    } else {
        text
    };
    let value: int = if has_sign(text) && text[0] == '-' {
        -(digits_value(digits) as int)
    } else {
        digits_value(digits) as int
    };
    if digits.len() == 0 || !all_digits(digits) || value < i32::MIN || value > i32::MAX {
        None
    } else {
        Some(value as i32)
    }
}

/// A longer run of digits writes a number at least as large.
proof fn lemma_digits_value_grows(digits: Seq<char>, k: int)
    requires
        0 <= k <= digits.len(),
    ensures
        digits_value(digits.take(k)) <= digits_value(digits),
    decreases digits.len() - k,
{
    if k < digits.len() {
        assert(digits.take(k + 1).drop_last() =~= digits.take(k));
        lemma_digits_value_grows(digits, k + 1);
    } else {
        assert(digits.take(k) =~= digits);
    }
}

/// Reads a 32-bit signed integer written in decimal.
pub fn parse_decimal_i32(text: &str) -> (number: Option<i32>)
    ensures
        number == parse_i32(text@),
{
    if !text.is_ascii() {
        proof {
            let bad = choose|i: int|
                0 <= i < text@.len() && !('\0' <= #[trigger] text@[i] <= '\u{7f}');
            assert(!is_digit(text@[bad]));
            if has_sign(text@) {
                assert(bad > 0);
                assert(text@.skip(1)[bad - 1] == text@[bad]);
            }
        }
        return None;
    }
    let len = text.unicode_len();
    if len == 0 {
        return None;
    }
    let first = text.get_ascii(0);
    assert('\0' <= text@[0] <= '\u{7f}');
    let negative = first == 45u8;
    let start: usize = if first == 45u8 || first == 43u8 {
        1
    } else {
        0
    };
    let ghost digits = text@.skip(start as int);
    assert(has_sign(text@) <==> start == 1);
    assert(negative <==> has_sign(text@) && text@[0] == '-');
    assert(start == 0 ==> digits =~= text@);
    if start == len {
        return None;
    }
    // The magnitude is at most 2^31, so it is gathered in a wider type.
    let mut magnitude: u64 = 0;
    let mut i: usize = start;
    assert(digits.take(0) =~= Seq::empty());
    while i < len
        invariant
            start <= i <= len,
            len == text@.len(),
            text.is_ascii(),
            digits == text@.skip(start as int),
            digits == if has_sign(text@) {
                text@.skip(1)
            } else {
                text@
            },
            forall|k: int| 0 <= k < i - start ==> is_digit(#[trigger] digits[k]),
            magnitude == digits_value(digits.take(i - start)),
            magnitude <= 2147483648,
        decreases len - i,
    {
        let byte = text.get_ascii(i);
        assert('\0' <= text@[i as int] <= '\u{7f}');
        assert(digits[i - start] == text@[i as int]);
        if byte < 48u8 || byte > 57u8 {
            assert(!is_digit(digits[i - start]));
            return None;
        }
        let digit: u64 = (byte - 48u8) as u64;
        assert(digits.take(i - start + 1).drop_last() =~= digits.take(i - start));
        assert(digits.take(i - start + 1).last() == digits[i - start]);
        magnitude = magnitude * 10 + digit;
        if magnitude > 2147483648 {
            proof {
                lemma_digits_value_grows(digits, i - start + 1);
            }
            return None;
        }
        i = i + 1;
    }
    assert(digits.take(len - start) =~= digits);
    assert(all_digits(digits));
    if negative {
        Some((0 - (magnitude as i64)) as i32)
    } else if magnitude == 2147483648 {
        None
    } else {
        Some(magnitude as i32)
    }
}

/// The pieces written one after another with `separator` between
/// neighbours.
pub open spec fn joined(pieces: Seq<Seq<char>>, separator: Seq<char>) -> Seq<char>
    decreases pieces.len(),
{
    if pieces.len() == 0 {
        Seq::empty()
    } else if pieces.len() == 1 {
        pieces[0]
    } else {
        joined(pieces.drop_last(), separator) + separator + pieces.last()
    }
}

/// Writes the pieces one after another with `separator` between neighbours.
pub fn join(pieces: &Vec<String>, separator: &str) -> (text: String)
    ensures
        text@ == joined(Seq::new(pieces@.len(), |i: int| pieces@[i]@), separator@),
{
    let ghost views = Seq::new(pieces@.len(), |i: int| pieces@[i]@);
    let mut text = String::new();
    let mut i: usize = 0;
    assert(views.take(0) =~= Seq::empty());
    while i < pieces.len()
        invariant
            i <= pieces@.len(),
            views == Seq::new(pieces@.len(), |i: int| pieces@[i]@),
            text@ == joined(views.take(i as int), separator@),
        decreases pieces@.len() - i,
    {
        if i > 0 {
            text.append(separator);
        }
        text.append(pieces[i].as_str());
        proof {
            assert(views.take(i + 1).drop_last() =~= views.take(i as int));
            assert(views.take(i + 1).last() == pieces@[i as int]@);
            if i == 0 {
                assert(text@ =~= views.take(1)[0]);
            }
        }
        i = i + 1;
    }
    assert(views.take(pieces@.len() as int) =~= views);
    text
}

/// The lower-case form of a text, as the standard library maps it.
pub uninterp spec fn lowercase(text: Seq<char>) -> Seq<char>;

/// `str::to_lowercase` of the standard library: the result is the
/// lower-case form of the argument, a function of its characters alone.
#[verifier::external_body]
pub(crate) fn to_lowercase(text: &str) -> (lower: String)
    ensures
        lower@ == lowercase(text@),
{
    text.to_lowercase()
}

/// Whether `c` is white space: a space, a tab, a line break or one of the
/// other characters that Unicode calls so.
pub open spec fn is_space(c: char) -> bool {
    let code = c as u32;
    ||| 0x09 <= code <= 0x0D
    ||| code == 0x20
    ||| code == 0x85
    ||| code == 0xA0
    ||| code == 0x1680
    ||| 0x2000 <= code <= 0x200A
    ||| code == 0x2028
    ||| code == 0x2029
    ||| code == 0x202F
    ||| code == 0x205F
    ||| code == 0x3000
}

/// Where the first line of `text` ends: at its first line feed, or at the
/// end of the text where there is none.
pub open spec fn line_end(text: Seq<char>) -> nat
    decreases text.len(),
{
    if text.len() == 0 || text[0] == '\n' {
        0
    } else {
        1 + line_end(text.skip(1))
    }
}

/// The first line of `text`, without its line feed.
pub open spec fn first_line(text: Seq<char>) -> Seq<char> {
    text.take(line_end(text) as int)
}

/// How many characters of white space `text` starts with.
pub open spec fn leading_spaces(text: Seq<char>) -> nat
    decreases text.len(),
{
    if text.len() == 0 || !is_space(text[0]) {
        0
    } else {
        1 + leading_spaces(text.skip(1))
    }
}

/// How many characters of white space `text` ends with.
pub open spec fn trailing_spaces(text: Seq<char>) -> nat
    decreases text.len(),
{
    if text.len() == 0 || !is_space(text.last()) {
        0
    } else {
        1 + trailing_spaces(text.drop_last())
    }
}

/// The text without the white space at its two ends.
pub open spec fn trimmed(text: Seq<char>) -> Seq<char> {
    if leading_spaces(text) == text.len() {
        Seq::empty()
    } else {
        text.subrange(leading_spaces(text) as int, text.len() - trailing_spaces(text))
    }
}

/// The first line ends where the first line feed stands.
proof fn lemma_line_end(text: Seq<char>, end: int)
    requires
        0 <= end <= text.len(),
        forall|k: int| 0 <= k < end ==> text[k] != '\n',
        end == text.len() || text[end] == '\n',
    ensures
        line_end(text) == end,
    decreases end,
{
    if end > 0 {
        assert forall|k: int| 0 <= k < end - 1 implies text.skip(1)[k] != '\n' by {
            assert(text.skip(1)[k] == text[k + 1]);
        }
        lemma_line_end(text.skip(1), end - 1);
    }
}

/// The leading white space ends at the first character that is none.
proof fn lemma_leading_spaces(text: Seq<char>, start: int)
    requires
        0 <= start <= text.len(),
        forall|k: int| 0 <= k < start ==> is_space(#[trigger] text[k]),
        start == text.len() || !is_space(text[start]),
    ensures
        leading_spaces(text) == start,
    decreases start,
{
    if start > 0 {
        assert(is_space(text[0]));
        assert forall|k: int| 0 <= k < start - 1 implies is_space(#[trigger] text.skip(1)[k]) by {
            assert(text.skip(1)[k] == text[k + 1]);
        }
        lemma_leading_spaces(text.skip(1), start - 1);
    }
}

/// The trailing white space starts behind the last character that is none.
proof fn lemma_trailing_spaces(text: Seq<char>, stop: int)
    requires
        0 <= stop <= text.len(),
        forall|k: int| stop <= k < text.len() ==> is_space(#[trigger] text[k]),
        stop == 0 || !is_space(text[stop - 1]),
    ensures
        trailing_spaces(text) == text.len() - stop,
    decreases text.len() - stop,
{
    if stop < text.len() {
        assert(is_space(text[text.len() - 1]));
        assert forall|k: int| stop <= k < text.drop_last().len() implies is_space(
            #[trigger] text.drop_last()[k],
        ) by {
            assert(text.drop_last()[k] == text[k]);
        }
        lemma_trailing_spaces(text.drop_last(), stop);
    }
}

fn is_space_char(c: char) -> (space: bool)
    ensures
        space == is_space(c),
{
    let code: u32 = c as u32;
    (0x09 <= code && code <= 0x0D) || code == 0x20 || code == 0x85 || code == 0xA0 || code
        == 0x1680 || (0x2000 <= code && code <= 0x200A) || code == 0x2028 || code == 0x2029
        || code == 0x202F || code == 0x205F || code == 0x3000
}

/// The first line of `text` without the white space at its two ends; the
/// empty text where `text` is empty.
pub fn first_line_trimmed(text: &str) -> (line: String)
    ensures
        line@ == trimmed(first_line(text@)),
{
    let len = text.unicode_len();
    let mut end: usize = 0;
    while end < len && text.get_char(end) != '\n'
        invariant
            end <= len,
            len == text@.len(),
            forall|k: int| 0 <= k < end ==> text@[k] != '\n',
        decreases len - end,
    {
        end = end + 1;
    }
    let ghost whole = text@.take(end as int);
    proof {
        lemma_line_end(text@, end as int);
    }
    let mut start: usize = 0;
    while start < end && is_space_char(text.get_char(start))
        invariant
            start <= end <= len,
            len == text@.len(),
            whole == text@.take(end as int),
            forall|k: int| 0 <= k < start ==> is_space(#[trigger] whole[k]),
        decreases end - start,
    {
        start = start + 1;
    }
    proof {
        lemma_leading_spaces(whole, start as int);
    }
    if start == end {
        return String::new();
    }
    let mut stop: usize = end;
    while stop > start && is_space_char(text.get_char(stop - 1))
        invariant
            start < end <= len,
            start <= stop <= end,
            len == text@.len(),
            whole == text@.take(end as int),
            !is_space(whole[start as int]),
            forall|k: int| stop <= k < end ==> is_space(#[trigger] whole[k]),
        decreases stop,
    {
        stop = stop - 1;
    }
    proof {
        lemma_trailing_spaces(whole, stop as int);
        assert(whole.subrange(start as int, stop as int) =~= text@.subrange(
            start as int,
            stop as int,
        ));
    }
    String::from_str(text.substring_char(start, stop))
}

} // verus!
