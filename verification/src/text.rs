//! Text as sequences of characters: searching, splitting, trimming and
//! reading decimal numbers.
use vstd::prelude::*;

verus! {

/// `part` occurs in `text` as a contiguous run of characters.
pub open spec fn occurs(text: Seq<char>, part: Seq<char>) -> bool {
    exists|at: int| #[trigger] occurs_at(text, part, at)
}

/// `part` occurs in `text`, starting at position `at`.
pub open spec fn occurs_at(text: Seq<char>, part: Seq<char>, at: int) -> bool {
    &&& 0 <= at
    &&& at + part.len() <= text.len()
    &&& text.subrange(at, at + part.len()) == part
}

/// The pieces of `text` between occurrences of `separator`: always one more
/// than there are separators.
pub open spec fn pieces(text: Seq<char>, separator: char) -> Seq<Seq<char>>
    decreases text.len(),
{
    if text.len() == 0 {
        seq![Seq::<char>::empty()]
    } else {
        let before = pieces(text.drop_last(), separator);
        if text.last() == separator {
            before.push(Seq::<char>::empty())
        } else {
            before.drop_last().push(before.last().push(text.last()))
        }
    }
}

/// The texts of a list of strings.
pub open spec fn texts(list: Seq<String>) -> Seq<Seq<char>> {
    list.map_values(|text: String| text@)
}

/// The parts one after the other, with `separator` between them.
pub open spec fn joined(parts: Seq<Seq<char>>, separator: Seq<char>) -> Seq<char>
    decreases parts.len(),
{
    if parts.len() == 0 {
        Seq::empty()
    } else if parts.len() == 1 {
        parts[0]
    } else {
        joined(parts.drop_last(), separator) + separator + parts.last()
    }
}

/// The characters with the Unicode property `White_Space`.
pub open spec fn white_space(c: char) -> bool {
    ||| '\u{9}' <= c <= '\u{d}'
    ||| c == '\u{20}'
    ||| c == '\u{85}'
    ||| c == '\u{a0}'
    ||| c == '\u{1680}'
    ||| '\u{2000}' <= c <= '\u{200a}'
    ||| c == '\u{2028}'
    ||| c == '\u{2029}'
    ||| c == '\u{202f}'
    ||| c == '\u{205f}'
    ||| c == '\u{3000}'
}

/// `text` without the white space at its start.
pub open spec fn trim_start(text: Seq<char>) -> Seq<char>
    decreases text.len(),
{
    if text.len() > 0 && white_space(text.first()) {
        trim_start(text.drop_first())
    } else {
        text
    }
}

/// `text` without the white space at its end.
pub open spec fn trim_end(text: Seq<char>) -> Seq<char>
    decreases text.len(),
{
    if text.len() > 0 && white_space(text.last()) {
        trim_end(text.drop_last())
    } else {
        text
    }
}

/// `text` without the white space at either end.
pub open spec fn trimmed(text: Seq<char>) -> Seq<char> {
    trim_end(trim_start(text))
}

pub open spec fn is_digit(c: char) -> bool {
    '0' <= c <= '9'
}

pub open spec fn digit_value(c: char) -> int {
    c as int - '0' as int
}

/// The number that a run of decimal digits stands for.
pub open spec fn decimal_value(digits: Seq<char>) -> int
    decreases digits.len(),
{
    if digits.len() == 0 {
        0
    } else {
        decimal_value(digits.drop_last()) * 10 + digit_value(digits.last())
    }
}

/// Why a text is not an unsigned 64-bit number.
#[derive(Clone, Copy, Debug, PartialEq, Eq, Structural)]
pub enum NumberError {
    /// There is no text.
    Empty,
    /// A character is no decimal digit, or a sign stands alone.
    InvalidDigit,
    /// The digits exceed 64 bits before anything else is wrong.
    TooLarge,
}

/// The number read off `digits` from left to right, or what goes wrong first.
pub open spec fn digits_read(digits: Seq<char>) -> Result<u64, NumberError>
    decreases digits.len(),
{
    if digits.len() == 0 {
        Ok(0)
    } else {
        match digits_read(digits.drop_last()) {
            Err(e) => Err(e),
            Ok(head) => {
                let value = head * 10 + digit_value(digits.last());
                if !is_digit(digits.last()) {
                    Err(NumberError::InvalidDigit)
                } else if value > u64::MAX {
                    Err(NumberError::TooLarge)
                } else {
                    Ok(value as u64)
                }
            },
        }
    }
}

/// The unsigned number that `text` holds: an optional `+` and decimal digits.
pub open spec fn number_read(text: Seq<char>) -> Result<u64, NumberError> {
    if text.len() == 0 {
        Err(NumberError::Empty)
    } else if text.first() != '+' {
        digits_read(text)
    } else if text.len() == 1 {
        Err(NumberError::InvalidDigit)
    } else {
        digits_read(text.drop_first())
    }
}

/// Reading digits succeeds exactly on runs of digits whose value fits, and
/// gives that value.
pub proof fn digits_read_is_decimal_value(digits: Seq<char>)
    ensures
        digits_read(digits) matches Ok(n) ==> n == decimal_value(digits),
        digits_read(digits) is Ok <==> {
            &&& forall|i: int| 0 <= i < digits.len() ==> is_digit(#[trigger] digits[i])
            &&& decimal_value(digits) <= u64::MAX
        },
        (forall|i: int| 0 <= i < digits.len() ==> is_digit(#[trigger] digits[i]))
            ==> decimal_value(digits) >= 0,
    decreases digits.len(),
{
    if digits.len() > 0 {
        let init = digits.drop_last();
        digits_read_is_decimal_value(init);
        assert(forall|i: int| 0 <= i < init.len() ==> init[i] == digits[i]);
        if forall|i: int| 0 <= i < digits.len() ==> is_digit(#[trigger] digits[i]) {
            assert(forall|i: int| 0 <= i < init.len() ==> is_digit(#[trigger] init[i])) by {
                assert forall|i: int| 0 <= i < init.len() implies is_digit(#[trigger] init[i]) by {
                    assert(is_digit(digits[i]));
                }
            }
            assert(is_digit(digits[digits.len() - 1]));
        }
        if digits_read(digits) is Ok {
            assert forall|i: int| 0 <= i < digits.len() implies is_digit(#[trigger] digits[i]) by {
                if i < init.len() {
                    assert(is_digit(init[i]));
                }
            }
        }
    }
}

/// Copies a string slice into an array of characters.
pub fn chars_of(text: &str) -> (chars: Vec<char>)
    ensures
        chars@ == text@,
{
    let mut chars: Vec<char> = Vec::new();
    for c in it: text.chars()
        invariant
            chars@ == it.seq().take(it.index() as int),
            it.seq() == text@,
    {
        chars.push(c);
    }
    chars
}

/// Whether `part` occurs in `text`.
pub fn contains(text: &str, part: &str) -> (found: bool)
    ensures
        found == occurs(text@, part@),
{
    let text_chars = chars_of(text);
    let part_chars = chars_of(part);
    if part_chars.len() > text_chars.len() {
        return false;
    }
    let last: usize = text_chars.len() - part_chars.len();
    let mut at: usize = 0;
    while at <= last
        invariant
            text_chars@ == text@,
            part_chars@ == part@,
            last + part_chars@.len() == text_chars@.len(),
            at <= last + 1,
            forall|k: int| 0 <= k < at ==> !#[trigger] occurs_at(text@, part@, k),
        decreases last + 1 - at,
    {
        if matches_at(&text_chars, &part_chars, at) {
            return true;
        }
        if at == last {
            return false;
        }
        at += 1;
    }
    false
}

/// Whether `part` stands in `text` at position `at`.
fn matches_at(text: &Vec<char>, part: &Vec<char>, at: usize) -> (found: bool)
    requires
        at + part.len() <= text.len(),
    ensures
        found == occurs_at(text@, part@, at as int),
{
    let mut k: usize = 0;
    while k < part.len()
        invariant
            at + part.len() <= text.len(),
            k <= part@.len(),
            forall|j: int| 0 <= j < k ==> text@[at + j] == part@[j],
        decreases part@.len() - k,
    {
        if text[at + k] != part[k] {
            assert(text@.subrange(at as int, at + part@.len())[k as int] != part@[k as int]);
            return false;
        }
        k += 1;
    }
    assert(text@.subrange(at as int, at + part@.len()) =~= part@);
    true
}

/// Splits `text` at every `separator`.
pub fn split(text: &str, separator: char) -> (parts: Vec<String>)
    ensures
        texts(parts@) == pieces(text@, separator),
{
    let chars = chars_of(text);
    let mut parts: Vec<String> = Vec::new();
    let mut start: usize = 0;
    let mut at: usize = 0;
    assert(text@.take(0) =~= Seq::<char>::empty());
    while at < chars.len()
        invariant
            chars@ == text@,
            start <= at <= chars@.len(),
            pieces(text@.take(at as int), separator) == texts(parts@).push(
                text@.subrange(start as int, at as int),
            ),
        decreases chars@.len() - at,
    {
        let ghost before = texts(parts@);
        let ghost open = text@.subrange(start as int, at as int);
        assert(text@.take(at + 1).drop_last() =~= text@.take(at as int));
        assert(before.push(open).drop_last() =~= before);
        if chars[at] == separator {
            parts.push(text.substring_char(start, at).to_owned());
            assert(texts(parts@) =~= before.push(open));
            start = at + 1;
            assert(text@.subrange(start as int, at + 1) =~= Seq::<char>::empty());
        } else {
            assert(text@.subrange(start as int, at + 1) =~= open.push(text@[at as int]));
        }
        at += 1;
    }
    assert(text@.take(at as int) =~= text@);
    let ghost before = texts(parts@);
    parts.push(text.substring_char(start, at).to_owned());
    assert(texts(parts@) =~= before.push(text@.subrange(start as int, at as int)));
    parts
}

/// Puts parts together, with `separator` between them.
pub fn join(parts: &Vec<String>, separator: &str) -> (text: String)
    ensures
        text@ == joined(texts(parts@), separator@),
{
    let mut text = String::new();
    let mut i: usize = 0;
    while i < parts.len()
        invariant
            i <= parts@.len(),
            text@ == joined(texts(parts@).take(i as int), separator@),
        decreases parts@.len() - i,
    {
        let ghost so_far = texts(parts@).take(i as int);
        if i > 0 {
            text.append(separator);
        }
        text.append(parts[i].as_str());
        assert(texts(parts@).take(i + 1).drop_last() =~= so_far);
        assert(text@ =~= joined(texts(parts@).take(i + 1), separator@));
        i += 1;
    }
    assert(texts(parts@).take(i as int) =~= texts(parts@));
    text
}

/// Whether `c` has the Unicode property `White_Space`.
pub fn is_white_space(c: char) -> (white: bool)
    ensures
        white == white_space(c),
{
    ('\u{9}' <= c && c <= '\u{d}') || c == '\u{20}' || c == '\u{85}' || c == '\u{a0}' || c
        == '\u{1680}' || ('\u{2000}' <= c && c <= '\u{200a}') || c == '\u{2028}' || c == '\u{2029}'
        || c == '\u{202f}' || c == '\u{205f}' || c == '\u{3000}'
}

/// The part of `text` between the white space at its ends.
pub fn trim(text: &str) -> (inner: &str)
    ensures
        inner@ == trimmed(text@),
{
    let chars = chars_of(text);
    let mut from: usize = 0;
    assert(text@.skip(0) =~= text@);
    while from < chars.len() && is_white_space(chars[from])
        invariant
            chars@ == text@,
            from <= chars@.len(),
            trim_start(text@) == trim_start(text@.skip(from as int)),
        decreases chars@.len() - from,
    {
        assert(text@.skip(from as int).drop_first() =~= text@.skip(from + 1));
        from += 1;
    }
    let ghost rest = text@.skip(from as int);
    let mut to: usize = chars.len();
    assert(text@.subrange(from as int, to as int) =~= rest);
    while to > from && is_white_space(chars[to - 1])
        invariant
            chars@ == text@,
            from <= to <= chars@.len(),
            trim_end(rest) == trim_end(text@.subrange(from as int, to as int)),
        decreases to,
    {
        assert(text@.subrange(from as int, to as int).drop_last() =~= text@.subrange(
            from as int,
            to - 1,
        ));
        to -= 1;
    }
    text.substring_char(from, to)
}

/// Reads an unsigned decimal number, with an optional `+` before the digits.
pub fn parse_number(text: &str) -> (number: Result<u64, NumberError>)
    ensures
        number == number_read(text@),
{
    let chars = chars_of(text);
    if chars.len() == 0 {
        return Err(NumberError::Empty);
    }
    let mut at: usize = 0;
    if chars[0] == '+' {
        if chars.len() == 1 {
            return Err(NumberError::InvalidDigit);
        }
        at = 1;
    }
    let ghost from = at as int;
    let ghost digits = text@.skip(from);
    let mut value: u64 = 0;
    assert(digits =~= (if from == 0 { text@ } else { text@.drop_first() }));
    assert(digits.take(0) =~= Seq::<char>::empty());
    while at < chars.len()
        invariant
            chars@ == text@,
            0 <= from <= at <= chars@.len(),
            digits == text@.skip(from),
            digits_read(digits.take(at - from)) == Ok::<u64, NumberError>(value),
            number_read(text@) == digits_read(digits),
        decreases chars@.len() - at,
    {
        let c = chars[at];
        let ghost head = digits.take(at - from);
        let ghost longer = digits.take(at + 1 - from);
        assert(longer.drop_last() =~= head);
        assert(longer.last() == c);
        if c < '0' || '9' < c {
            proof {
                first_failure_stands(digits, at + 1 - from);
            }
            return Err(NumberError::InvalidDigit);
        }
        let digit: u64 = (c as u32 - '0' as u32) as u64;
        if value > (u64::MAX - digit) / 10 {
            assert(value * 10 + digit > u64::MAX);
            proof {
                first_failure_stands(digits, at + 1 - from);
            }
            return Err(NumberError::TooLarge);
        }
        value = value * 10 + digit;
        at += 1;
    }
    assert(digits.take(at - from) =~= digits);
    Ok(value)
}

/// What goes wrong within the first characters goes wrong for the whole.
proof fn first_failure_stands(digits: Seq<char>, len: int)
    requires
        0 <= len <= digits.len(),
        digits_read(digits.take(len)) is Err,
    ensures
        digits_read(digits) == digits_read(digits.take(len)),
    decreases digits.len(),
{
    if len == digits.len() {
        assert(digits.take(len) =~= digits);
    } else {
        assert(digits.drop_last().take(len) =~= digits.take(len));
        first_failure_stands(digits.drop_last(), len);
    }
}

} // verus!
