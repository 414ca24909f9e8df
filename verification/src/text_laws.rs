//! What searching, splitting, trimming and reading make of texts and JSON
//! documents, told by how the results relate to them.
use crate::json::{item_views, json_document, member_views, parse, Json, JsonView};
use crate::text::{
    chars_of, contains, decimal_value, digits_read, digits_read_is_decimal_value, is_digit,
    is_white_space, join, joined, number_read, occurs, occurs_at, parse_number, pieces, split,
    texts, trim, trim_end, trim_start, trimmed, white_space, NumberError,
};
use vstd::prelude::*;

verus! {

/// A text occurs in another where that is made of something, the text, and
/// something more.
pub proof fn what_occurs_stands_inside(text: Seq<char>, part: Seq<char>)
    ensures
        occurs(text, part) <==> exists|before: Seq<char>, after: Seq<char>|
            #![trigger before + part + after]
            text == before + part + after,
{
    if occurs(text, part) {
        let at = choose|at: int| #[trigger] occurs_at(text, part, at);
        let before = text.take(at);
        let after = text.skip(at + part.len());
        assert(text =~= before + text.subrange(at, at + part.len()) + after);
        assert(text == before + part + after);
    }
    if exists|before: Seq<char>, after: Seq<char>|
        #![trigger before + part + after]
        text == before + part + after {
        let (before, after) = choose|before: Seq<char>, after: Seq<char>|
            #![trigger before + part + after]
            text == before + part + after;
        let at = before.len() as int;
        assert(text.subrange(at, at + part.len()) =~= part);
        assert(occurs_at(text, part, at));
    }
}

/// Searching tells whether the text occurs.
pub proof fn searching_finds_what_occurs(text: &str, part: &str, found: bool)
    requires
        call_ensures(contains, (text, part), found),
    ensures
        found <==> occurs(text@, part@),
{
}

/// No parts make an empty text, one part makes itself, and a further part comes
/// behind a separator.
pub proof fn joining_puts_separators_between(
    parts: Seq<Seq<char>>,
    separator: Seq<char>,
    part: Seq<char>,
)
    ensures
        joined(Seq::empty(), separator).len() == 0,
        joined(seq![part], separator) == part,
        parts.len() > 0 ==> joined(parts.push(part), separator) == joined(parts, separator)
            + separator + part,
{
    if parts.len() > 0 {
        assert(parts.push(part).drop_last() =~= parts);
    }
}

/// The pieces of a text hold no separator, and joined by it they make the text.
pub proof fn splitting_cuts_at_every_separator(text: Seq<char>, separator: char)
    ensures
        pieces(text, separator).len() > 0,
        forall|i: int|
            0 <= i < pieces(text, separator).len() ==> !(#[trigger] pieces(
                text,
                separator,
            )[i]).contains(separator),
        joined(pieces(text, separator), seq![separator]) == text,
    decreases text.len(),
{
    let parts = pieces(text, separator);
    if text.len() == 0 {
        assert(parts[0] =~= text);
    } else {
        let head = text.drop_last();
        let before = pieces(head, separator);
        splitting_cuts_at_every_separator(head, separator);
        assert(before.drop_last().push(before.last()) =~= before);
        if text.last() == separator {
            joining_puts_separators_between(before, seq![separator], Seq::empty());
            assert(head + seq![separator] + Seq::<char>::empty() =~= text);
        } else {
            let last = before.last().push(text.last());
            assert forall|c: char| last.contains(c) implies before.last().contains(c) || c
                == text.last() by {
                let i = choose|i: int| 0 <= i < last.len() && last[i] == c;
                if i < before.last().len() {
                    assert(before.last()[i] == c);
                }
            }
            assert(!before[before.len() - 1].contains(separator));
            assert(!last.contains(separator));
            if before.len() == 1 {
                assert(before.drop_last() =~= Seq::empty());
                assert(parts =~= seq![last]);
                assert(before =~= seq![before.last()]);
                assert(head.push(text.last()) =~= text);
            } else {
                let init = before.drop_last();
                joining_puts_separators_between(init, seq![separator], before.last());
                joining_puts_separators_between(init, seq![separator], last);
                assert(joined(init, seq![separator]) + seq![separator] + last =~= (joined(
                    init,
                    seq![separator],
                ) + seq![separator] + before.last()).push(text.last()));
                assert(head.push(text.last()) =~= text);
            }
        }
    }
}

/// A text without a separator is one piece, and a piece more follows behind
/// each further separator.
pub proof fn pieces_follow_separators(text: Seq<char>, piece: Seq<char>, separator: char)
    requires
        !piece.contains(separator),
    ensures
        pieces(piece, separator) == seq![piece],
        pieces(text + seq![separator] + piece, separator) == pieces(text, separator).push(piece),
    decreases piece.len(),
{
    let whole = text + seq![separator] + piece;
    if piece.len() == 0 {
        assert(whole.drop_last() =~= text);
        assert(piece =~= Seq::empty());
        assert(pieces(piece, separator) =~= seq![piece]);
    } else {
        let head = piece.drop_last();
        assert(piece[piece.len() - 1] != separator);
        assert(!head.contains(separator)) by {
            if head.contains(separator) {
                let i = choose|i: int| 0 <= i < head.len() && head[i] == separator;
                assert(piece[i] == separator);
            }
        }
        pieces_follow_separators(text, head, separator);
        assert(whole.drop_last() =~= text + seq![separator] + head);
        assert(head.push(piece.last()) =~= piece);
        assert(pieces(text, separator).push(head).drop_last() =~= pieces(text, separator));
        assert(seq![head].drop_last() =~= Seq::empty());
        assert(pieces(piece, separator) =~= seq![piece]);
    }
}

/// Splitting and joining give the pieces of a text, and the text of parts.
pub proof fn lists_are_split_and_joined(
    text: &str,
    separator: char,
    parts: Vec<String>,
    list: Vec<String>,
    between: &str,
    whole: String,
)
    requires
        call_ensures(split, (text, separator), parts),
        call_ensures(join, (&list, between), whole),
    ensures
        parts@.len() == pieces(text@, separator).len(),
        forall|i: int|
            0 <= i < parts@.len() ==> #[trigger] parts@[i]@ == pieces(text@, separator)[i],
        whole@ == joined(list@.map_values(|part: String| part@), between@),
{
    assert(texts(parts@).len() == parts@.len());
    assert forall|i: int| 0 <= i < parts@.len() implies #[trigger] parts@[i]@ == pieces(
        text@,
        separator,
    )[i] by {
        assert(texts(parts@)[i] == parts@[i]@);
    }
}

/// White space is what Unicode calls so, by its code points.
pub proof fn white_space_by_code_point(c: char, white: bool)
    requires
        call_ensures(is_white_space, (c,), white),
    ensures
        white == white_space(c),
        white <==> ({
            let code = c as u32;
            ||| 0x9 <= code <= 0xd
            ||| code == 0x20
            ||| code == 0x85
            ||| code == 0xa0
            ||| code == 0x1680
            ||| 0x2000 <= code <= 0x200a
            ||| code == 0x2028
            ||| code == 0x2029
            ||| code == 0x202f
            ||| code == 0x205f
            ||| code == 0x3000
        }),
{
}

proof fn trim_start_cuts(text: Seq<char>)
    ensures
        trim_start(text).len() <= text.len(),
        trim_start(text) == text.skip(text.len() - trim_start(text).len()),
        forall|i: int|
            0 <= i < text.len() - trim_start(text).len() ==> white_space(#[trigger] text[i]),
        trim_start(text).len() > 0 ==> !white_space(trim_start(text)[0]),
    decreases text.len(),
{
    if text.len() > 0 && white_space(text.first()) {
        let rest = text.drop_first();
        trim_start_cuts(rest);
        assert forall|i: int|
            0 <= i < text.len() - trim_start(text).len() implies white_space(
            #[trigger] text[i],
        ) by {
            if i > 0 {
                assert(rest[i - 1] == text[i]);
            }
        }
        assert(text.skip(text.len() - trim_start(text).len()) =~= rest.skip(
            rest.len() - trim_start(rest).len(),
        ));
    } else {
        assert(text.skip(0) =~= text);
    }
}

proof fn trim_end_cuts(text: Seq<char>)
    ensures
        trim_end(text).len() <= text.len(),
        trim_end(text) == text.take(trim_end(text).len() as int),
        forall|i: int|
            trim_end(text).len() <= i < text.len() ==> white_space(#[trigger] text[i]),
        trim_end(text).len() > 0 ==> !white_space(trim_end(text).last()),
    decreases text.len(),
{
    if text.len() > 0 && white_space(text.last()) {
        let head = text.drop_last();
        trim_end_cuts(head);
        assert forall|i: int|
            trim_end(text).len() <= i < text.len() implies white_space(#[trigger] text[i]) by {
            if i < head.len() {
                assert(head[i] == text[i]);
            }
        }
        assert(text.take(trim_end(text).len() as int) =~= head.take(
            trim_end(head).len() as int,
        ));
    } else {
        assert(text.take(text.len() as int) =~= text);
    }
}

/// Trimming cuts white space, and nothing else, off both ends: a text is white
/// space, its trimmed text and white space, and the trimmed text neither begins
/// nor ends with any.
pub proof fn trimming_cuts_white_space(text: Seq<char>)
    ensures
        exists|from: int, to: int|
            #![trigger text.subrange(from, to)]
            {
                &&& 0 <= from <= to <= text.len()
                &&& trimmed(text) == text.subrange(from, to)
                &&& forall|i: int| 0 <= i < from ==> white_space(#[trigger] text[i])
                &&& forall|i: int| to <= i < text.len() ==> white_space(#[trigger] text[i])
            },
        trimmed(text).len() > 0 ==> !white_space(trimmed(text).first()) && !white_space(
            trimmed(text).last(),
        ),
{
    let rest = trim_start(text);
    trim_start_cuts(text);
    trim_end_cuts(rest);
    let from = text.len() - rest.len();
    let to = from + trimmed(text).len();
    assert(trimmed(text) =~= text.subrange(from, to));
    assert forall|i: int| to <= i < text.len() implies white_space(#[trigger] text[i]) by {
        assert(rest[i - from] == text[i]);
    }
    if trimmed(text).len() > 0 {
        assert(trimmed(text)[0] == rest[0]);
    }
}

/// No digits are worth nothing, and a further digit is worth itself behind ten
/// times the ones before it.
pub proof fn digits_count_by_tens(digits: Seq<char>, digit: char)
    ensures
        decimal_value(Seq::empty()) == 0,
        decimal_value(digits.push(digit)) == 10 * decimal_value(digits) + (digit as u32 as int
            - 48),
        is_digit(digit) <==> 48 <= digit as u32 <= 57,
{
    assert(digits.push(digit).drop_last() =~= digits);
}

/// The first `len` characters are digits worth more than 64 bits can hold.
pub open spec fn exceeds(digits: Seq<char>, len: int) -> bool {
    &&& 0 < len <= digits.len()
    &&& forall|i: int| 0 <= i < len ==> is_digit(#[trigger] digits[i])
    &&& decimal_value(digits.take(len)) > u64::MAX
}

/// Reading fails for size exactly where some digits at the start exceed 64
/// bits; any other failure is a character that is no digit.
pub proof fn too_many_digits_are_too_large(digits: Seq<char>)
    ensures
        digits_read(digits) == Err::<u64, _>(NumberError::TooLarge) <==> exists|len: int|
            exceeds(digits, len),
        digits_read(digits) matches Err(e) ==> e is TooLarge || e is InvalidDigit,
    decreases digits.len(),
{
    if digits.len() > 0 {
        let head = digits.drop_last();
        too_many_digits_are_too_large(head);
        digits_read_is_decimal_value(head);
        digits_read_is_decimal_value(digits);
        assert(digits.take(digits.len() as int) =~= digits);
        assert(head.take(head.len() as int) =~= head);
        if digits_read(digits) == Err::<u64, _>(NumberError::TooLarge) {
            if digits_read(head) is Err {
                let len = choose|len: int| exceeds(head, len);
                assert(digits.take(len) =~= head.take(len));
                assert forall|i: int| 0 <= i < len implies is_digit(#[trigger] digits[i]) by {
                    assert(head[i] == digits[i]);
                }
                assert(exceeds(digits, len));
            } else {
                assert forall|i: int| 0 <= i < digits.len() implies is_digit(
                    #[trigger] digits[i],
                ) by {
                    if i < head.len() {
                        assert(head[i] == digits[i]);
                    }
                }
                assert(exceeds(digits, digits.len() as int));
            }
        }
        if exists|len: int| exceeds(digits, len) {
            let len = choose|len: int| exceeds(digits, len);
            if len < digits.len() {
                assert(digits.take(len) =~= head.take(len));
                assert forall|i: int| 0 <= i < len implies is_digit(#[trigger] head[i]) by {
                    assert(head[i] == digits[i]);
                }
                assert(exceeds(head, len));
            } else {
                assert forall|i: int| 0 <= i < head.len() implies is_digit(
                    #[trigger] head[i],
                ) by {
                    assert(head[i] == digits[i]);
                }
                if decimal_value(head) > u64::MAX {
                    if head.len() > 0 {
                        assert(exceeds(head, head.len() as int));
                    }
                }
            }
        }
    }
}

/// A text without the plus sign that it may begin with.
pub open spec fn without_sign(text: Seq<char>) -> Seq<char> {
    if text.len() > 0 && text[0] == '+' {
        text.skip(1)
    } else {
        text
    }
}

/// A number is an optional plus sign and digits that fit into 64 bits, and is
/// worth what they are; an empty text, and nothing else, is told to be empty.
pub proof fn numbers_are_signed_digits(text: &str, number: Result<u64, NumberError>)
    requires
        call_ensures(parse_number, (text,), number),
    ensures
        number == number_read(text@),
        number == Err::<u64, _>(NumberError::Empty) <==> text@.len() == 0,
        number is Ok <==> {
            &&& without_sign(text@).len() > 0
            &&& forall|i: int|
                0 <= i < without_sign(text@).len() ==> is_digit(#[trigger] without_sign(text@)[i])
            &&& decimal_value(without_sign(text@)) <= u64::MAX
        },
        number matches Ok(n) ==> n == decimal_value(without_sign(text@)),
        number == Err::<u64, _>(NumberError::TooLarge) <==> exists|len: int|
            exceeds(without_sign(text@), len),
{
    let digits = without_sign(text@);
    if text@.len() > 0 {
        assert(text@.skip(1) =~= text@.drop_first());
    }
    digits_read_is_decimal_value(digits);
    too_many_digits_are_too_large(digits);
}

/// The characters of a text, and its trimmed text, are as they are.
pub proof fn texts_are_read_as_they_are(text: &str, chars: Vec<char>, inner: &str)
    requires
        call_ensures(chars_of, (text,), chars),
        call_ensures(trim, (text,), inner),
    ensures
        chars@ == text@,
        inner@ == trimmed(text@),
{
}

/// The member of an object is the value of the first member of that name;
/// nothing else has members.
pub proof fn members_are_found_by_name(
    members: Seq<(Seq<char>, JsonView)>,
    key: Seq<char>,
    at: int,
)
    requires
        0 <= at <= members.len(),
        at < members.len() ==> members[at].0 == key,
        forall|i: int| 0 <= i < at ==> (#[trigger] members[i]).0 != key,
    ensures
        JsonView::Object(members).get(key) == if at < members.len() {
            Some(members[at].1)
        } else {
            None
        },
    decreases members.len(),
{
    if members.len() > 0 && at > 0 {
        let rest = members.drop_first();
        assert(members[0].0 != key);
        assert forall|i: int| 0 <= i < at - 1 implies (#[trigger] rest[i]).0 != key by {
            assert(rest[i] == members[i + 1]);
        }
        members_are_found_by_name(rest, key, at - 1);
    }
}

/// Only objects have members, only strings texts, only booleans truth values and
/// only arrays items; a missing member reads as null.
pub proof fn documents_are_read_by_kind(value: JsonView, key: Seq<char>)
    ensures
        !(value is Object) ==> value.get(key) is None,
        match value.get(key) {
            Some(member) => value.at(key) == member,
            None => value.at(key) is Null,
        },
        match value {
            JsonView::Text(text) => value.as_text() == Some(text),
            _ => value.as_text() is None,
        },
        match value {
            JsonView::Bool(b) => value.as_bool() == Some(b),
            _ => value.as_bool() is None,
        },
        match value {
            JsonView::Array(items) => value.as_items() == Some(items),
            _ => value.as_items() is None,
        },
{
}

proof fn items_are_viewed_in_order(items: Seq<Json>)
    ensures
        item_views(items).len() == items.len(),
        forall|i: int| 0 <= i < items.len() ==> #[trigger] item_views(items)[i] == items[i]@,
    decreases items.len(),
{
    if items.len() > 0 {
        items_are_viewed_in_order(items.drop_last());
    }
}

proof fn members_are_viewed_in_order(members: Seq<(String, Json)>)
    ensures
        member_views(members).len() == members.len(),
        forall|i: int|
            0 <= i < members.len() ==> #[trigger] member_views(members)[i] == (
                members[i].0@,
                members[i].1@,
            ),
    decreases members.len(),
{
    if members.len() > 0 {
        members_are_viewed_in_order(members.drop_last());
    }
}

/// The view of a document is what the document holds, item by item and member by
/// member.
pub proof fn documents_are_what_they_hold(json: Json, i: int)
    ensures
        match json {
            Json::Null => json@ is Null,
            Json::Bool(b) => json@ == JsonView::Bool(b),
            Json::Number(n) => json@ == JsonView::Number(n@),
            Json::Text(t) => json@ == JsonView::Text(t@),
            Json::Array(items) => json@ matches JsonView::Array(views) && {
                &&& views.len() == items@.len()
                &&& 0 <= i < items@.len() ==> views[i] == items@[i]@
            },
            Json::Object(members) => json@ matches JsonView::Object(views) && {
                &&& views.len() == members@.len()
                &&& 0 <= i < members@.len() ==> views[i] == (members@[i].0@, members@[i].1@)
            },
        },
{
    match json {
        Json::Array(items) => {
            items_are_viewed_in_order(items@);
        },
        Json::Object(members) => {
            members_are_viewed_in_order(members@);
        },
        _ => {},
    }
}

/// Reading a document's parts gives the parts of its view.
pub proof fn documents_are_read_as_they_are(
    json: Json,
    key: &str,
    member: Option<&Json>,
    text: Option<&str>,
    truth: Option<bool>,
    object: bool,
)
    requires
        call_ensures(Json::get, (&json, key), member),
        call_ensures(Json::as_str, (&json,), text),
        call_ensures(Json::as_bool, (&json,), truth),
        call_ensures(Json::is_object, (&json,), object),
    ensures
        match member {
            Some(value) => json@.get(key@) == Some(value@),
            None => json@.get(key@) is None,
        },
        match text {
            Some(t) => json@ == JsonView::Text(t@),
            None => !(json@ is Text),
        },
        match truth {
            Some(b) => json@ == JsonView::Bool(b),
            None => !(json@ is Bool),
        },
        object <==> json@ is Object,
{
}

/// Reading the items of an array gives each of them, in order.
pub proof fn arrays_are_read_item_by_item(json: Json, items: Option<&Vec<Json>>, i: int)
    requires
        call_ensures(Json::as_array, (&json,), items),
    ensures
        match items {
            Some(list) => json@ matches JsonView::Array(views) && {
                &&& views.len() == list@.len()
                &&& 0 <= i < list@.len() ==> views[i] == list@[i]@
            },
            None => !(json@ is Array),
        },
{
}

/// Reading bytes gives the document that they are, or the words of the reader.
pub proof fn bytes_are_read_as_they_are(bytes: &[u8], json: Result<Json, String>)
    requires
        call_ensures(parse, (bytes,), json),
    ensures
        match json_document(bytes@) {
            Ok(document) => json matches Ok(read) && read@ == document,
            Err(why) => json matches Err(words) && words@ == why,
        },
{
}

} // verus!
