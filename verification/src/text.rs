//! Text helpers: prefixes, and decimal integers written as text.

use vstd::prelude::*;
use vstd::string::*;

verus! {

/// Equality of two string slices is equality of their characters.
pub assume_specification[ <str as PartialEq>::eq ](left: &str, right: &str) -> (equal: bool)
    ensures
        equal == (left@ == right@),
;

/// The views of a list of values, in order.
pub open spec fn views<T: View>(items: Seq<T>) -> Seq<T::V> {
    Seq::new(items.len(), |i: int| items[i]@)
}

/// The character sequences of a list of strings.
pub open spec fn texts(strings: Seq<String>) -> Seq<Seq<char>> {
    Seq::new(strings.len(), |i: int| strings[i]@)
}

/// The character sequence of an optional string.
pub open spec fn optional_text(string: Option<String>) -> Option<Seq<char>> {
    match string {
        Some(text) => Some(text@),
        None => None,
    }
}

/// A copy of a list of strings.
pub fn copy_strings(strings: &Vec<String>) -> (copy: Vec<String>)
    ensures
        texts(copy@) == texts(strings@),
{
    let mut copy: Vec<String> = Vec::new();
    let mut at: usize = 0;
    while at < strings.len()
        invariant
            at <= strings.len(),
            copy.len() == at,
            forall|i: int| 0 <= i < at ==> (#[trigger] copy@[i])@ == strings@[i]@,
        decreases strings.len() - at,
    {
        copy.push(strings[at].clone());
        at += 1;
    }
    assert(texts(copy@) =~= texts(strings@));
    copy
}

/// A copy of an optional string.
pub fn copy_optional_string(string: &Option<String>) -> (copy: Option<String>)
    ensures
        optional_text(copy) == optional_text(*string),
{
    match string {
        Some(text) => Some(text.clone()),
        None => None,
    }
}

/// Whether `text` begins with `prefix`.
pub fn starts_with(text: &str, prefix: &str) -> (found: bool)
    ensures
        found == prefix@.is_prefix_of(text@),
{
    let wanted: usize = prefix.unicode_len();
    if text.unicode_len() < wanted {
        return false;
    }
    let mut at: usize = 0;
    while at < wanted
        invariant
            at <= wanted,
            wanted == prefix@.len(),
            wanted <= text@.len(),
            forall|i: int| 0 <= i < at ==> prefix@[i] == text@[i],
        decreases wanted - at,
    {
        if prefix.get_char(at) != text.get_char(at) {
            return false;
        }
        at += 1;
    }
    true
}

/// Whether `c` is one of the ten decimal digits.
pub open spec fn is_digit(c: char) -> bool {
    '0' <= c <= '9'
}

/// Whether `digits` holds decimal digits only.
pub open spec fn all_digits(digits: Seq<char>) -> bool {
    forall|i: int| 0 <= i < digits.len() ==> is_digit(#[trigger] digits[i])
}

/// The number that a run of decimal digits writes, most significant digit first.
pub open spec fn digits_value(digits: Seq<char>) -> int
    decreases digits.len(),
{
    if digits.len() == 0 {
        0
    } else {
        digits_value(digits.drop_last()) * 10 + (digits.last() as int - '0' as int)
    }
}

/// The digits of a decimal integer, with the sign taken off.
pub open spec fn unsigned_part(text: Seq<char>) -> Seq<char> {
    if text.len() > 0 && (text[0] == '-' || text[0] == '+') {
        text.skip(1)
    } else {
        text
    }
}

/// The integer that `text` writes, before any bound is applied: an optional
/// sign, `+` or `-`, then the digits.
pub open spec fn signed_value(text: Seq<char>) -> int {
    if text.len() > 0 && text[0] == '-' {
        -digits_value(unsigned_part(text))
    } else {
        digits_value(unsigned_part(text))
    }
}

/// The `i64` that `text` writes in decimal, if it writes one: an optional
/// sign, at least one digit, nothing else, and a value within the type's range.
pub open spec fn decimal_i64(text: Seq<char>) -> Option<i64> {
    if unsigned_part(text).len() > 0 && all_digits(unsigned_part(text)) && i64::MIN
        <= signed_value(text) <= i64::MAX {
        Some(signed_value(text) as i64)
    } else {
        None
    }
}

/// A longer run of digits never writes a smaller number than its beginning.
pub proof fn lemma_digits_value_grows(digits: Seq<char>, k: int)
    requires
        all_digits(digits),
        0 <= k <= digits.len(),
    ensures
        0 <= digits_value(digits.take(k)) <= digits_value(digits),
    decreases digits.len() - k,
{
    if k == digits.len() {
        assert(digits.take(k) =~= digits);
        lemma_digits_value_nonnegative(digits);
    } else {
        lemma_digits_value_grows(digits, k + 1);
        let longer = digits.take(k + 1);
        assert(longer.drop_last() =~= digits.take(k));
        assert(is_digit(digits[k]));
        assert(longer.last() == digits[k]);
        lemma_digits_value_nonnegative(digits.take(k));
    }
}

/// A run of digits writes a number that is not negative.
pub proof fn lemma_digits_value_nonnegative(digits: Seq<char>)
    requires
        all_digits(digits),
    ensures
        0 <= digits_value(digits),
    decreases digits.len(),
{
    if digits.len() > 0 {
        assert(is_digit(digits.last()));
        lemma_digits_value_nonnegative(digits.drop_last());
    }
}

/// Reads a decimal `i64`: an optional sign, then digits. `None` for anything
/// else, and for a number outside the type's range.
pub fn parse_i64(text: &str) -> (number: Option<i64>)
    ensures
        number == decimal_i64(text@),
{
    if !text.is_ascii() {
        proof {
            let at = choose|i: int|
                0 <= i < text@.len() && !('\0' <= #[trigger] text@[i] && text@[i] <= '\u{7f}');
            if at > 0 || !(text@[0] == '-' || text@[0] == '+') {
                let digits = unsigned_part(text@);
                let shift: int = text@.len() - digits.len();
                assert(digits[at - shift] == text@[at]);
                assert(!is_digit(digits[at - shift]));
            }
        }
        return None;
    }
    let bytes = text.as_bytes();
    let length: usize = bytes.len();
    proof {
        is_ascii_spec_bytes(text);
    }
    if length == 0 {
        return None;
    }
    let negative: bool = bytes[0] == 45u8;
    let start: usize = if negative || bytes[0] == 43u8 {
        1
    } else {
        0
    };
    if start == length {
        return None;
    }
    let ghost digits = unsigned_part(text@);
    let limit: u64 = if negative {
        9223372036854775808u64
    } else {
        9223372036854775807u64
    };
    let mut magnitude: u64 = 0;
    let mut at: usize = start;
    while at < length
        invariant
            start <= at <= length,
            length == text@.len(),
            length == bytes@.len(),
            digits == unsigned_part(text@),
            digits.len() == length - start,
            forall|i: int| 0 <= i < digits.len() ==> digits[i] == text@[i + start],
            negative == (text@[0] == '-'),
            limit == if negative {
                9223372036854775808u64
            } else {
                9223372036854775807u64
            },
            forall|i: int| 0 <= i < length ==> bytes@[i] == text@[i] as u8,
            vstd::utf8::is_ascii_chars(text@),
            all_digits(digits.take(at - start)),
            magnitude == digits_value(digits.take(at - start)),
            magnitude <= limit,
        decreases length - at,
    {
        let byte: u8 = bytes[at];
        let ghost seen = digits.take(at - start);
        let ghost next = digits.take(at - start + 1);
        proof {
            assert(next.drop_last() =~= seen);
            assert(next.last() == text@[at as int]);
            assert(digits[at - start] == text@[at as int]);
            assert('\0' <= text@[at as int] <= '\u{7f}');
            assert(byte as int == text@[at as int] as int);
        }
        if byte < 48u8 || byte > 57u8 {
            proof {
                assert(!is_digit(digits[at - start]));
            }
            return None;
        }
        let digit: u64 = (byte - 48u8) as u64;
        proof {
            assert(is_digit(text@[at as int]));
            assert(digit == text@[at as int] as int - '0' as int);
            assert(all_digits(next));
        }
        if magnitude > (limit - digit) / 10 {
            proof {
                assert(digits_value(next) > limit);
                if all_digits(digits) {
                    lemma_digits_value_grows(digits, at - start + 1);
                }
            }
            return None;
        }
        magnitude = magnitude * 10 + digit;
        at += 1;
    }
    proof {
        assert(digits.take(at - start) =~= digits);
    }
    if negative {
        if magnitude == 9223372036854775808u64 {
            Some(i64::MIN)
        } else {
            Some(-(magnitude as i64))
        }
    } else {
        Some(magnitude as i64)
    }
}

/// The parts written one after the other, with `separator` between each
/// two of them.
pub open spec fn joined(parts: Seq<Seq<char>>, separator: Seq<char>) -> Seq<char>
    decreases parts.len(),
{
    if parts.len() == 0 {
        Seq::empty()
    } else if parts.len() == 1 {
        parts[0]
    } else {
        joined(parts.drop_last(), separator) + separator + parts.last()
    }
}

/// Whether `needle` stands somewhere in `text`, character for character.
pub open spec fn occurs_in(needle: Seq<char>, text: Seq<char>) -> bool {
    exists|start: int| #[trigger] stands_at(needle, text, start)
}

/// Whether `needle` stands in `text` from the place `start` on.
pub open spec fn stands_at(needle: Seq<char>, text: Seq<char>, start: int) -> bool {
    0 <= start && start + needle.len() <= text.len() && text.subrange(
        start,
        start + needle.len(),
    ) == needle
}

/// What stands in a text stands in every text that holds it.
pub proof fn lemma_occurs_in_longer(
    needle: Seq<char>,
    before: Seq<char>,
    text: Seq<char>,
    after: Seq<char>,
)
    requires
        occurs_in(needle, text),
    ensures
        occurs_in(needle, before + text + after),
{
    let start = choose|start: int| stands_at(needle, text, start);
    let longer = before + text + after;
    assert(longer.subrange(before.len() + start, before.len() + start + needle.len())
        =~= text.subrange(start, start + needle.len()));
    assert(stands_at(needle, longer, before.len() + start));
}

/// A text stands in itself.
pub proof fn lemma_occurs_in_itself(text: Seq<char>)
    ensures
        occurs_in(text, text),
{
    assert(text.subrange(0, text.len() as int) =~= text);
    assert(stands_at(text, text, 0));
}

/// Every part stands in the text that joins the parts.
pub proof fn lemma_joined_holds_each_part(parts: Seq<Seq<char>>, separator: Seq<char>, at: int)
    requires
        0 <= at < parts.len(),
    ensures
        occurs_in(parts[at], joined(parts, separator)),
    decreases parts.len(),
{
    let empty = Seq::<char>::empty();
    if parts.len() == 1 {
        lemma_occurs_in_itself(parts[0]);
    } else if at == parts.len() - 1 {
        lemma_occurs_in_itself(parts.last());
        lemma_occurs_in_longer(
            parts.last(),
            joined(parts.drop_last(), separator) + separator,
            parts.last(),
            empty,
        );
        assert(joined(parts.drop_last(), separator) + separator + parts.last() + empty =~= joined(
            parts,
            separator,
        ));
    } else {
        lemma_joined_holds_each_part(parts.drop_last(), separator, at);
        lemma_occurs_in_longer(
            parts[at],
            empty,
            joined(parts.drop_last(), separator),
            separator + parts.last(),
        );
        assert(empty + joined(parts.drop_last(), separator) + (separator + parts.last())
            =~= joined(parts, separator));
    }
}

/// Writes the strings one after the other, with `separator` between each
/// two of them.
pub fn join(parts: &Vec<String>, separator: &str) -> (text: String)
    ensures
        text@ == joined(texts(parts@), separator@),
{
    let mut text = String::new();
    let mut at: usize = 0;
    while at < parts.len()
        invariant
            at <= parts.len(),
            text@ == joined(texts(parts@).take(at as int), separator@),
        decreases parts.len() - at,
    {
        let ghost seen = texts(parts@).take(at as int);
        let ghost next = texts(parts@).take(at as int + 1);
        proof {
            assert(next.drop_last() =~= seen);
            assert(next.last() == parts@[at as int]@);
        }
        if at > 0 {
            text.append(separator);
        }
        text.append(parts[at].as_str());
        proof {
            if at == 0 {
                assert(text@ =~= next[0]);
            }
        }
        at += 1;
    }
    proof {
        assert(texts(parts@).take(at as int) =~= texts(parts@));
    }
    text
}

} // verus!
