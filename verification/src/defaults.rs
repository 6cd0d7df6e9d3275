//! Reading the members of a record with a default for what is missing.
//!
//! The cluster's answers change shape from one version to the next. Every
//! record the library builds is read through the functions of this module,
//! so that a member that is absent, or is not of the expected kind, yields
//! its default in one way everywhere and never fails the record.

use crate::json::{items_view, Json, JsonNumber, JsonView};
use crate::text::{decimal_i64, parse_i64, texts};
use vstd::prelude::*;
use vstd::string::*;

verus! {

/// The number of values of 32 bits.
pub open spec fn two_to_32() -> int {
    4294967296
}

/// The integer in the range of an `i32` that differs from `number` by a
/// multiple of two to the power of 32: the number that the low 32 bits of
/// `number` write in two's complement.
pub open spec fn wrapped_i32(number: int) -> int {
    (number + 2147483648) % two_to_32() - 2147483648
}

/// What wrapping gives lies in the range of an `i32`, and a number that
/// lies in that range is left as it is.
pub proof fn lemma_wrapped_i32(number: int)
    ensures
        -2147483648 <= wrapped_i32(number) <= 2147483647,
        -2147483648 <= number <= 2147483647 ==> wrapped_i32(number) == number,
        (number - wrapped_i32(number)) % two_to_32() == 0,
{
    let shifted = number + 2147483648;
    assert(0 <= shifted % 4294967296 < 4294967296);
    if -2147483648 <= number <= 2147483647 {
        assert(shifted % 4294967296 == shifted) by {
            vstd::arithmetic::div_mod::lemma_small_mod(shifted as nat, 4294967296);
        }
    }
    assert((number - wrapped_i32(number)) % 4294967296 == 0) by {
        vstd::arithmetic::div_mod::lemma_fundamental_div_mod(shifted, 4294967296);
        let q = shifted / 4294967296;
        assert(number - wrapped_i32(number) == 4294967296 * q);
        vstd::arithmetic::div_mod::lemma_mod_multiples_basic(q, 4294967296);
    }
}

/// Wraps an `i64` into the range of an `i32`.
pub fn wrap_i32(number: i64) -> (wrapped: i32)
    ensures
        wrapped == wrapped_i32(number as int),
{
    let shifted: i128 = number as i128 + 2147483648 + 9223372036854775808;
    let low: i128 = shifted % 4294967296;
    proof {
        let base: int = number + 2147483648;
        assert(9223372036854775808int == 4294967296 * 2147483648);
        vstd::arithmetic::div_mod::lemma_mod_multiples_vanish(2147483648, base, 4294967296);
        assert(shifted as int == 4294967296 * 2147483648 + base);
        assert(low == base % 4294967296);
    }
    (low - 2147483648) as i32
}

impl JsonView {
    /// The member `key`, or `Null` where there is none.
    pub open spec fn at(self, key: Seq<char>) -> JsonView {
        match self.field(key) {
            Some(value) => value,
            None => JsonView::Null,
        }
    }

    /// The member `key` where it is a string.
    pub open spec fn text(self, key: Seq<char>) -> Option<Seq<char>> {
        self.at(key).as_str()
    }

    /// The member `key` where it is a string, else `default`.
    pub open spec fn text_or(self, key: Seq<char>, default: Seq<char>) -> Seq<char> {
        match self.text(key) {
            Some(text) => text,
            None => default,
        }
    }

    /// The member `key` where it is a string that writes a decimal `i64`.
    pub open spec fn count(self, key: Seq<char>) -> Option<i64> {
        match self.text(key) {
            Some(text) => decimal_i64(text),
            None => None,
        }
    }

    /// The member `key` where it is a string that writes a decimal `i64`, else zero.
    pub open spec fn count_or_zero(self, key: Seq<char>) -> i64 {
        match self.count(key) {
            Some(count) => count,
            None => 0,
        }
    }

    /// The member `key` where it is an integer that an `i64` can hold.
    pub open spec fn integer(self, key: Seq<char>) -> Option<i64> {
        self.at(key).as_i64()
    }

    /// The member `key` where it is an integer that an `i64` can hold, else zero.
    pub open spec fn integer_or_zero(self, key: Seq<char>) -> i64 {
        match self.integer(key) {
            Some(number) => number,
            None => 0,
        }
    }

    /// The member `key` as a count of 32 bits: the integer where there is
    /// one that an `i64` can hold, wrapped into the range of an `i32`, else
    /// zero.
    pub open spec fn int32_or_zero(self, key: Seq<char>) -> i32 {
        wrapped_i32(self.integer_or_zero(key) as int) as i32
    }

    /// The member `key` where it is a number, else the integer zero.
    pub open spec fn number_or_zero(self, key: Seq<char>) -> JsonView {
        if self.at(key).is_number() {
            self.at(key)
        } else {
            JsonView::Integer(0)
        }
    }

    /// The strings among the items of an array, in order; no strings for any
    /// other value.
    pub open spec fn strings(self) -> Seq<Seq<char>> {
        match self {
            JsonView::Array(items) => items.filter_map(|item: JsonView| item.as_str()),
            _ => Seq::empty(),
        }
    }
}

/// A member that is missing gives its default: the default text, zero for
/// a count, and nothing where the member is optional.
pub proof fn lemma_missing_member_defaults(record: JsonView, key: Seq<char>, default: Seq<char>)
    requires
        record.field(key) is None,
    ensures
        record.text_or(key, default) == default,
        record.text(key) is None,
        record.count(key) is None,
        record.count_or_zero(key) == 0,
        record.integer(key) is None,
        record.integer_or_zero(key) == 0,
        record.int32_or_zero(key) == 0,
        record.number_or_zero(key) == JsonView::Integer(0),
        record.at(key).strings() == Seq::<Seq<char>>::empty(),
{
}

/// A member of the wrong kind gives the same defaults as a missing one: a
/// member that is no string where a text or a count written as text is
/// read, one that is no integer where an integer is read, one that is no
/// array where strings are listed.
pub proof fn lemma_malformed_member_defaults(record: JsonView, key: Seq<char>, default: Seq<char>)
    ensures
        record.at(key).as_str() is None ==> record.text_or(key, default) == default && record.text(
            key,
        ) is None && record.count(key) is None && record.count_or_zero(key) == 0,
        record.at(key).as_i64() is None ==> record.integer(key) is None && record.integer_or_zero(
            key,
        ) == 0 && record.int32_or_zero(key) == 0,
        !record.at(key).is_number() ==> record.number_or_zero(key) == JsonView::Integer(0),
        record.at(key).as_array() is None ==> record.at(key).strings() == Seq::<Seq<char>>::empty(),
{
}

/// A text that writes no decimal `i64` counts as zero where a count is
/// read with a default, and as nothing where the count is optional.
pub proof fn lemma_unreadable_count_defaults(record: JsonView, key: Seq<char>, text: Seq<char>)
    requires
        record.field(key) == Some(JsonView::String(text)),
        decimal_i64(text) is None,
    ensures
        record.count(key) is None,
        record.count_or_zero(key) == 0,
{
}

/// A record that is no object has no members, so every read of it gives
/// the default.
pub proof fn lemma_no_object_has_no_members(record: JsonView, key: Seq<char>)
    requires
        !(record is Object),
    ensures
        record.field(key) is None,
{
}

impl Json {
    /// The member `key` where it is a string.
    pub fn text(&self, key: &str) -> (text: Option<&str>)
        ensures
            match text {
                Some(found) => self@.text(key@) == Some(found@),
                None => self@.text(key@) is None,
            },
    {
        match self.get(key) {
            Some(value) => value.as_str(),
            None => None,
        }
    }

    /// The member `key` where it is a string, as an owned string.
    pub fn optional_text(&self, key: &str) -> (text: Option<String>)
        ensures
            match text {
                Some(found) => self@.text(key@) == Some(found@),
                None => self@.text(key@) is None,
            },
    {
        match self.text(key) {
            Some(found) => Some(String::from_str(found)),
            None => None,
        }
    }

    /// The member `key` where it is a string, else `default`.
    pub fn text_or(&self, key: &str, default: &str) -> (text: String)
        ensures
            text@ == self@.text_or(key@, default@),
    {
        match self.text(key) {
            Some(found) => String::from_str(found),
            None => String::from_str(default),
        }
    }

    /// The member `key` where it is a string that writes a decimal `i64`.
    pub fn count(&self, key: &str) -> (count: Option<i64>)
        ensures
            count == self@.count(key@),
    {
        match self.text(key) {
            Some(found) => parse_i64(found),
            None => None,
        }
    }

    /// The member `key` where it is a string that writes a decimal `i64`, else zero.
    pub fn count_or_zero(&self, key: &str) -> (count: i64)
        ensures
            count == self@.count_or_zero(key@),
    {
        match self.count(key) {
            Some(count) => count,
            None => 0,
        }
    }

    /// The member `key` where it is an integer that an `i64` can hold.
    pub fn integer(&self, key: &str) -> (number: Option<i64>)
        ensures
            number == self@.integer(key@),
    {
        match self.get(key) {
            Some(value) => value.as_i64(),
            None => None,
        }
    }

    /// The member `key` where it is an integer that an `i64` can hold, else zero.
    pub fn integer_or_zero(&self, key: &str) -> (number: i64)
        ensures
            number == self@.integer_or_zero(key@),
    {
        match self.integer(key) {
            Some(number) => number,
            None => 0,
        }
    }

    /// The member `key` as a count of 32 bits: the integer where there is
    /// one that an `i64` can hold, wrapped into the range of an `i32`, else
    /// zero.
    pub fn int32_or_zero(&self, key: &str) -> (number: i32)
        ensures
            number == self@.int32_or_zero(key@),
    {
        wrap_i32(self.integer_or_zero(key))
    }

    /// The member `key` where it is a number, else the integer zero.
    pub fn number_or_zero(&self, key: &str) -> (number: JsonNumber)
        ensures
            number@ == self@.number_or_zero(key@),
    {
        match self.get(key) {
            Some(Json::Number(JsonNumber::PosInt(n))) => JsonNumber::PosInt(*n),
            Some(Json::Number(JsonNumber::NegInt(n))) => JsonNumber::NegInt(*n),
            Some(Json::Number(JsonNumber::Float(text))) => JsonNumber::Float(text.clone()),
            _ => JsonNumber::PosInt(0),
        }
    }

    /// The strings among the items of an array, in order; no strings for any
    /// other value.
    pub fn strings(&self) -> (found: Vec<String>)
        ensures
            texts(found@) == self@.strings(),
    {
        let mut found: Vec<String> = Vec::new();
        match self.as_array() {
            Some(items) => {
                let ghost all = items_view(items@);
                let ghost pick = |item: JsonView| item.as_str();
                let mut at: usize = 0;
                assert(all.take(0) =~= Seq::<JsonView>::empty());
                assert(texts(found@) =~= all.take(0).filter_map(pick));
                while at < items.len()
                    invariant
                        at <= items.len(),
                        all == items_view(items@),
                        pick == |item: JsonView| item.as_str(),
                        texts(found@) == all.take(at as int).filter_map(pick),
                    decreases items.len() - at,
                {
                    proof {
                        all.lemma_filter_map_take_succ(pick, at as int);
                    }
                    match items[at].as_str() {
                        Some(text) => {
                            let ghost before = texts(found@);
                            found.push(String::from_str(text));
                            assert(texts(found@) =~= before + seq![text@]);
                        },
                        None => {},
                    }
                    at += 1;
                }
                assert(all.take(at as int) =~= all);
            },
            None => {
                assert(texts(found@) =~= Seq::<Seq<char>>::empty());
            },
        }
        found
    }
}

} // verus!
