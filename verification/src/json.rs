//! JSON values as the library reads and builds them.
//!
//! A [`Json`] holds a document as plain data. Its view, [`JsonView`], is the
//! same document over sequences and mathematical integers; every contract
//! that speaks of a document speaks of that view. An object keeps its
//! members in the order in which they were handed over, and where a key
//! occurs twice the later member is the one that counts.

use serde_json::Value;
use vstd::prelude::*;
use vstd::string::*;

verus! {

/// A JSON number. A number with a fraction or an exponent is kept as the
/// text that writes it; the library never computes with it.
#[derive(Debug, Clone, PartialEq, Eq)]
pub enum JsonNumber {
    /// An integer that is not negative.
    PosInt(u64),
    /// A negative integer.
    NegInt(i64),
    /// A number that is no integer, as its decimal text.
    Float(String),
}

/// A JSON document.
#[derive(Debug, PartialEq, Eq)]
pub enum Json {
    Null,
    Bool(bool),
    Number(JsonNumber),
    String(String),
    Array(Vec<Json>),
    /// The members of an object, in order.
    Object(Vec<(String, Json)>),
}

/// The mathematical value of a [`Json`].
pub enum JsonView {
    Null,
    Bool(bool),
    /// An integer, whichever way it was stored.
    Integer(int),
    /// A number that is no integer, as its decimal text.
    Fraction(Seq<char>),
    String(Seq<char>),
    Array(Seq<JsonView>),
    Object(Seq<(Seq<char>, JsonView)>),
}

impl View for JsonNumber {
    type V = JsonView;

    open spec fn view(&self) -> JsonView {
        match self {
            JsonNumber::PosInt(n) => JsonView::Integer(*n as int),
            JsonNumber::NegInt(n) => JsonView::Integer(*n as int),
            JsonNumber::Float(text) => JsonView::Fraction(text@),
        }
    }
}

impl View for Json {
    type V = JsonView;

    open spec fn view(&self) -> JsonView
        decreases self,
    {
        match self {
            Json::Null => JsonView::Null,
            Json::Bool(b) => JsonView::Bool(*b),
            Json::Number(n) => n@,
            Json::String(s) => JsonView::String(s@),
            Json::Array(items) => JsonView::Array(
                Seq::new(
                    items@.len(),
                    |i: int|
                        if 0 <= i < items@.len() {
                            items@[i]@
                        } else {
                            JsonView::Null
                        },
                ),
            ),
            Json::Object(members) => JsonView::Object(
                Seq::new(
                    members@.len(),
                    |i: int|
                        if 0 <= i < members@.len() {
                            (members@[i].0@, members@[i].1@)
                        } else {
                            (Seq::empty(), JsonView::Null)
                        },
                ),
            ),
        }
    }
}

/// The views of the items of an array, in order.
pub open spec fn items_view(items: Seq<Json>) -> Seq<JsonView> {
    Seq::new(items.len(), |i: int| items[i]@)
}

/// The views of the members of an object, in order.
pub open spec fn members_view(members: Seq<(String, Json)>) -> Seq<(Seq<char>, JsonView)> {
    Seq::new(members.len(), |i: int| (members[i].0@, members[i].1@))
}

/// The view of an array is the array of its items' views.
pub proof fn lemma_array_view(items: Vec<Json>)
    ensures
        Json::Array(items)@ == JsonView::Array(items_view(items@)),
{
    assert(Json::Array(items)@->Array_0 =~= items_view(items@));
}

/// The view of an object is the object of its members' views.
pub proof fn lemma_object_view(members: Vec<(String, Json)>)
    ensures
        Json::Object(members)@ == JsonView::Object(members_view(members@)),
{
    reveal_with_fuel(<Json as View>::view, 2);
    let viewed = Json::Object(members)@->Object_0;
    assert forall|i: int| 0 <= i < viewed.len() implies viewed[i] == members_view(members@)[i] by {
        assert(viewed[i] == (members@[i].0@, members@[i].1@));
    }
    assert(viewed =~= members_view(members@));
}

/// Where the member named `key` stands among `members`: the place of the
/// last member with that name.
pub open spec fn member_index(members: Seq<(Seq<char>, JsonView)>, key: Seq<char>) -> Option<int>
    decreases members.len(),
{
    if members.len() == 0 {
        None
    } else if members.last().0 == key {
        Some(members.len() - 1)
    } else {
        member_index(members.drop_last(), key)
    }
}

/// The value of the member named `key`, if there is one.
pub open spec fn member(members: Seq<(Seq<char>, JsonView)>, key: Seq<char>) -> Option<JsonView> {
    match member_index(members, key) {
        Some(at) => Some(members[at].1),
        None => None,
    }
}

/// `members` with the member named `key` set to `value`: in the place where
/// that member stood, or at the end if there was none.
pub open spec fn with_member(
    members: Seq<(Seq<char>, JsonView)>,
    key: Seq<char>,
    value: JsonView,
) -> Seq<(Seq<char>, JsonView)> {
    match member_index(members, key) {
        Some(at) => members.update(at, (key, value)),
        None => members.push((key, value)),
    }
}

impl JsonView {
    /// The member `key` of an object; nothing for any other value.
    pub open spec fn field(self, key: Seq<char>) -> Option<JsonView> {
        match self {
            JsonView::Object(members) => member(members, key),
            _ => None,
        }
    }

    /// The text of a string; nothing for any other value.
    pub open spec fn as_str(self) -> Option<Seq<char>> {
        match self {
            JsonView::String(text) => Some(text),
            _ => None,
        }
    }

    /// An integer that an `i64` can hold; nothing for any other value.
    pub open spec fn as_i64(self) -> Option<i64> {
        match self {
            JsonView::Integer(n) if i64::MIN <= n <= i64::MAX => Some(n as i64),
            _ => None,
        }
    }

    /// The items of an array; nothing for any other value.
    pub open spec fn as_array(self) -> Option<Seq<JsonView>> {
        match self {
            JsonView::Array(items) => Some(items),
            _ => None,
        }
    }

    /// The members of an object, in order; nothing for any other value.
    pub open spec fn as_object(self) -> Option<Seq<(Seq<char>, JsonView)>> {
        match self {
            JsonView::Object(members) => Some(members),
            _ => None,
        }
    }

    /// Whether the value is a number.
    pub open spec fn is_number(self) -> bool {
        self is Integer || self is Fraction
    }
}

/// `member_index` finds a member exactly where the key stands and no later
/// member has it.
pub proof fn lemma_member_index_found(members: Seq<(Seq<char>, JsonView)>, key: Seq<char>, at: int)
    requires
        0 <= at < members.len(),
        members[at].0 == key,
        forall|later: int| at < later < members.len() ==> (#[trigger] members[later]).0 != key,
    ensures
        member_index(members, key) == Some(at),
    decreases members.len(),
{
    if at < members.len() - 1 {
        assert(members.last() == members[members.len() - 1]);
        lemma_member_index_found(members.drop_last(), key, at);
    }
}

/// `member_index` finds nothing exactly where no member has the key.
pub proof fn lemma_member_index_missing(members: Seq<(Seq<char>, JsonView)>, key: Seq<char>)
    requires
        forall|at: int| 0 <= at < members.len() ==> (#[trigger] members[at]).0 != key,
    ensures
        member_index(members, key) is None,
    decreases members.len(),
{
    if members.len() > 0 {
        assert(members.last() == members[members.len() - 1]);
        lemma_member_index_missing(members.drop_last(), key);
    }
}

/// What `member_index` answers is a place of the key after which the key
/// does not occur again; where it answers nothing, the key does not occur.
pub proof fn lemma_member_index_is_last(members: Seq<(Seq<char>, JsonView)>, key: Seq<char>)
    ensures
        match member_index(members, key) {
            Some(at) => 0 <= at < members.len() && members[at].0 == key && forall|later: int|
                at < later < members.len() ==> (#[trigger] members[later]).0 != key,
            None => forall|at: int| 0 <= at < members.len() ==> (#[trigger] members[at]).0 != key,
        },
    decreases members.len(),
{
    if members.len() > 0 && members.last().0 != key {
        let front = members.drop_last();
        lemma_member_index_is_last(front, key);
        assert forall|at: int| 0 <= at < front.len() implies front[at] == members[at] by {}
        match member_index(front, key) {
            Some(at) => {
                assert forall|later: int| at < later < members.len() implies (
                #[trigger] members[later]).0 != key by {
                    if later < front.len() {
                        assert(front[later] == members[later]);
                    }
                }
            },
            None => {
                assert forall|at: int| 0 <= at < members.len() implies (#[trigger] members[at]).0
                    != key by {
                    if at < front.len() {
                        assert(front[at] == members[at]);
                    }
                }
            },
        }
    }
}

/// Finds the place of the last member named `key`.
fn find_member(members: &Vec<(String, Json)>, key: &str) -> (found: Option<usize>)
    ensures
        match found {
            Some(at) => member_index(members_view(members@), key@) == Some(at as int) && at
                < members.len(),
            None => member_index(members_view(members@), key@) is None,
        },
{
    let mut at: usize = members.len();
    while at > 0
        invariant
            at <= members.len(),
            forall|later: int| at <= later < members.len() ==> (#[trigger] members@[later]).0@ != key@,
        decreases at,
    {
        at -= 1;
        if members[at].0.as_str().eq(key) {
            proof {
                let viewed = members_view(members@);
                assert forall|later: int| at < later < viewed.len() implies (
                #[trigger] viewed[later]).0 != key@ by {
                    assert(members@[later].0@ != key@);
                }
                lemma_member_index_found(viewed, key@, at as int);
            }
            return Some(at);
        }
    }
    proof {
        let viewed = members_view(members@);
        assert forall|at: int| 0 <= at < viewed.len() implies (#[trigger] viewed[at]).0 != key@ by {
            assert(members@[at].0@ != key@);
        }
        lemma_member_index_missing(viewed, key@);
    }
    None
}

impl Clone for Json {
    /// A copy with the same view.
    fn clone(&self) -> (copy: Json)
        ensures
            copy@ == self@,
        decreases self,
    {
        match self {
            Json::Null => Json::Null,
            Json::Bool(b) => Json::Bool(*b),
            Json::Number(JsonNumber::PosInt(n)) => Json::Number(JsonNumber::PosInt(*n)),
            Json::Number(JsonNumber::NegInt(n)) => Json::Number(JsonNumber::NegInt(*n)),
            Json::Number(JsonNumber::Float(text)) => Json::Number(JsonNumber::Float(text.clone())),
            Json::String(text) => Json::String(text.clone()),
            Json::Array(items) => {
                let mut copies: Vec<Json> = Vec::new();
                let mut at: usize = 0;
                while at < items.len()
                    invariant
                        self is Array,
                        self->Array_0 == *items,
                        at <= items.len(),
                        copies.len() == at,
                        forall|i: int| 0 <= i < at ==> copies@[i]@ == items@[i]@,
                    decreases items.len() - at,
                {
                    assert(decreases_to!(*self => self->Array_0));
                    assert(decreases_to!(*items => items[at as int]));
                    copies.push(items[at].clone());
                    at += 1;
                }
                proof {
                    lemma_array_view(*items);
                    lemma_array_view(copies);
                    assert(items_view(copies@) =~= items_view(items@));
                }
                Json::Array(copies)
            },
            Json::Object(members) => {
                let mut copies: Vec<(String, Json)> = Vec::new();
                let mut at: usize = 0;
                while at < members.len()
                    invariant
                        self is Object,
                        self->Object_0 == *members,
                        at <= members.len(),
                        copies.len() == at,
                        forall|i: int|
                            0 <= i < at ==> copies@[i].0@ == members@[i].0@ && copies@[i].1@
                                == members@[i].1@,
                    decreases members.len() - at,
                {
                    assert(decreases_to!(*self => self->Object_0));
                    assert(decreases_to!(*members => members[at as int]));
                    assert(decreases_to!(members[at as int] => members[at as int].1));
                    copies.push((members[at].0.clone(), members[at].1.clone()));
                    at += 1;
                }
                proof {
                    lemma_object_view(*members);
                    lemma_object_view(copies);
                    assert(members_view(copies@) =~= members_view(members@));
                }
                Json::Object(copies)
            },
        }
    }
}

impl Json {
    /// The string that holds `text`.
    pub fn string(text: &str) -> (json: Json)
        ensures
            json@ == JsonView::String(text@),
    {
        Json::String(String::from_str(text))
    }

    /// The integer `number`.
    pub fn from_i64(number: i64) -> (json: Json)
        ensures
            json@ == JsonView::Integer(number as int),
    {
        if number < 0 {
            Json::Number(JsonNumber::NegInt(number))
        } else {
            Json::Number(JsonNumber::PosInt(number as u64))
        }
    }

    /// The array of `items`.
    pub fn array(items: Vec<Json>) -> (json: Json)
        ensures
            json@ == JsonView::Array(items_view(items@)),
    {
        proof {
            lemma_array_view(items);
        }
        Json::Array(items)
    }

    /// The array of the strings `items`.
    pub fn strings_array(items: &Vec<String>) -> (json: Json)
        ensures
            json@ == JsonView::Array(
                crate::text::texts(items@).map_values(|text: Seq<char>| JsonView::String(text)),
            ),
    {
        let mut entries: Vec<Json> = Vec::new();
        let mut at: usize = 0;
        while at < items.len()
            invariant
                at <= items.len(),
                entries.len() == at,
                forall|i: int| 0 <= i < at ==> (#[trigger] entries@[i])@ == JsonView::String(items@[i]@),
            decreases items.len() - at,
        {
            entries.push(Json::string(items[at].as_str()));
            at += 1;
        }
        assert(items_view(entries@) =~= crate::text::texts(items@).map_values(
            |text: Seq<char>| JsonView::String(text),
        ));
        Json::array(entries)
    }

    /// The object of `members`, in their order.
    pub fn object(members: Vec<(String, Json)>) -> (json: Json)
        ensures
            json@ == JsonView::Object(members_view(members@)),
    {
        proof {
            lemma_object_view(members);
        }
        Json::Object(members)
    }

    /// Whether `members` hold a member named `key`.
    pub fn object_has(members: &Vec<(String, Json)>, key: &str) -> (present: bool)
        ensures
            present == member(members_view(members@), key@) is Some,
    {
        find_member(members, key).is_some()
    }

    /// The member `key` of an object. `None` where the value is no object or
    /// has no such member.
    pub fn get(&self, key: &str) -> (found: Option<&Json>)
        ensures
            match found {
                Some(value) => self@.field(key@) == Some(value@),
                None => self@.field(key@) is None,
            },
    {
        match self {
            Json::Object(members) => {
                proof {
                    lemma_object_view(*members);
                }
                match find_member(members, key) {
                    Some(at) => Some(&members[at].1),
                    None => None,
                }
            },
            _ => None,
        }
    }

    /// The text of a string. `None` for any other value.
    pub fn as_str(&self) -> (text: Option<&str>)
        ensures
            match text {
                Some(t) => self@.as_str() == Some(t@),
                None => self@.as_str() is None,
            },
    {
        match self {
            Json::String(text) => Some(text.as_str()),
            _ => None,
        }
    }

    /// The integer that the value holds, if it is one that an `i64` can hold.
    pub fn as_i64(&self) -> (number: Option<i64>)
        ensures
            number == self@.as_i64(),
    {
        match self {
            Json::Number(JsonNumber::PosInt(n)) => {
                if *n <= 9223372036854775807u64 {
                    Some(*n as i64)
                } else {
                    None
                }
            },
            Json::Number(JsonNumber::NegInt(n)) => Some(*n),
            _ => None,
        }
    }

    /// The items of an array. `None` for any other value.
    pub fn as_array(&self) -> (items: Option<&Vec<Json>>)
        ensures
            match items {
                Some(found) => self@.as_array() == Some(items_view(found@)),
                None => self@.as_array() is None,
            },
    {
        match self {
            Json::Array(items) => {
                proof {
                    lemma_array_view(*items);
                }
                Some(items)
            },
            _ => None,
        }
    }

    /// The members of an object, in order. `None` for any other value.
    pub fn as_object(&self) -> (members: Option<&Vec<(String, Json)>>)
        ensures
            match members {
                Some(found) => self@.as_object() == Some(members_view(found@)),
                None => self@.as_object() is None,
            },
    {
        match self {
            Json::Object(members) => {
                proof {
                    lemma_object_view(*members);
                }
                Some(members)
            },
            _ => None,
        }
    }
}

/// Sets the member named `key` to `value`: in the place of the member that
/// `get` finds under that name, or at the end where there is none.
pub fn set_member(members: &mut Vec<(String, Json)>, key: &str, value: Json)
    ensures
        members_view(final(members)@) == with_member(members_view(old(members)@), key@, value@),
{
    let ghost before = members_view(members@);
    match find_member(members, key) {
        Some(at) => {
            members.set(at, (String::from_str(key), value));
            assert(members_view(members@) =~= before.update(at as int, (key@, value@)));
        },
        None => {
            members.push((String::from_str(key), value));
            assert(members_view(members@) =~= before.push((key@, value@)));
        },
    }
}

/// Setting a member makes it the one that is found under its name, and
/// leaves what is found under every other name as it was.
pub proof fn lemma_with_member(
    members: Seq<(Seq<char>, JsonView)>,
    key: Seq<char>,
    value: JsonView,
    other: Seq<char>,
)
    ensures
        member(with_member(members, key, value), key) == Some(value),
        other != key ==> member(with_member(members, key, value), other) == member(members, other),
{
    let updated = with_member(members, key, value);
    lemma_member_index_is_last(members, key);
    lemma_member_index_is_last(members, other);
    match member_index(members, key) {
        Some(at) => {
            assert forall|later: int| at < later < updated.len() implies (
            #[trigger] updated[later]).0 != key by {
                assert(members[later].0 != key);
            }
            lemma_member_index_found(updated, key, at);
            if other != key {
                match member_index(members, other) {
                    Some(place) => {
                        assert forall|later: int| place < later < updated.len() implies (
                        #[trigger] updated[later]).0 != other by {
                            assert(members[later].0 != other);
                        }
                        lemma_member_index_found(updated, other, place);
                    },
                    None => {
                        assert forall|place: int| 0 <= place < updated.len() implies (
                        #[trigger] updated[place]).0 != other by {
                            assert(members[place].0 != other);
                        }
                        lemma_member_index_missing(updated, other);
                    },
                }
            }
        },
        None => {
            lemma_member_index_found(updated, key, members.len() as int);
            if other != key {
                assert(updated.drop_last() =~= members);
            }
        },
    }
}

/// `serde_json::Value`, the document type of the parser. Nothing inside a
/// value is visible here; a value is only handed from the parser to the
/// function that copies it.
#[verifier::external_type_specification]
#[verifier::external_body]
pub struct ExValue(serde_json::Value);

/// What `serde_json::from_str` makes of a text: the document it reads, or
/// the message of the error it reports.
pub uninterp spec fn parsed_json(text: Seq<char>) -> Result<JsonView, Seq<char>>;

/// The document that a `serde_json::Value` holds. The members of an object
/// stand in the order in which the value's map hands them out. An integer
/// is the one that `Number::as_u64` or `Number::as_i64` gives; any other
/// number is a fraction, written as its `Display` writes it.
pub uninterp spec fn value_json(value: Value) -> JsonView;

/// Reads a JSON text with `serde_json::from_str`. The contract gives the
/// outcome its name, [`parsed_json`]: on success the document that the
/// value holds, on failure the text of the error. Nothing else is claimed.
#[verifier::external_body]
fn parse_value(text: &str) -> (parsed: Result<Value, String>)
    ensures
        match parsed {
            Ok(value) => parsed_json(text@) == Ok::<JsonView, Seq<char>>(value_json(value)),
            Err(message) => parsed_json(text@) == Err::<JsonView, Seq<char>>(message@),
        },
{
    serde_json::from_str::<Value>(text).map_err(|error| error.to_string())
}

/// Copies a `serde_json::Value` into a [`Json`], variant by variant. The
/// contract says that the copy is the document that the value holds,
/// [`value_json`].
#[verifier::external_body]
fn json_from_value(value: &Value) -> (json: Json)
    ensures
        json@ == value_json(*value),
{
    match value {
        Value::Null => Json::Null,
        Value::Bool(flag) => Json::Bool(*flag),
        Value::String(text) => Json::String(text.clone()),
        Value::Array(items) => Json::Array(items.iter().map(json_from_value).collect()),
        Value::Object(map) => {
            Json::Object(map.iter().map(|(k, v)| (k.clone(), json_from_value(v))).collect())
        },
        Value::Number(number) => Json::Number(match (number.as_u64(), number.as_i64()) {
            (Some(n), _) => JsonNumber::PosInt(n),
            (_, Some(n)) => JsonNumber::NegInt(n),
            _ => JsonNumber::Float(number.to_string()),
        }),
    }
}

/// Reads a JSON text. The outcome is what [`parsed_json`] names: the
/// document, or the message of the error.
pub(crate) fn parse_json(text: &str) -> (parsed: Result<Json, String>)
    ensures
        match parsed {
            Ok(json) => parsed_json(text@) == Ok::<JsonView, Seq<char>>(json@),
            Err(message) => parsed_json(text@) == Err::<JsonView, Seq<char>>(message@),
        },
{
    match parse_value(text) {
        Ok(value) => Ok(json_from_value(&value)),
        Err(message) => Err(message),
    }
}

} // verus!
