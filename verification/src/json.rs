//! JSON values as the library holds them, and the calls into `serde_json`
//! that read and write JSON text.

use vstd::prelude::*;

verus! {

/// A JSON value as `serde_json` holds it.
#[verifier::external_type_specification]
#[verifier::external_body]
pub struct ExValue(serde_json::Value);

/// A JSON number as `serde_json` holds it.
#[verifier::external_type_specification]
#[verifier::external_body]
pub struct ExNumber(serde_json::Number);

/// A JSON number. An integer keeps its value; of any other number only the
/// fact that it is one is kept.
#[derive(Debug, Clone, Copy, PartialEq, Eq, Structural)]
pub enum JsonNumber {
    /// An integer from zero to `u64::MAX`.
    PosInt(u64),
    /// An integer below zero.
    NegInt(i64),
    /// A number with a fraction or an exponent, or one outside both ranges.
    Float,
}

/// A JSON value. The members of an object stand in the order in which the
/// text's reader hands them out; a lookup takes the first of a name.
#[derive(Debug)]
pub enum Json {
    Null,
    Bool(bool),
    Number(JsonNumber),
    String(String),
    Array(Vec<Json>),
    Object(Vec<(String, Json)>),
}

/// The mathematical value of a [`Json`].
pub enum JsonValue {
    Null,
    Bool(bool),
    Number(JsonNumber),
    String(Seq<char>),
    Array(Seq<JsonValue>),
    Object(Seq<(Seq<char>, JsonValue)>),
}

impl View for Json {
    type V = JsonValue;

    open spec fn view(&self) -> JsonValue {
        json_value(*self)
    }
}

/// The value of `j`: that of each element and each member, in order.
pub open spec fn json_value(j: Json) -> JsonValue
    decreases j, 0nat,
{
    match j {
        Json::Null => JsonValue::Null,
        Json::Bool(b) => JsonValue::Bool(b),
        Json::Number(n) => JsonValue::Number(n),
        Json::String(s) => JsonValue::String(s@),
        Json::Array(items) => JsonValue::Array(values_upto(items@, items@.len())),
        Json::Object(members) => JsonValue::Object(members_upto(members@, members@.len())),
    }
}

/// The values of the first `n` of `items`.
pub open spec fn values_upto(items: Seq<Json>, n: nat) -> Seq<JsonValue>
    decreases items, n,
{
    if n == 0 || n > items.len() {
        Seq::empty()
    } else {
        values_upto(items, (n - 1) as nat).push(json_value(items[n - 1]))
    }
}

/// The names and values of the first `n` of `members`.
pub open spec fn members_upto(members: Seq<(String, Json)>, n: nat) -> Seq<(Seq<char>, JsonValue)>
    decreases members, n,
{
    if n == 0 || n > members.len() {
        Seq::empty()
    } else {
        members_upto(members, (n - 1) as nat).push(
            (members[n - 1].0@, json_value(members[n - 1].1)),
        )
    }
}

/// The values of a run of [`Json`]s, one for one.
pub open spec fn json_values(items: Seq<Json>) -> Seq<JsonValue> {
    Seq::new(items.len(), |i: int| items[i]@)
}

/// The first member of `members` from index `from` on that is called `name`.
pub open spec fn find_member(
    members: Seq<(Seq<char>, JsonValue)>,
    name: Seq<char>,
    from: nat,
) -> Option<JsonValue>
    decreases members.len() - from,
{
    if from >= members.len() {
        None
    } else if members[from as int].0 == name {
        Some(members[from as int].1)
    } else {
        find_member(members, name, from + 1)
    }
}

/// The members of an object, each name beside its value.
pub open spec fn json_members(members: Seq<(String, Json)>) -> Seq<(Seq<char>, JsonValue)> {
    Seq::new(members.len(), |i: int| (members[i].0@, members[i].1@))
}

/// The first `n` values of `items`, one for one.
pub proof fn lemma_values_upto(items: Seq<Json>, n: nat)
    requires
        n <= items.len(),
    ensures
        values_upto(items, n).len() == n,
        forall|i: int| 0 <= i < n ==> (#[trigger] values_upto(items, n)[i]) == items[i]@,
    decreases n,
{
    if n > 0 {
        lemma_values_upto(items, (n - 1) as nat);
    }
}

/// The first `n` members of `members`, one for one.
pub proof fn lemma_members_upto(members: Seq<(String, Json)>, n: nat)
    requires
        n <= members.len(),
    ensures
        members_upto(members, n).len() == n,
        forall|i: int|
            0 <= i < n ==> (#[trigger] members_upto(members, n)[i]) == (
                members[i].0@,
                members[i].1@,
            ),
    decreases n,
{
    if n > 0 {
        lemma_members_upto(members, (n - 1) as nat);
    }
}

/// The value of an array is the array of its elements' values.
pub proof fn lemma_array_view(j: Json)
    requires
        j is Array,
    ensures
        j@ == JsonValue::Array(json_values(j->Array_0@)),
{
    let items = j->Array_0@;
    lemma_values_upto(items, items.len());
    assert(values_upto(items, items.len()) =~= json_values(items));
}

/// The value of an object lists its members' names and values in order.
pub proof fn lemma_object_view(j: Json)
    requires
        j is Object,
    ensures
        j@ == JsonValue::Object(json_members(j->Object_0@)),
{
    let members = j->Object_0@;
    lemma_members_upto(members, members.len());
    assert(members_upto(members, members.len()) =~= json_members(members));
}

impl JsonValue {
    /// The member called `name` of an object; `None` for any other value and
    /// for an object without such a member.
    pub open spec fn member(self, name: Seq<char>) -> Option<JsonValue> {
        match self {
            JsonValue::Object(members) => find_member(members, name, 0),
            _ => None,
        }
    }

    /// The member called `name`, or `Null` where there is none.
    pub open spec fn field(self, name: Seq<char>) -> JsonValue {
        match self.member(name) {
            Some(v) => v,
            None => JsonValue::Null,
        }
    }

    /// The element at `index` of an array; `None` for any other value and
    /// for an index past the end.
    pub open spec fn element(self, index: nat) -> Option<JsonValue> {
        match self {
            JsonValue::Array(items) => if index < items.len() {
                Some(items[index as int])
            } else {
                None
            },
            _ => None,
        }
    }

    /// The element at `index`, or `Null` where there is none.
    pub open spec fn item(self, index: nat) -> JsonValue {
        match self.element(index) {
            Some(v) => v,
            None => JsonValue::Null,
        }
    }

    /// The number as a `u64`, where the value is an integer of that range.
    pub open spec fn as_u64(self) -> Option<u64> {
        match self {
            JsonValue::Number(JsonNumber::PosInt(n)) => Some(n),
            _ => None,
        }
    }

    /// The number as an `i64`, where the value is an integer of that range.
    pub open spec fn as_i64(self) -> Option<i64> {
        match self {
            JsonValue::Number(JsonNumber::PosInt(n)) => if n <= i64::MAX {
                Some(n as i64)
            } else {
                None
            },
            JsonValue::Number(JsonNumber::NegInt(n)) => Some(n),
            _ => None,
        }
    }

    /// The text of a string value.
    pub open spec fn as_str(self) -> Option<Seq<char>> {
        match self {
            JsonValue::String(s) => Some(s),
            _ => None,
        }
    }

    /// The elements of an array value.
    pub open spec fn as_array(self) -> Option<Seq<JsonValue>> {
        match self {
            JsonValue::Array(items) => Some(items),
            _ => None,
        }
    }

    /// The number under `name`, or 0 where there is no such integer.
    pub open spec fn u64_field(self, name: Seq<char>) -> u64 {
        match self.field(name).as_u64() {
            Some(n) => n,
            None => 0,
        }
    }

    /// The text under `name`, where the member is a string.
    pub open spec fn str_field(self, name: Seq<char>) -> Option<Seq<char>> {
        self.field(name).as_str()
    }

    /// The text under `name`, or the empty text where there is no such string.
    pub open spec fn text_field(self, name: Seq<char>) -> Seq<char> {
        match self.str_field(name) {
            Some(s) => s,
            None => Seq::empty(),
        }
    }
}

/// A member of an object: a name and a value.
pub fn member(name: &str, value: Json) -> (m: (String, Json))
    ensures
        m.0@ == name@,
        m.1 == value,
{
    (name.to_owned(), value)
}

/// The value that a lookup found, or `Null` where it found none.
pub open spec fn value_of(found: Option<&Json>) -> JsonValue {
    match found {
        Some(j) => j@,
        None => JsonValue::Null,
    }
}

/// The member called `name` of what a lookup found.
pub fn child<'a>(found: Option<&'a Json>, name: &str) -> (r: Option<&'a Json>)
    ensures
        value_of(r) == value_of(found).field(name@),
{
    match found {
        Some(j) => j.get(name),
        None => None,
    }
}

/// The element at `index` of what a lookup found.
pub fn item<'a>(found: Option<&'a Json>, index: usize) -> (r: Option<&'a Json>)
    ensures
        value_of(r) == value_of(found).item(index as nat),
{
    match found {
        Some(j) => j.element(index),
        None => None,
    }
}

/// Whether a lookup found nothing or `null`.
pub fn is_null(found: Option<&Json>) -> (b: bool)
    ensures
        b == (value_of(found) is Null),
{
    match found {
        Some(j) => j.is_null(),
        None => true,
    }
}

/// The number that a lookup found, or 0 where it found no such integer.
pub fn u64_or_zero(found: Option<&Json>) -> (n: u64)
    ensures
        n == match value_of(found).as_u64() {
            Some(n) => n,
            None => 0,
        },
{
    match found {
        Some(j) => match j.as_u64() {
            Some(n) => n,
            None => 0,
        },
        None => 0,
    }
}

/// The text that a lookup found, where it found a string.
pub fn text_of(found: Option<&Json>) -> (r: Option<String>)
    ensures
        match r {
            Some(s) => value_of(found).as_str() == Some(s@),
            None => value_of(found).as_str() is None,
        },
{
    match found {
        Some(j) => match j.as_str() {
            Some(s) => Some(s.to_owned()),
            None => None,
        },
        None => None,
    }
}

/// The elements that a lookup found, where it found an array.
pub fn array_of<'a>(found: Option<&'a Json>) -> (r: Option<&'a Vec<Json>>)
    ensures
        match r {
            Some(items) => value_of(found).as_array() == Some(json_values(items@)),
            None => value_of(found).as_array() is None,
        },
{
    match found {
        Some(j) => j.as_array(),
        None => None,
    }
}

impl Clone for Json {
    /// A copy with the same value.
    fn clone(&self) -> (copy: Json)
        ensures
            copy@ == self@,
        decreases self,
    {
        match self {
            Json::Null => Json::Null,
            Json::Bool(b) => Json::Bool(*b),
            Json::Number(n) => Json::Number(*n),
            Json::String(s) => Json::String(s.clone()),
            Json::Array(items) => {
                let mut copies: Vec<Json> = Vec::new();
                let mut i: usize = 0;
                while i < items.len()
                    invariant
                        i <= items@.len(),
                        copies@.len() == i,
                        self == Json::Array(*items),
                        forall|k: int| 0 <= k < i ==> copies@[k]@ == items@[k]@,
                    decreases items@.len() - i,
                {
                    assert(*items == self->Array_0);
                    copies.push(items[i].clone());
                    i += 1;
                }
                let copy = Json::Array(copies);
                proof {
                    lemma_array_view(*self);
                    lemma_array_view(copy);
                    assert(json_values(copies@) =~= json_values(items@));
                }
                copy
            },
            Json::Object(members) => {
                let mut copies: Vec<(String, Json)> = Vec::new();
                let mut i: usize = 0;
                while i < members.len()
                    invariant
                        i <= members@.len(),
                        copies@.len() == i,
                        self == Json::Object(*members),
                        forall|k: int|
                            0 <= k < i ==> copies@[k].0@ == members@[k].0@ && copies@[k].1@
                                == members@[k].1@,
                    decreases members@.len() - i,
                {
                    assert(*members == self->Object_0);
                    copies.push((members[i].0.clone(), members[i].1.clone()));
                    i += 1;
                }
                let copy = Json::Object(copies);
                proof {
                    lemma_object_view(*self);
                    lemma_object_view(copy);
                    assert(json_members(copies@) =~= json_members(members@));
                }
                copy
            },
        }
    }
}

impl Json {
    /// The member called `name` of an object.
    pub fn get(&self, name: &str) -> (r: Option<&Json>)
        ensures
            match r {
                Some(j) => self@.member(name@) == Some(j@),
                None => self@.member(name@) is None,
            },
    {
        match self {
            Json::Object(members) => {
                let wanted = name.to_owned();
                let ghost model = json_members(members@);
                proof {
                    lemma_object_view(*self);
                }
                let mut i: usize = 0;
                while i < members.len()
                    invariant
                        i <= members@.len(),
                        wanted@ == name@,
                        self@ == JsonValue::Object(model),
                        model.len() == members@.len(),
                        forall|k: int|
                            0 <= k < members@.len() ==> model[k] == (
                                members@[k].0@,
                                members@[k].1@,
                            ),
                        find_member(model, name@, 0) == find_member(model, name@, i as nat),
                    decreases members@.len() - i,
                {
                    if members[i].0 == wanted {
                        return Some(&members[i].1);
                    }
                    i += 1;
                }
                None
            },
            _ => None,
        }
    }

    /// The element at `index` of an array.
    pub fn element(&self, index: usize) -> (r: Option<&Json>)
        ensures
            match r {
                Some(j) => self@.element(index as nat) == Some(j@),
                None => self@.element(index as nat) is None,
            },
    {
        match self {
            Json::Array(items) => {
                proof {
                    lemma_array_view(*self);
                }
                if index < items.len() {
                    Some(&items[index])
                } else {
                    None
                }
            },
            _ => None,
        }
    }

    /// Whether the value is `null`.
    pub fn is_null(&self) -> (b: bool)
        ensures
            b == (self@ is Null),
    {
        match self {
            Json::Null => true,
            _ => false,
        }
    }

    /// The number as a `u64`, where the value is an integer of that range.
    pub fn as_u64(&self) -> (r: Option<u64>)
        ensures
            r == self@.as_u64(),
    {
        match self {
            Json::Number(JsonNumber::PosInt(n)) => Some(*n),
            _ => None,
        }
    }

    /// The number as an `i64`, where the value is an integer of that range.
    pub fn as_i64(&self) -> (r: Option<i64>)
        ensures
            r == self@.as_i64(),
    {
        match self {
            Json::Number(JsonNumber::PosInt(n)) => if *n <= i64::MAX as u64 {
                Some(*n as i64)
            } else {
                None
            },
            Json::Number(JsonNumber::NegInt(n)) => Some(*n),
            _ => None,
        }
    }

    /// The text of a string value.
    pub fn as_str(&self) -> (r: Option<&str>)
        ensures
            match r {
                Some(s) => self@.as_str() == Some(s@),
                None => self@.as_str() is None,
            },
    {
        match self {
            Json::String(s) => Some(s.as_str()),
            _ => None,
        }
    }

    /// The elements of an array value.
    pub fn as_array(&self) -> (r: Option<&Vec<Json>>)
        ensures
            match r {
                Some(items) => self@.as_array() == Some(json_values(items@)),
                None => self@.as_array() is None,
            },
    {
        match self {
            Json::Array(items) => {
                proof {
                    lemma_array_view(*self);
                }
                Some(items)
            },
            _ => None,
        }
    }

    /// A string value.
    pub fn text(s: &str) -> (j: Json)
        ensures
            j@ == JsonValue::String(s@),
    {
        Json::String(s.to_owned())
    }

    /// An integer value from zero up.
    pub fn unsigned(n: u64) -> (j: Json)
        ensures
            j@ == JsonValue::Number(JsonNumber::PosInt(n)),
    {
        Json::Number(JsonNumber::PosInt(n))
    }

    /// An integer value.
    pub fn signed(n: i64) -> (j: Json)
        ensures
            j@ == JsonValue::Number(
                if n >= 0 {
                    JsonNumber::PosInt(n as u64)
                } else {
                    JsonNumber::NegInt(n)
                },
            ),
    {
        if n >= 0 {
            Json::Number(JsonNumber::PosInt(n as u64))
        } else {
            Json::Number(JsonNumber::NegInt(n))
        }
    }

    /// An object with these members, in this order.
    pub fn object(members: Vec<(String, Json)>) -> (j: Json)
        ensures
            j@ == JsonValue::Object(json_members(members@)),
    {
        let j = Json::Object(members);
        proof {
            lemma_object_view(j);
        }
        j
    }

    /// The compact JSON text of the value.
    pub fn to_text(&self) -> (text: String)
        ensures
            text@ == json_text(self@),
    {
        write_json(self)
    }

    /// Reads the one JSON value that `text` holds.
    pub fn from_text(text: &[u8]) -> (res: Result<Json, serde_json::Error>)
        ensures
            match res {
                Ok(json) => json_document(text@) == Some(json@),
                Err(_) => json_document(text@) is None,
            },
    {
        parse_json(text)
    }

    /// The number under `name`, or 0 where there is no such integer.
    pub fn u64_field(&self, name: &str) -> (n: u64)
        ensures
            n == self@.u64_field(name@),
    {
        match self.get(name) {
            Some(v) => match v.as_u64() {
                Some(n) => n,
                None => 0,
            },
            None => 0,
        }
    }

    /// The text under `name`, where the member is a string.
    pub fn str_field(&self, name: &str) -> (r: Option<String>)
        ensures
            match r {
                Some(s) => self@.str_field(name@) == Some(s@),
                None => self@.str_field(name@) is None,
            },
    {
        match self.get(name) {
            Some(v) => match v.as_str() {
                Some(s) => Some(s.to_owned()),
                None => None,
            },
            None => None,
        }
    }

    /// The text under `name`, or the empty text where there is no such string.
    pub fn text_field(&self, name: &str) -> (s: String)
        ensures
            s@ == self@.text_field(name@),
    {
        match self.str_field(name) {
            Some(s) => s,
            None => String::new(),
        }
    }
}

/// What `serde_json` reads from `text`: the one JSON value that the text
/// holds, or `None` where the text is not the text of one value.
pub uninterp spec fn json_document(text: Seq<u8>) -> Option<JsonValue>;

/// `Number::as_u64` and `Number::as_i64`: an integer from zero up is a
/// `PosInt`, one below zero a `NegInt`, any other number a `Float`.
#[verifier::external_body]
fn number_from_serde(number: &serde_json::Number) -> JsonNumber {
    match (number.as_u64(), number.as_i64()) {
        (Some(n), _) => JsonNumber::PosInt(n),
        (None, Some(n)) => JsonNumber::NegInt(n),
        (None, None) => JsonNumber::Float,
    }
}

/// Copies a `serde_json::Value` into a [`Json`], variant for variant; the
/// members of an object come in the order in which its map hands them out.
#[verifier::external_body]
fn json_from_serde(value: &serde_json::Value) -> Json {
    match value {
        serde_json::Value::Null => Json::Null,
        serde_json::Value::Bool(b) => Json::Bool(*b),
        serde_json::Value::Number(n) => Json::Number(number_from_serde(n)),
        serde_json::Value::String(s) => Json::String(s.clone()),
        serde_json::Value::Array(items) => Json::Array(items.iter().map(json_from_serde).collect()),
        serde_json::Value::Object(map) => Json::Object(
            map.iter().map(|(name, v)| (name.clone(), json_from_serde(v))).collect(),
        ),
    }
}

/// `serde_json::from_slice` into a `serde_json::Value`, copied into a
/// [`Json`]. The result is the named document.
#[verifier::external_body]
pub(crate) fn parse_json(text: &[u8]) -> (res: Result<Json, serde_json::Error>)
    ensures
        match res {
            Ok(json) => json_document(text@) == Some(json@),
            Err(_) => json_document(text@) is None,
        },
{
    serde_json::from_slice::<serde_json::Value>(text).map(|value| json_from_serde(&value))
}

/// The compact JSON text that `serde_json` writes for a value. A number
/// that is no integer is written as `null`.
pub uninterp spec fn json_text(value: JsonValue) -> Seq<char>;

/// Copies a [`Json`] into a `serde_json::Value`, variant for variant. A
/// number that is no integer, of which no value is held, becomes `null`.
#[verifier::external_body]
fn json_to_serde(json: &Json) -> serde_json::Value {
    match json {
        Json::Null | Json::Number(JsonNumber::Float) => serde_json::Value::Null,
        Json::Bool(b) => serde_json::Value::Bool(*b),
        Json::Number(JsonNumber::PosInt(n)) => serde_json::Value::from(*n),
        Json::Number(JsonNumber::NegInt(n)) => serde_json::Value::from(*n),
        Json::String(s) => serde_json::Value::String(s.clone()),
        Json::Array(items) => serde_json::Value::Array(items.iter().map(json_to_serde).collect()),
        Json::Object(members) => serde_json::Value::Object(
            members.iter().map(|(name, v)| (name.clone(), json_to_serde(v))).collect(),
        ),
    }
}

/// `to_string` of a `serde_json::Value`, on the copy of `json`. The result
/// is the named text.
#[verifier::external_body]
pub(crate) fn write_json(json: &Json) -> (text: String)
    ensures
        text@ == json_text(json@),
{
    json_to_serde(json).to_string()
}

/// `serde::de::Error::custom` for `serde_json::Error`: an error that carries
/// `message`, for JSON that is well formed and holds the wrong data.
#[verifier::external_body]
pub(crate) fn json_data_error(message: &str) -> serde_json::Error {
    <serde_json::Error as serde::de::Error>::custom(message)
}

} // verus!
