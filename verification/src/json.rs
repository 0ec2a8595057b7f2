//! A plain model of JSON values, as the engine reads and builds them.
use vstd::prelude::*;

verus! {

/// A JSON number as the engine keeps it: a non-negative integer, a negative
/// integer, or a finite float carried by its IEEE-754 bit pattern.
#[derive(Debug, Clone, Copy, PartialEq, Eq, Structural)]
pub enum JsonNumber {
    PosInt(u64),
    NegInt(i64),
    Float(u64),
}

/// A JSON value. Object members keep the order in which they were given.
#[derive(Debug)]
pub enum JsonValue {
    Null,
    Bool(bool),
    Number(JsonNumber),
    String(String),
    Array(Vec<JsonValue>),
    Object(Vec<(String, JsonValue)>),
}

/// The mathematical value of a [`JsonValue`].
pub enum Json {
    Null,
    Bool(bool),
    Number(JsonNumber),
    Str(Seq<char>),
    Array(Seq<Json>),
    Object(Seq<(Seq<char>, Json)>),
}

pub open spec fn json_of(v: JsonValue) -> Json
    decreases v, 1int,
{
    match v {
        JsonValue::Null => Json::Null,
        JsonValue::Bool(b) => Json::Bool(b),
        JsonValue::Number(n) => Json::Number(n),
        JsonValue::String(s) => Json::Str(s@),
        JsonValue::Array(items) => Json::Array(json_of_items(items@)),
        JsonValue::Object(members) => Json::Object(json_of_members(members@)),
    }
}

pub open spec fn json_of_items(items: Seq<JsonValue>) -> Seq<Json>
    decreases items, 0int,
{
    if items.len() == 0 {
        Seq::empty()
    } else {
        seq![json_of(items[0])] + json_of_items(items.drop_first())
    }
}

pub open spec fn json_of_members(members: Seq<(String, JsonValue)>) -> Seq<(Seq<char>, Json)>
    decreases members, 0int,
{
    if members.len() == 0 {
        Seq::empty()
    } else {
        seq![(members[0].0@, json_of(members[0].1))] + json_of_members(members.drop_first())
    }
}

impl View for JsonValue {
    type V = Json;

    open spec fn view(&self) -> Json {
        json_of(*self)
    }
}

/// Each item of an array is modelled on its own.
pub proof fn lemma_json_of_items(items: Seq<JsonValue>)
    ensures
        json_of_items(items).len() == items.len(),
        forall|i: int| 0 <= i < items.len() ==> #[trigger] json_of_items(items)[i] == json_of(items[i]),
    decreases items.len(),
{
    if items.len() > 0 {
        lemma_json_of_items(items.drop_first());
        assert forall|i: int| 0 <= i < items.len() implies #[trigger] json_of_items(items)[i] == json_of(items[i]) by {
            if i > 0 {
                assert(items.drop_first()[i - 1] == items[i]);
            }
        }
    }
}

/// Each member of an object is modelled on its own.
pub proof fn lemma_json_of_members(members: Seq<(String, JsonValue)>)
    ensures
        json_of_members(members).len() == members.len(),
        forall|i: int| 0 <= i < members.len() ==> #[trigger] json_of_members(members)[i] == (members[i].0@, json_of(members[i].1)),
    decreases members.len(),
{
    if members.len() > 0 {
        lemma_json_of_members(members.drop_first());
        assert forall|i: int| 0 <= i < members.len() implies #[trigger] json_of_members(members)[i] == (members[i].0@, json_of(members[i].1)) by {
            if i > 0 {
                assert(members.drop_first()[i - 1] == members[i]);
            }
        }
    }
}

/// The first member of `members` whose key is `key`.
pub open spec fn member_lookup(members: Seq<(Seq<char>, Json)>, key: Seq<char>) -> Option<Json>
    decreases members.len(),
{
    if members.len() == 0 {
        None
    } else if members[0].0 == key {
        Some(members[0].1)
    } else {
        member_lookup(members.drop_first(), key)
    }
}

/// The value of the first member of `members` whose key is `key`.
pub proof fn lemma_member_lookup_first(members: Seq<(Seq<char>, Json)>, key: Seq<char>, i: int)
    requires
        0 <= i < members.len(),
        members[i].0 == key,
        forall|j: int| 0 <= j < i ==> members[j].0 != key,
    ensures
        member_lookup(members, key) == Some(members[i].1),
    decreases i,
{
    if i > 0 {
        lemma_member_lookup_first(members.drop_first(), key, i - 1);
    }
}

/// No member of `members` has the key `key`.
pub proof fn lemma_member_lookup_none(members: Seq<(Seq<char>, Json)>, key: Seq<char>)
    requires
        forall|j: int| 0 <= j < members.len() ==> members[j].0 != key,
    ensures
        member_lookup(members, key) is None,
    decreases members.len(),
{
    if members.len() > 0 {
        lemma_member_lookup_none(members.drop_first(), key);
    }
}

impl JsonNumber {
    pub open spec fn spec_is_i64(self) -> bool {
        match self {
            JsonNumber::PosInt(u) => u <= i64::MAX,
            JsonNumber::NegInt(_) => true,
            JsonNumber::Float(_) => false,
        }
    }

    pub open spec fn spec_as_i64(self) -> Option<i64> {
        match self {
            JsonNumber::PosInt(u) => if u <= i64::MAX { Some(u as i64) } else { None },
            JsonNumber::NegInt(i) => Some(i),
            JsonNumber::Float(_) => None,
        }
    }
}

impl Json {
    /// The member `key` of an object; nothing for any other value.
    pub open spec fn get(self, key: Seq<char>) -> Option<Json> {
        match self {
            Json::Object(members) => member_lookup(members, key),
            _ => None,
        }
    }

    pub open spec fn as_str(self) -> Option<Seq<char>> {
        match self {
            Json::Str(s) => Some(s),
            _ => None,
        }
    }

    pub open spec fn as_i64(self) -> Option<i64> {
        match self {
            Json::Number(n) => n.spec_as_i64(),
            _ => None,
        }
    }

    pub open spec fn as_bool(self) -> Option<bool> {
        match self {
            Json::Bool(b) => Some(b),
            _ => None,
        }
    }

    pub open spec fn is_i64(self) -> bool {
        self matches Json::Number(n) && n.spec_is_i64()
    }

    pub open spec fn is_f64(self) -> bool {
        self matches Json::Number(n) && n is Float
    }

    /// The object with exactly the one member `key: value`.
    pub open spec fn single(key: Seq<char>, value: Json) -> Json {
        Json::Object(seq![(key, value)])
    }

    /// The empty object `{}`.
    pub open spec fn empty_object() -> Json {
        Json::Object(Seq::empty())
    }
}

impl JsonValue {
    pub fn is_string(&self) -> (r: bool)
        ensures
            r == (self@ is Str),
    {
        match self {
            JsonValue::String(_) => true,
            _ => false,
        }
    }

    pub fn is_number(&self) -> (r: bool)
        ensures
            r == (self@ is Number),
    {
        match self {
            JsonValue::Number(_) => true,
            _ => false,
        }
    }

    pub fn is_object(&self) -> (r: bool)
        ensures
            r == (self@ is Object),
    {
        match self {
            JsonValue::Object(_) => true,
            _ => false,
        }
    }

    pub fn is_i64(&self) -> (r: bool)
        ensures
            r == self@.is_i64(),
    {
        match self {
            JsonValue::Number(JsonNumber::PosInt(u)) => *u <= i64::MAX as u64,
            JsonValue::Number(JsonNumber::NegInt(_)) => true,
            _ => false,
        }
    }

    pub fn is_f64(&self) -> (r: bool)
        ensures
            r == self@.is_f64(),
    {
        match self {
            JsonValue::Number(JsonNumber::Float(_)) => true,
            _ => false,
        }
    }

    pub fn as_str(&self) -> (r: Option<&String>)
        ensures
            r is Some <==> self@ is Str,
            r matches Some(s) ==> self@.as_str() == Some(s@),
    {
        match self {
            JsonValue::String(s) => Some(s),
            _ => None,
        }
    }

    pub fn as_i64(&self) -> (r: Option<i64>)
        ensures
            r == self@.as_i64(),
    {
        match self {
            JsonValue::Number(JsonNumber::PosInt(u)) => if *u <= i64::MAX as u64 {
                Some(*u as i64)
            } else {
                None
            },
            JsonValue::Number(JsonNumber::NegInt(i)) => Some(*i),
            _ => None,
        }
    }

    pub fn as_bool(&self) -> (r: Option<bool>)
        ensures
            r == self@.as_bool(),
    {
        match self {
            JsonValue::Bool(b) => Some(*b),
            _ => None,
        }
    }

    /// The member `key` of an object; `None` for any other value.
    pub fn get(&self, key: &str) -> (r: Option<&JsonValue>)
        ensures
            r matches Some(v) ==> self@.get(key@) == Some(v@),
            r is None ==> self@.get(key@) is None,
    {
        match self {
            JsonValue::Object(members) => {
                let ghost model = json_of_members(members@);
                proof {
                    lemma_json_of_members(members@);
                }
                let mut i: usize = 0;
                while i < members.len()
                    invariant
                        i <= members@.len(),
                        model == json_of_members(members@),
                        model.len() == members@.len(),
                        self@.get(key@) == member_lookup(model, key@),
                        forall|j: int| 0 <= j < members@.len() ==> #[trigger] model[j] == (members@[j].0@, json_of(members@[j].1)),
                        forall|j: int| 0 <= j < i ==> model[j].0 != key@,
                    decreases members@.len() - i,
                {
                    if crate::json::str_equal(members[i].0.as_str(), key) {
                        proof {
                            lemma_member_lookup_first(model, key@, i as int);
                        }
                        return Some(&members[i].1);
                    }
                    i = i + 1;
                }
                proof {
                    lemma_member_lookup_none(model, key@);
                }
                None
            },
            _ => None,
        }
    }

    /// A copy of the value.
    pub fn deep_copy(&self) -> (r: JsonValue)
        ensures
            r@ == self@,
        decreases self,
    {
        match self {
            JsonValue::Null => JsonValue::Null,
            JsonValue::Bool(b) => JsonValue::Bool(*b),
            JsonValue::Number(n) => JsonValue::Number(*n),
            JsonValue::String(s) => JsonValue::String(s.clone()),
            JsonValue::Array(items) => {
                let mut out: Vec<JsonValue> = Vec::new();
                let mut i: usize = 0;
                while i < items.len()
                    invariant
                        *self == JsonValue::Array(*items),
                        i <= items@.len(),
                        out@.len() == i,
                        forall|j: int| 0 <= j < i ==> #[trigger] json_of(out@[j]) == json_of(items@[j]),
                    decreases items@.len() - i,
                {
                    assert(decreases_to!(*self => self->Array_0));
                    assert(decreases_to!(self->Array_0 => self->Array_0@));
                    assert(decreases_to!(self->Array_0@ => self->Array_0@[i as int]));
                    let item = items[i].deep_copy();
                    out.push(item);
                    i = i + 1;
                }
                proof {
                    lemma_json_of_items(out@);
                    lemma_json_of_items(items@);
                    assert(json_of_items(out@) =~= json_of_items(items@));
                }
                JsonValue::Array(out)
            },
            JsonValue::Object(members) => {
                let mut out: Vec<(String, JsonValue)> = Vec::new();
                let mut i: usize = 0;
                while i < members.len()
                    invariant
                        *self == JsonValue::Object(*members),
                        i <= members@.len(),
                        out@.len() == i,
                        forall|j: int| 0 <= j < i ==> #[trigger] out@[j].0@ == members@[j].0@ && json_of(out@[j].1) == json_of(members@[j].1),
                    decreases members@.len() - i,
                {
                    assert(decreases_to!(*self => self->Object_0));
                    assert(decreases_to!(self->Object_0 => self->Object_0@));
                    assert(decreases_to!(self->Object_0@ => self->Object_0@[i as int]));
                    assert(decreases_to!(self->Object_0@[i as int] => self->Object_0@[i as int].1));
                    let value = members[i].1.deep_copy();
                    let key = members[i].0.clone();
                    out.push((key, value));
                    i = i + 1;
                }
                proof {
                    lemma_json_of_members(out@);
                    lemma_json_of_members(members@);
                    assert(json_of_members(out@) =~= json_of_members(members@));
                }
                JsonValue::Object(out)
            },
        }
    }

    /// The empty object `{}`.
    pub fn empty_object() -> (r: JsonValue)
        ensures
            r@ == Json::empty_object(),
    {
        let r = JsonValue::Object(Vec::new());
        assert(json_of_members(Seq::<(String, JsonValue)>::empty()) =~= Seq::empty());
        r
    }

    /// The object `{ key: value }`.
    pub fn single_member(key: &str, value: JsonValue) -> (r: JsonValue)
        ensures
            r@ == Json::single(key@, value@),
    {
        let mut members: Vec<(String, JsonValue)> = Vec::new();
        members.push((key.to_string(), value));
        proof {
            lemma_json_of_members(members@);
            assert(json_of_members(members@) =~= seq![(key@, value@)]);
        }
        JsonValue::Object(members)
    }

    /// The JSON array of the given strings, in order.
    pub fn string_array(items: Vec<String>) -> (r: JsonValue)
        ensures
            r@ == Json::Array(items@.map_values(|s: String| Json::Str(s@))),
    {
        let mut out: Vec<JsonValue> = Vec::new();
        let mut i: usize = 0;
        while i < items.len()
            invariant
                i <= items@.len(),
                out@.len() == i,
                forall|j: int| 0 <= j < i ==> #[trigger] json_of(out@[j]) == Json::Str(items@[j]@),
            decreases items@.len() - i,
        {
            out.push(JsonValue::String(items[i].clone()));
            i = i + 1;
        }
        proof {
            lemma_json_of_items(out@);
            assert(json_of_items(out@) =~= items@.map_values(|s: String| Json::Str(s@)));
        }
        JsonValue::Array(out)
    }

    /// The JSON string holding `text`.
    pub fn text(text: &str) -> (r: JsonValue)
        ensures
            r@ == Json::Str(text@),
    {
        JsonValue::String(text.to_string())
    }
}

/// Whether two strings hold the same characters.
pub fn str_equal(a: &str, b: &str) -> (r: bool)
    ensures
        r == (a@ == b@),
{
    let la = a.unicode_len();
    let lb = b.unicode_len();
    if la != lb {
        return false;
    }
    let mut i: usize = 0;
    while i < la
        invariant
            la == a@.len(),
            lb == b@.len(),
            la == lb,
            i <= la,
            forall|j: int| 0 <= j < i ==> a@[j] == b@[j],
        decreases la - i,
    {
        if a.get_char(i) != b.get_char(i) {
            return false;
        }
        i = i + 1;
    }
    assert(a@ =~= b@);
    true
}

impl Clone for JsonValue {
    fn clone(&self) -> (r: JsonValue)
        ensures
            r@ == self@,
    {
        self.deep_copy()
    }
}

} // verus!
