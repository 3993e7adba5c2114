//! A JSON value held as plain data, with the reads and writes that the
//! protocol logic makes. The same tree also carries TOML documents.
use vstd::prelude::*;
use crate::text::{chars_of, str_eq};

verus! {

/// What a JSON value is, mathematically.
pub enum Json {
    Null,
    Bool(bool),
    PosInt(u64),
    NegInt(i64),
    /// A number that is not an integer, kept as its decimal text.
    Float(Seq<char>),
    Str(Seq<char>),
    Array(Seq<Json>),
    Object(Seq<(Seq<char>, Json)>),
}

/// The first value stored under `key` in `entries`.
pub open spec fn lookup(entries: Seq<(Seq<char>, Json)>, key: Seq<char>) -> Option<Json>
    decreases entries.len(),
{
    if entries.len() == 0 {
        None
    } else if entries[0].0 == key {
        Some(entries[0].1)
    } else {
        lookup(entries.drop_first(), key)
    }
}

impl Json {
    /// The member `key` of an object; `None` for a missing member or a non-object.
    pub open spec fn field(self, key: Seq<char>) -> Option<Json> {
        match self {
            Json::Object(entries) => lookup(entries, key),
            _ => None,
        }
    }

    pub open spec fn as_str(self) -> Option<Seq<char>> {
        match self {
            Json::Str(s) => Some(s),
            _ => None,
        }
    }

    /// `Value::as_u64`: only a non-negative integer gives a number.
    pub open spec fn as_u64(self) -> Option<u64> {
        match self {
            Json::PosInt(n) => Some(n),
            _ => None,
        }
    }

    pub open spec fn as_bool(self) -> Option<bool> {
        match self {
            Json::Bool(b) => Some(b),
            _ => None,
        }
    }

    /// `self[key]` as a string, if it is one.
    pub open spec fn field_str(self, key: Seq<char>) -> Option<Seq<char>> {
        match self.field(key) {
            Some(v) => v.as_str(),
            None => None,
        }
    }

    pub open spec fn field_u64(self, key: Seq<char>) -> Option<u64> {
        match self.field(key) {
            Some(v) => v.as_u64(),
            None => None,
        }
    }

    pub open spec fn field_bool(self, key: Seq<char>) -> Option<bool> {
        match self.field(key) {
            Some(v) => v.as_bool(),
            None => None,
        }
    }
}

/// `Option<Value>` as `json!` writes it: `None` becomes `null`.
pub open spec fn or_null(o: Option<Json>) -> Json {
    match o {
        Some(v) => v,
        None => Json::Null,
    }
}

/// The number of a JSON value: a non-negative integer, a negative integer,
/// or any other number kept as its text.
pub enum JsonNumber {
    PosInt(u64),
    NegInt(i64),
    Float(String),
}

/// A JSON value. Objects are lists of members in order; a lookup takes the
/// first member with the key.
pub enum JsonValue {
    Null,
    Bool(bool),
    Number(JsonNumber),
    Str(String),
    Array(Vec<JsonValue>),
    Object(Vec<(String, JsonValue)>),
}

impl JsonValue {
    pub open spec fn view(&self) -> Json
        decreases self,
    {
        match self {
            JsonValue::Null => Json::Null,
            JsonValue::Bool(b) => Json::Bool(*b),
            JsonValue::Number(JsonNumber::PosInt(n)) => Json::PosInt(*n),
            JsonValue::Number(JsonNumber::NegInt(n)) => Json::NegInt(*n),
            JsonValue::Number(JsonNumber::Float(t)) => Json::Float(t@),
            JsonValue::Str(s) => Json::Str(s@),
            JsonValue::Array(v) => Json::Array(
                Seq::new(
                    v@.len(),
                    |i: int|
                        if 0 <= i < v@.len() {
                            v@[i].view()
                        } else {
                            Json::Null
                        },
                ),
            ),
            JsonValue::Object(v) => Json::Object(
                Seq::new(
                    v@.len(),
                    |i: int|
                        if 0 <= i < v@.len() {
                            (v@[i].0@, v@[i].1.view())
                        } else {
                            (Seq::empty(), Json::Null)
                        },
                ),
            ),
        }
    }
}

/// The views of a list of values.
pub open spec fn json_seq(v: Seq<JsonValue>) -> Seq<Json> {
    Seq::new(v.len(), |i: int| v[i].view())
}

/// The views of a list of members.
pub open spec fn member_seq(v: Seq<(String, JsonValue)>) -> Seq<(Seq<char>, Json)> {
    Seq::new(v.len(), |i: int| (v[i].0@, v[i].1.view()))
}

pub proof fn lemma_array_view(v: Vec<JsonValue>)
    ensures
        JsonValue::Array(v).view() == Json::Array(json_seq(v@)),
{
    assert(JsonValue::Array(v).view()->Array_0 =~= json_seq(v@));
}

pub proof fn lemma_object_view(v: Vec<(String, JsonValue)>)
    ensures
        JsonValue::Object(v).view() == Json::Object(member_seq(v@)),
{
    assert(JsonValue::Object(v).view()->Object_0 =~= member_seq(v@));
}

/// An owned copy of an optional value, as `Option::cloned` makes it.
pub open spec fn opt_view(o: Option<&JsonValue>) -> Option<Json> {
    match o {
        Some(v) => Some(v.view()),
        None => None,
    }
}

impl JsonValue {
    /// A copy with the same contents.
    pub fn deep_clone(&self) -> (r: JsonValue)
        ensures
            r.view() == self.view(),
        decreases self,
    {
        match self {
            JsonValue::Null => JsonValue::Null,
            JsonValue::Bool(b) => JsonValue::Bool(*b),
            JsonValue::Number(JsonNumber::PosInt(n)) => JsonValue::Number(JsonNumber::PosInt(*n)),
            JsonValue::Number(JsonNumber::NegInt(n)) => JsonValue::Number(JsonNumber::NegInt(*n)),
            JsonValue::Number(JsonNumber::Float(t)) => JsonValue::Number(
                JsonNumber::Float(t.clone()),
            ),
            JsonValue::Str(s) => JsonValue::Str(s.clone()),
            JsonValue::Array(v) => {
                let mut out: Vec<JsonValue> = Vec::new();
                let mut i: usize = 0;
                while i < v.len()
                    invariant
                        i <= v@.len(),
                        out@.len() == i,
                        forall|k: int| 0 <= k < i ==> #[trigger] out@[k].view() == v@[k].view(),
                        *self == JsonValue::Array(*v),
                    decreases v.len() - i,
                {
                    proof {
                        assert(decreases_to!(*self => self->Array_0));
                        assert(decreases_to!(v => v@));
                        assert(decreases_to!(v@ => v@[i as int]));
                    }
                    let c = v[i].deep_clone();
                    out.push(c);
                    i = i + 1;
                }
                proof {
                    lemma_array_view(out);
                    lemma_array_view(*v);
                    assert(json_seq(out@) =~= json_seq(v@));
                }
                JsonValue::Array(out)
            },
            JsonValue::Object(v) => {
                let mut out: Vec<(String, JsonValue)> = Vec::new();
                let mut i: usize = 0;
                while i < v.len()
                    invariant
                        i <= v@.len(),
                        out@.len() == i,
                        forall|k: int|
                            0 <= k < i ==> (#[trigger] out@[k]).0@ == v@[k].0@ && out@[k].1.view()
                                == v@[k].1.view(),
                        *self == JsonValue::Object(*v),
                    decreases v.len() - i,
                {
                    proof {
                        assert(decreases_to!(*self => self->Object_0));
                        assert(decreases_to!(v => v@));
                        assert(decreases_to!(v@ => v@[i as int]));
                        assert(decreases_to!(v@[i as int] => v@[i as int].1));
                    }
                    let k = v[i].0.clone();
                    let c = v[i].1.deep_clone();
                    out.push((k, c));
                    i = i + 1;
                }
                proof {
                    lemma_object_view(out);
                    lemma_object_view(*v);
                    assert(member_seq(out@) =~= member_seq(v@));
                }
                JsonValue::Object(out)
            },
        }
    }

    /// The member `key` of an object (the first one, should the key repeat).
    pub fn get(&self, key: &str) -> (r: Option<&JsonValue>)
        ensures
            opt_view(r) == self.view().field(key@),
    {
        match self {
            JsonValue::Object(v) => {
                let ghost entries = member_seq(v@);
                proof {
                    lemma_object_view(*v);
                    assert(entries.skip(0) =~= entries);
                }
                let mut i: usize = 0;
                while i < v.len()
                    invariant
                        i <= v@.len(),
                        entries == member_seq(v@),
                        self.view() == Json::Object(entries),
                        lookup(entries, key@) == lookup(entries.skip(i as int), key@),
                    decreases v.len() - i,
                {
                    proof {
                        assert(entries.skip(i as int)[0] == entries[i as int]);
                        assert(entries.skip(i as int).drop_first() =~= entries.skip(i + 1));
                    }
                    if str_eq(v[i].0.as_str(), key) {
                        proof {
                            assert(entries[i as int] == (v@[i as int].0@, v@[i as int].1.view()));
                        }
                        return Some(&v[i].1);
                    }
                    i = i + 1;
                }
                proof {
                    assert(entries.skip(i as int) =~= Seq::<(Seq<char>, Json)>::empty());
                }
                None
            },
            _ => None,
        }
    }

    pub fn as_str(&self) -> (r: Option<&str>)
        ensures
            match r {
                Some(s) => self.view().as_str() == Some(s@),
                None => self.view().as_str() is None,
            },
    {
        match self {
            JsonValue::Str(s) => Some(s.as_str()),
            _ => None,
        }
    }

    pub fn as_u64(&self) -> (r: Option<u64>)
        ensures
            r == self.view().as_u64(),
    {
        match self {
            JsonValue::Number(JsonNumber::PosInt(n)) => Some(*n),
            _ => None,
        }
    }

    pub fn as_bool(&self) -> (r: Option<bool>)
        ensures
            r == self.view().as_bool(),
    {
        match self {
            JsonValue::Bool(b) => Some(*b),
            _ => None,
        }
    }

    /// `self[key]` when it is a string.
    pub fn get_str(&self, key: &str) -> (r: Option<&str>)
        ensures
            match r {
                Some(s) => self.view().field_str(key@) == Some(s@),
                None => self.view().field_str(key@) is None,
            },
    {
        match self.get(key) {
            Some(v) => v.as_str(),
            None => None,
        }
    }

    pub fn get_u64(&self, key: &str) -> (r: Option<u64>)
        ensures
            r == self.view().field_u64(key@),
    {
        match self.get(key) {
            Some(v) => v.as_u64(),
            None => None,
        }
    }

    pub fn get_bool(&self, key: &str) -> (r: Option<bool>)
        ensures
            r == self.view().field_bool(key@),
    {
        match self.get(key) {
            Some(v) => v.as_bool(),
            None => None,
        }
    }

    /// A JSON string holding `s`.
    pub fn string(s: &str) -> (r: JsonValue)
        ensures
            r.view() == Json::Str(s@),
    {
        JsonValue::Str(String::from_str(s))
    }
}

/// `Map::insert` on a list of members: the member with the key gets the new
/// value, or the pair is appended when no member has the key.
pub open spec fn member_insert(entries: Seq<(Seq<char>, Json)>, key: Seq<char>, value: Json) -> Seq<
    (Seq<char>, Json),
>
    decreases entries.len(),
{
    if entries.len() == 0 {
        seq![(key, value)]
    } else if entries[0].0 == key {
        entries.update(0, (key, value))
    } else {
        seq![entries[0]] + member_insert(entries.drop_first(), key, value)
    }
}

proof fn lemma_member_insert_skip(
    entries: Seq<(Seq<char>, Json)>,
    key: Seq<char>,
    value: Json,
    i: int,
)
    requires
        0 <= i <= entries.len(),
        forall|j: int| 0 <= j < i ==> (#[trigger] entries[j]).0 != key,
    ensures
        member_insert(entries, key, value) == entries.take(i) + member_insert(
            entries.skip(i),
            key,
            value,
        ),
    decreases i,
{
    if i == 0 {
        assert(entries.skip(0) =~= entries);
        assert(entries.take(0) + member_insert(entries, key, value) =~= member_insert(
            entries,
            key,
            value,
        ));
    } else {
        let t = entries.drop_first();
        assert(entries[0].0 != key);
        assert forall|j: int| 0 <= j < i - 1 implies (#[trigger] t[j]).0 != key by {
            assert(t[j] == entries[j + 1]);
        }
        lemma_member_insert_skip(t, key, value, i - 1);
        assert(t.skip(i - 1) =~= entries.skip(i));
        assert(seq![entries[0]] + t.take(i - 1) =~= entries.take(i));
        assert(seq![entries[0]] + (t.take(i - 1) + member_insert(t.skip(i - 1), key, value))
            =~= entries.take(i) + member_insert(entries.skip(i), key, value));
    }
}

/// Law: after a member is inserted, looking its key up gives the value
/// inserted, and every other key gives what it gave before.
pub proof fn law_inserted_member_is_read_back(
    entries: Seq<(Seq<char>, Json)>,
    key: Seq<char>,
    value: Json,
    other: Seq<char>,
)
    ensures
        lookup(member_insert(entries, key, value), key) == Some(value),
        other != key ==> lookup(member_insert(entries, key, value), other) == lookup(entries, other),
    decreases entries.len(),
{
    if entries.len() == 0 {
        let single = seq![(key, value)];
        assert(single.drop_first() =~= Seq::<(Seq<char>, Json)>::empty());
        assert(lookup(single.drop_first(), other) is None);
    } else if entries[0].0 == key {
        let u = entries.update(0, (key, value));
        assert(u.drop_first() =~= entries.drop_first());
    } else {
        law_inserted_member_is_read_back(entries.drop_first(), key, value, other);
        let m = seq![entries[0]] + member_insert(entries.drop_first(), key, value);
        assert(m.drop_first() =~= member_insert(entries.drop_first(), key, value));
    }
}

/// Inserts `key: value` into the members of an object, as `Map::insert` does.
pub fn insert_member(entries: &mut Vec<(String, JsonValue)>, key: String, value: JsonValue)
    ensures
        member_seq(final(entries)@) == member_insert(member_seq(old(entries)@), key@, value.view()),
{
    let ghost e = member_seq(entries@);
    let mut i: usize = 0;
    while i < entries.len()
        invariant
            i <= entries@.len(),
            e == member_seq(entries@),
            entries@ == old(entries)@,
            forall|j: int| 0 <= j < i ==> (#[trigger] e[j]).0 != key@,
        decreases entries.len() - i,
    {
        if str_eq(entries[i].0.as_str(), key.as_str()) {
            proof {
                lemma_member_insert_skip(e, key@, value.view(), i as int);
                assert(e.skip(i as int)[0] == e[i as int]);
            }
            let ghost kv = key@;
            let ghost vv = value.view();
            entries.set(i, (key, value));
            proof {
                let after = member_seq(entries@);
                assert(e.skip(i as int)[0].0 == kv);
                assert(member_insert(e.skip(i as int), kv, vv) == e.skip(i as int).update(
                    0,
                    (kv, vv),
                ));
                assert(after =~= e.take(i as int) + member_insert(e.skip(i as int), kv, vv));
            }
            return;
        }
        i = i + 1;
    }
    proof {
        lemma_member_insert_skip(e, key@, value.view(), i as int);
        assert(e.skip(i as int) =~= Seq::<(Seq<char>, Json)>::empty());
    }
    let ghost kv = key@;
    let ghost vv = value.view();
    entries.push((key, value));
    proof {
        assert(member_seq(entries@) =~= e.take(i as int) + seq![(kv, vv)]);
    }
}

/// The view of an optional owned value.
pub open spec fn opt_json(o: Option<JsonValue>) -> Option<Json> {
    match o {
        Some(v) => Some(v.view()),
        None => None,
    }
}

impl JsonValue {
    /// An owned copy of the member `key`, if present (`get(key).cloned()`).
    pub fn get_cloned(&self, key: &str) -> (r: Option<JsonValue>)
        ensures
            opt_json(r) == self.view().field(key@),
    {
        match self.get(key) {
            Some(v) => Some(v.deep_clone()),
            None => None,
        }
    }
}

/// `Option<Value>` written out: `null` for `None`.
pub fn or_null_value(o: Option<JsonValue>) -> (r: JsonValue)
    ensures
        r.view() == or_null(opt_json(o)),
{
    match o {
        Some(v) => v,
        None => JsonValue::Null,
    }
}

/// An object with the given members, in order.
pub fn object(members: Vec<(String, JsonValue)>) -> (r: JsonValue)
    ensures
        r.view() == Json::Object(member_seq(members@)),
{
    proof {
        lemma_object_view(members);
    }
    JsonValue::Object(members)
}

/// An array of the given items, in order.
pub fn array(items: Vec<JsonValue>) -> (r: JsonValue)
    ensures
        r.view() == Json::Array(json_seq(items@)),
{
    proof {
        lemma_array_view(items);
    }
    JsonValue::Array(items)
}

/// A one-member pair `(key, value)`.
pub fn member(key: &str, value: JsonValue) -> (r: (String, JsonValue))
    ensures
        r.0@ == key@,
        r.1.view() == value.view(),
{
    (String::from_str(key), value)
}

} // verus!
