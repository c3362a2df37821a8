use vstd::prelude::*;
use crate::text::{str_eq, views_of};

verus! {

broadcast use vstd::std_specs::vec::group_vec_axioms;

/// A JSON number: an integer as an integer, any other number by its decimal text.
/// A non-negative integer is held as `PosInt`; `NegInt` holds a negative one.
#[derive(Debug, PartialEq)]
pub enum Number {
    PosInt(u64),
    NegInt(i64),
    Float(String),
}

/// A JSON value. An object is the list of its members, in order.
#[derive(Debug, PartialEq)]
pub enum Json {
    Null,
    Bool(bool),
    Num(Number),
    Str(String),
    Array(Vec<Json>),
    Object(Vec<(String, Json)>),
}

/// The mathematical value of a `Number`.
pub enum NumberV {
    PosInt(u64),
    NegInt(i64),
    Float(Seq<char>),
}

/// The mathematical value of a `Json`: strings as character sequences, lists as sequences.
pub enum JsonV {
    Null,
    Bool(bool),
    Num(NumberV),
    Str(Seq<char>),
    Array(Seq<JsonV>),
    Object(Seq<(Seq<char>, JsonV)>),
}

impl View for Number {
    type V = NumberV;

    open spec fn view(&self) -> NumberV {
        match self {
            Number::PosInt(n) => NumberV::PosInt(*n),
            Number::NegInt(n) => NumberV::NegInt(*n),
            Number::Float(s) => NumberV::Float(s@),
        }
    }
}

pub open spec fn view_items(items: Seq<Json>) -> Seq<JsonV>
    decreases items, 0nat,
{
    if items.len() == 0 {
        seq![]
    } else {
        view_items(items.drop_last()).push(view_json(items.last()))
    }
}

pub open spec fn view_members(ms: Seq<(String, Json)>) -> Seq<(Seq<char>, JsonV)>
    decreases ms, 0nat,
{
    if ms.len() == 0 {
        seq![]
    } else {
        view_members(ms.drop_last()).push((ms.last().0@, view_json(ms.last().1)))
    }
}

pub open spec fn view_json(j: Json) -> JsonV
    decreases j, 1nat,
{
    match j {
        Json::Null => JsonV::Null,
        Json::Bool(b) => JsonV::Bool(b),
        Json::Num(n) => JsonV::Num(n@),
        Json::Str(s) => JsonV::Str(s@),
        Json::Array(v) => JsonV::Array(view_items(v@)),
        Json::Object(v) => JsonV::Object(view_members(v@)),
    }
}

impl View for Json {
    type V = JsonV;

    open spec fn view(&self) -> JsonV {
        view_json(*self)
    }
}

pub broadcast proof fn lemma_view_items_len(items: Seq<Json>)
    ensures
        #[trigger] view_items(items).len() == items.len(),
    decreases items.len(),
{
    if items.len() > 0 {
        lemma_view_items_len(items.drop_last());
    }
}

pub broadcast proof fn lemma_view_items_index(items: Seq<Json>, i: int)
    requires
        0 <= i < items.len(),
    ensures
        #[trigger] view_items(items)[i] == items[i]@,
    decreases items.len(),
{
    lemma_view_items_len(items.drop_last());
    if i < items.len() - 1 {
        lemma_view_items_index(items.drop_last(), i);
    }
}

pub broadcast proof fn lemma_view_members_len(ms: Seq<(String, Json)>)
    ensures
        #[trigger] view_members(ms).len() == ms.len(),
    decreases ms.len(),
{
    if ms.len() > 0 {
        lemma_view_members_len(ms.drop_last());
    }
}

pub broadcast proof fn lemma_view_members_index(ms: Seq<(String, Json)>, i: int)
    requires
        0 <= i < ms.len(),
    ensures
        #[trigger] view_members(ms)[i] == (ms[i].0@, ms[i].1@),
    decreases ms.len(),
{
    lemma_view_members_len(ms.drop_last());
    if i < ms.len() - 1 {
        lemma_view_members_index(ms.drop_last(), i);
    }
}

pub broadcast group group_json_view {
    lemma_view_items_len,
    lemma_view_items_index,
    lemma_view_members_len,
    lemma_view_members_index,
}

/// Position of the first member named `key`, or -1.
pub open spec fn key_index(ms: Seq<(Seq<char>, JsonV)>, key: Seq<char>) -> int
    decreases ms.len(),
{
    if ms.len() == 0 {
        -1
    } else if ms[0].0 == key {
        0
    } else {
        let r = key_index(ms.drop_first(), key);
        if r < 0 {
            -1
        } else {
            r + 1
        }
    }
}

/// The value of the first member named `key` (`serde_json::Map::get`).
pub open spec fn member(ms: Seq<(Seq<char>, JsonV)>, key: Seq<char>) -> Option<JsonV> {
    let i = key_index(ms, key);
    if i >= 0 {
        Some(ms[i].1)
    } else {
        None
    }
}

/// The members after `serde_json::Map::insert`: a member of that name takes the new value,
/// otherwise the pair is added at the end.
pub open spec fn insert_member(ms: Seq<(Seq<char>, JsonV)>, key: Seq<char>, v: JsonV) -> Seq<
    (Seq<char>, JsonV),
> {
    let i = key_index(ms, key);
    if i >= 0 {
        ms.update(i, (key, v))
    } else {
        ms.push((key, v))
    }
}

pub proof fn lemma_key_index(ms: Seq<(Seq<char>, JsonV)>, key: Seq<char>, i: int)
    requires
        0 <= i <= ms.len(),
        forall|j: int| 0 <= j < i ==> ms[j].0 != key,
    ensures
        i < ms.len() && ms[i].0 == key ==> key_index(ms, key) == i,
        i == ms.len() ==> key_index(ms, key) == -1,
    decreases i,
{
    if i > 0 {
        lemma_key_index(ms.drop_first(), key, i - 1);
    }
}

pub proof fn lemma_key_index_bounds(ms: Seq<(Seq<char>, JsonV)>, key: Seq<char>)
    ensures
        -1 <= key_index(ms, key) < ms.len(),
        key_index(ms, key) >= 0 ==> ms[key_index(ms, key)].0 == key,
    decreases ms.len(),
{
    if ms.len() > 0 {
        lemma_key_index_bounds(ms.drop_first(), key);
    }
}

/// `key_index` finds the first member of that name, and only that.
pub proof fn lemma_key_index_first(ms: Seq<(Seq<char>, JsonV)>, key: Seq<char>)
    ensures
        -1 <= key_index(ms, key) < ms.len(),
        key_index(ms, key) >= 0 ==> ms[key_index(ms, key)].0 == key,
        forall|j: int|
            0 <= j < (if key_index(ms, key) < 0 {
                ms.len() as int
            } else {
                key_index(ms, key)
            }) ==> ms[j].0 != key,
    decreases ms.len(),
{
    if ms.len() > 0 {
        lemma_key_index_first(ms.drop_first(), key);
        let r = key_index(ms.drop_first(), key);
        assert forall|j: int|
            0 <= j < (if key_index(ms, key) < 0 {
                ms.len() as int
            } else {
                key_index(ms, key)
            }) implies ms[j].0 != key by {
            if j > 0 {
                assert(ms[j] == ms.drop_first()[j - 1]);
            }
        }
    }
}

/// After `key` is set to `v`, reading `key` gives `v`, and every other member reads as
/// before.
pub proof fn lemma_insert_then_member(
    ms: Seq<(Seq<char>, JsonV)>,
    key: Seq<char>,
    v: JsonV,
    other: Seq<char>,
)
    ensures
        member(insert_member(ms, key, v), key) == Some(v),
        other != key ==> member(insert_member(ms, key, v), other) == member(ms, other),
{
    lemma_key_index_first(ms, key);
    lemma_key_index_first(ms, other);
    let i = key_index(ms, key);
    let r = key_index(ms, other);
    let ms2 = insert_member(ms, key, v);
    if i >= 0 {
        lemma_key_index(ms2, key, i);
        if other != key {
            if r >= 0 {
                lemma_key_index(ms2, other, r);
            } else {
                lemma_key_index(ms2, other, ms2.len() as int);
            }
        }
    } else {
        lemma_key_index(ms2, key, ms.len() as int);
        if other != key {
            if r >= 0 {
                lemma_key_index(ms2, other, r);
            } else {
                lemma_key_index(ms2, other, ms2.len() as int);
            }
        }
    }
}

/// The JSON value of an `i64`, as `serde_json` builds it.
pub open spec fn int_value(n: i64) -> JsonV {
    if n >= 0 {
        JsonV::Num(NumberV::PosInt(n as u64))
    } else {
        JsonV::Num(NumberV::NegInt(n))
    }
}

pub open spec fn uint_value(n: u64) -> JsonV {
    JsonV::Num(NumberV::PosInt(n))
}

/// A JSON array of integers.
pub open spec fn ints_value(ns: Seq<i64>) -> JsonV {
    JsonV::Array(ns.map_values(|n: i64| int_value(n)))
}

/// A JSON array of strings.
pub open spec fn strs_value(ss: Seq<Seq<char>>) -> JsonV {
    JsonV::Array(ss.map_values(|s: Seq<char>| JsonV::Str(s)))
}

/// Numbers, strings and lists built for a request read back as what they were built from.
pub proof fn lemma_values_read_back(n: i64, u: u64, ns: Seq<i64>, ss: Seq<Seq<char>>)
    ensures
        int_value(n).as_i64() == Some(n),
        uint_value(u).as_u64() == Some(u),
        ints_value(ns).as_array() matches Some(items) && items.len() == ns.len() && forall|k: int|
            0 <= k < ns.len() ==> (#[trigger] items[k]).as_i64() == Some(ns[k]),
        strs_value(ss).as_array() matches Some(items) && items.len() == ss.len() && forall|k: int|
            0 <= k < ss.len() ==> (#[trigger] items[k]).as_str() == Some(ss[k]),
{
}

impl JsonV {
    /// `Value::get` with a string key: a member of an object.
    pub open spec fn get(self, key: Seq<char>) -> Option<JsonV> {
        match self {
            JsonV::Object(ms) => member(ms, key),
            _ => None,
        }
    }

    pub open spec fn as_str(self) -> Option<Seq<char>> {
        match self {
            JsonV::Str(s) => Some(s),
            _ => None,
        }
    }

    pub open spec fn as_array(self) -> Option<Seq<JsonV>> {
        match self {
            JsonV::Array(v) => Some(v),
            _ => None,
        }
    }

    pub open spec fn as_object(self) -> Option<Seq<(Seq<char>, JsonV)>> {
        match self {
            JsonV::Object(ms) => Some(ms),
            _ => None,
        }
    }

    /// `Value::as_i64`: an integer that fits in `i64`.
    pub open spec fn as_i64(self) -> Option<i64> {
        match self {
            JsonV::Num(NumberV::PosInt(n)) => if n <= i64::MAX {
                Some(n as i64)
            } else {
                None
            },
            JsonV::Num(NumberV::NegInt(n)) => Some(n),
            _ => None,
        }
    }

    /// `Value::as_u64`: a non-negative integer.
    pub open spec fn as_u64(self) -> Option<u64> {
        match self {
            JsonV::Num(NumberV::PosInt(n)) => Some(n),
            _ => None,
        }
    }
}

impl Number {
    pub fn deep_clone(&self) -> (r: Number)
        ensures
            r@ == self@,
    {
        match self {
            Number::PosInt(n) => Number::PosInt(*n),
            Number::NegInt(n) => Number::NegInt(*n),
            Number::Float(s) => Number::Float(s.clone()),
        }
    }
}

impl Json {
    /// A copy of the value.
    pub fn deep_clone(&self) -> (r: Json)
        ensures
            r@ == self@,
        decreases self,
    {
        broadcast use group_json_view;

            match self {
            Json::Null => Json::Null,
            Json::Bool(b) => Json::Bool(*b),
            Json::Num(n) => Json::Num(n.deep_clone()),
            Json::Str(s) => Json::Str(s.clone()),
            Json::Array(v) => {
                let mut out: Vec<Json> = Vec::new();
                let mut i: usize = 0;
                while i < v.len()
                    invariant
                        *self == Json::Array(*v),
                        i <= v.len(),
                        out@.len() == i,
                        forall|k: int| 0 <= k < i ==> #[trigger] out@[k]@ == v@[k]@,
                    decreases v.len() - i,
                {
                    proof {
                        assert(decreases_to!(*self => (*self)->Array_0));
                        assert(decreases_to!(*v => (*v)[i as int]));
                    }
                    let c = v[i].deep_clone();
                    out.push(c);
                    i = i + 1;
                }
                assert(view_items(out@) =~= view_items(v@));
                Json::Array(out)
            },
            Json::Object(ms) => {
                let mut out: Vec<(String, Json)> = Vec::new();
                let mut i: usize = 0;
                while i < ms.len()
                    invariant
                        *self == Json::Object(*ms),
                        i <= ms.len(),
                        out@.len() == i,
                        forall|k: int|
                            0 <= k < i ==> #[trigger] out@[k].0@ == ms@[k].0@ && out@[k].1@
                                == ms@[k].1@,
                    decreases ms.len() - i,
                {
                    let k = ms[i].0.clone();
                    proof {
                        assert(decreases_to!(*self => (*self)->Object_0));
                        assert(decreases_to!(*ms => (*ms)[i as int]));
                        assert(decreases_to!((*ms)[i as int] => (*ms)[i as int].1));
                    }
                    let c = ms[i].1.deep_clone();
                    out.push((k, c));
                    i = i + 1;
                }
                assert(view_members(out@) =~= view_members(ms@));
                Json::Object(out)
            },
        }
    }

    /// The JSON value of an `i64`.
    pub fn from_i64(n: i64) -> (r: Json)
        ensures
            r@ == int_value(n),
    {
        if n >= 0 {
            Json::Num(Number::PosInt(n as u64))
        } else {
            Json::Num(Number::NegInt(n))
        }
    }

    /// The JSON value of a `u64`.
    pub fn from_u64(n: u64) -> (r: Json)
        ensures
            r@ == uint_value(n),
    {
        Json::Num(Number::PosInt(n))
    }

    /// A JSON string.
    pub fn text(s: &str) -> (r: Json)
        ensures
            r@ == JsonV::Str(s@),
    {
        Json::Str(String::from_str(s))
    }

    /// A JSON object with no member.
    pub fn empty_object() -> (r: Json)
        ensures
            r@ == JsonV::Object(seq![]),
    {
        let ms: Vec<(String, Json)> = Vec::new();
        assert(view_members(ms@) =~= seq![]);
        Json::Object(ms)
    }

    /// A JSON array of integers.
    pub fn int_array(ns: &Vec<i64>) -> (r: Json)
        ensures
            r@ == ints_value(ns@),
    {
        broadcast use group_json_view;

            let mut out: Vec<Json> = Vec::new();
        let mut i: usize = 0;
        while i < ns.len()
            invariant
                i <= ns.len(),
                out@.len() == i,
                forall|k: int| 0 <= k < i ==> #[trigger] out@[k]@ == int_value(ns@[k]),
            decreases ns.len() - i,
        {
            out.push(Json::from_i64(ns[i]));
            i = i + 1;
        }
        assert(view_items(out@) =~= ns@.map_values(|n: i64| int_value(n)));
        Json::Array(out)
    }

    /// A JSON array of strings.
    pub fn str_array(ss: &Vec<String>) -> (r: Json)
        ensures
            r@ == strs_value(views_of(ss@)),
    {
        broadcast use group_json_view;

            let mut out: Vec<Json> = Vec::new();
        let mut i: usize = 0;
        while i < ss.len()
            invariant
                i <= ss.len(),
                out@.len() == i,
                forall|k: int| 0 <= k < i ==> #[trigger] out@[k]@ == JsonV::Str(ss@[k]@),
            decreases ss.len() - i,
        {
            out.push(Json::Str(ss[i].clone()));
            i = i + 1;
        }
        assert(view_items(out@) =~= views_of(ss@).map_values(|s: Seq<char>| JsonV::Str(s)));
        Json::Array(out)
    }

    /// `Value::get`: the value of the first member named `key`, if this is an object.
    pub fn get<'a>(&'a self, key: &str) -> (r: Option<&'a Json>)
        ensures
            match r {
                Some(v) => self@.get(key@) == Some(v@),
                None => self@.get(key@) is None,
            },
    {
        match self {
            Json::Object(ms) => members_get(ms, key),
            _ => None,
        }
    }

    /// `Value::as_str`.
    pub fn as_str<'a>(&'a self) -> (r: Option<&'a String>)
        ensures
            match r {
                Some(s) => self@.as_str() == Some(s@),
                None => self@.as_str() is None,
            },
    {
        match self {
            Json::Str(s) => Some(s),
            _ => None,
        }
    }

    /// `Value::as_array`.
    pub fn as_array<'a>(&'a self) -> (r: Option<&'a Vec<Json>>)
        ensures
            match r {
                Some(v) => self@.as_array() == Some(view_items(v@)),
                None => self@.as_array() is None,
            },
    {
        match self {
            Json::Array(v) => Some(v),
            _ => None,
        }
    }

    /// `Value::as_object`.
    pub fn as_object<'a>(&'a self) -> (r: Option<&'a Vec<(String, Json)>>)
        ensures
            match r {
                Some(ms) => self@.as_object() == Some(view_members(ms@)),
                None => self@.as_object() is None,
            },
    {
        match self {
            Json::Object(ms) => Some(ms),
            _ => None,
        }
    }

    /// `Value::as_i64`.
    pub fn as_i64(&self) -> (r: Option<i64>)
        ensures
            r == self@.as_i64(),
    {
        match self {
            Json::Num(Number::PosInt(n)) => {
                if *n <= 0x7fff_ffff_ffff_ffffu64 {
                    Some(*n as i64)
                } else {
                    None
                }
            },
            Json::Num(Number::NegInt(n)) => Some(*n),
            _ => None,
        }
    }

    /// `Value::as_u64`.
    pub fn as_u64(&self) -> (r: Option<u64>)
        ensures
            r == self@.as_u64(),
    {
        match self {
            Json::Num(Number::PosInt(n)) => Some(*n),
            _ => None,
        }
    }
}

/// `serde_json::Map::get`: the value of the first member named `key`.
pub fn members_get<'a>(ms: &'a Vec<(String, Json)>, key: &str) -> (r: Option<&'a Json>)
    ensures
        match r {
            Some(v) => member(view_members(ms@), key@) == Some(v@),
            None => member(view_members(ms@), key@) is None,
        },
{
    broadcast use group_json_view;

    let ghost vms = view_members(ms@);
    let mut i: usize = 0;
    while i < ms.len()
        invariant
            i <= ms.len(),
            vms == view_members(ms@),
            view_members(ms@).len() == ms@.len(),
            forall|j: int| 0 <= j < i ==> view_members(ms@)[j].0 != key@,
        decreases ms.len() - i,
    {
        proof {
            lemma_view_members_index(ms@, i as int);
        }
        if str_eq(ms[i].0.as_str(), key) {
            proof {
                lemma_key_index(vms, key@, i as int);
            }
            return Some(&ms[i].1);
        }
        i = i + 1;
    }
    proof {
        lemma_key_index(vms, key@, i as int);
    }
    None
}

/// `serde_json::Map::insert`: the member named `key` takes `value`, or the pair is added.
pub fn members_insert(ms: &mut Vec<(String, Json)>, key: String, value: Json)
    ensures
        view_members(final(ms)@) == insert_member(view_members(old(ms)@), key@, value@),
{
    broadcast use group_json_view;

    let ghost old_ms = ms@;
    let ghost kv = key@;
    let ghost vv = value@;
    assert(old_ms == old(ms)@);
    let ghost vms = view_members(ms@);
    let mut i: usize = 0;
    while i < ms.len()
        invariant
            i <= ms.len(),
            vms == view_members(ms@),
            ms@ == old_ms,
            old_ms == old(ms)@,
            kv == key@,
            vv == value@,
            view_members(ms@).len() == ms@.len(),
            forall|j: int| 0 <= j < i ==> view_members(ms@)[j].0 != key@,
        decreases ms.len() - i,
    {
        proof {
            lemma_view_members_index(ms@, i as int);
        }
        if str_eq(ms[i].0.as_str(), key.as_str()) {
            proof {
                lemma_key_index(vms, key@, i as int);
            }
            ms.set(i, (key, value));
            assert(ms@ == old_ms.update(i as int, (ms@[i as int].0, ms@[i as int].1)));
            assert forall|j: int| 0 <= j < ms@.len() implies #[trigger] view_members(ms@)[j]
                == view_members(old_ms).update(i as int, (kv, vv))[j] by {
                lemma_view_members_index(ms@, j);
                lemma_view_members_index(old_ms, j);
            }
            proof {
                lemma_view_members_len(ms@);
                lemma_view_members_len(old_ms);
            }
            assert(view_members(ms@) =~= view_members(old_ms).update(i as int, (kv, vv)));

            return ;
        }
        i = i + 1;
    }
    proof {
        lemma_key_index(vms, key@, i as int);
    }
    ms.push((key, value));
    assert(view_members(ms@) =~= view_members(old_ms).push((kv, vv)));
}

/// Adds the member `key: value` at the end.
pub fn push_member(ms: &mut Vec<(String, Json)>, key: &str, value: Json)
    ensures
        view_members(final(ms)@) == view_members(old(ms)@).push((key@, value@)),
{
    let ghost old_ms = ms@;
    ms.push((String::from_str(key), value));
    assert(ms@.drop_last() =~= old_ms);
}

} // verus!
