//! A JSON document model: the executable tree and its mathematical view.

use vstd::prelude::*;
use crate::text::str_eq;

verus! {

/// A JSON value as exchanged with the search engine.
#[derive(Debug)]
pub enum Json {
    Null,
    Bool(bool),
    /// An integral number.
    Int(i128),
    /// A number with a fraction or an exponent, kept as its decimal text.
    Real(String),
    Str(String),
    Array(Vec<Json>),
    /// An object: its members in order.
    Object(Vec<(String, Json)>),
}

/// The mathematical value of a [`Json`].
pub enum JsonV {
    Null,
    Bool(bool),
    Int(int),
    Real(Seq<char>),
    Str(Seq<char>),
    Array(Seq<JsonV>),
    Object(Seq<(Seq<char>, JsonV)>),
}

pub open spec fn json_view(j: Json) -> JsonV
    decreases j,
{
    match j {
        Json::Null => JsonV::Null,
        Json::Bool(b) => JsonV::Bool(b),
        Json::Int(n) => JsonV::Int(n as int),
        Json::Real(s) => JsonV::Real(s@),
        Json::Str(s) => JsonV::Str(s@),
        Json::Array(a) => JsonV::Array(items_view(a@)),
        Json::Object(ms) => JsonV::Object(members_view(ms@)),
    }
}

pub open spec fn items_view(s: Seq<Json>) -> Seq<JsonV>
    decreases s,
{
    if s.len() == 0 {
        Seq::empty()
    } else {
        items_view(s.subrange(0, s.len() - 1)).push(json_view(s[s.len() - 1]))
    }
}

pub open spec fn members_view(s: Seq<(String, Json)>) -> Seq<(Seq<char>, JsonV)>
    decreases s,
{
    if s.len() == 0 {
        Seq::empty()
    } else {
        members_view(s.subrange(0, s.len() - 1)).push(
            (s[s.len() - 1].0@, json_view(s[s.len() - 1].1)),
        )
    }
}

impl View for Json {
    type V = JsonV;

    open spec fn view(&self) -> JsonV {
        json_view(*self)
    }
}

pub proof fn lemma_items_view(s: Seq<Json>)
    ensures
        items_view(s).len() == s.len(),
        forall|i: int| 0 <= i < s.len() ==> #[trigger] items_view(s)[i] == json_view(s[i]),
    decreases s.len(),
{
    if s.len() > 0 {
        lemma_items_view(s.subrange(0, s.len() - 1));
    }
}

pub proof fn lemma_members_view(s: Seq<(String, Json)>)
    ensures
        members_view(s).len() == s.len(),
        forall|i: int|
            0 <= i < s.len() ==> #[trigger] members_view(s)[i] == (s[i].0@, json_view(s[i].1)),
    decreases s.len(),
{
    if s.len() > 0 {
        lemma_members_view(s.subrange(0, s.len() - 1));
    }
}

/// The index of the first member named `k`.
pub open spec fn first_index(ms: Seq<(Seq<char>, JsonV)>, k: Seq<char>) -> Option<int>
    decreases ms.len(),
{
    if ms.len() == 0 {
        None
    } else if ms[0].0 == k {
        Some(0)
    } else {
        match first_index(ms.subrange(1, ms.len() as int), k) {
            Some(i) => Some(i + 1),
            None => None,
        }
    }
}

pub proof fn lemma_first_index(ms: Seq<(Seq<char>, JsonV)>, k: Seq<char>)
    ensures
        first_index(ms, k) is None <==> forall|j: int| 0 <= j < ms.len() ==> ms[j].0 != k,
        first_index(ms, k) matches Some(i) ==> {
            &&& 0 <= i < ms.len()
            &&& ms[i].0 == k
            &&& forall|j: int| 0 <= j < i ==> ms[j].0 != k
        },
    decreases ms.len(),
{
    if ms.len() > 0 {
        let rest = ms.subrange(1, ms.len() as int);
        lemma_first_index(rest, k);
        if ms[0].0 != k {
            assert forall|j: int| 0 <= j < ms.len() && ms[j].0 == k implies first_index(ms, k) is Some by {
                assert(rest[j - 1] == ms[j]);
            }
            if let Some(i) = first_index(rest, k) {
                assert forall|j: int| 0 <= j < i + 1 implies ms[j].0 != k by {
                    if j > 0 {
                        assert(rest[j - 1] == ms[j]);
                    }
                }
            }
        }
    }
}

/// In an object whose member names are distinct, each member is found by its name.
pub proof fn lemma_lookup_distinct(ms: Seq<(Seq<char>, JsonV)>, k: Seq<char>)
    requires
        crate::pairs::keys_distinct(ms),
    ensures
        forall|i: int| 0 <= i < ms.len() && ms[i].0 == k ==> lookup(ms, k) == Some(ms[i].1),
        (forall|i: int| 0 <= i < ms.len() ==> ms[i].0 != k) ==> lookup(ms, k) is None,
{
    lemma_first_index(ms, k);
    assert forall|i: int| 0 <= i < ms.len() && ms[i].0 == k implies lookup(ms, k) == Some(
        ms[i].1,
    ) by {
        let f = first_index(ms, k)->0;
        if f != i {
            assert(ms[f].0 == ms[i].0);
        }
    }
}

/// The value of the first member named `k`.
pub open spec fn lookup(ms: Seq<(Seq<char>, JsonV)>, k: Seq<char>) -> Option<JsonV> {
    match first_index(ms, k) {
        Some(i) => Some(ms[i].1),
        None => None,
    }
}

/// `ms` with member `k` set to `v`: replaced in place where present, appended otherwise.
pub open spec fn set_member(ms: Seq<(Seq<char>, JsonV)>, k: Seq<char>, v: JsonV) -> Seq<
    (Seq<char>, JsonV),
> {
    match first_index(ms, k) {
        Some(i) => ms.update(i, (k, v)),
        None => ms.push((k, v)),
    }
}

impl JsonV {
    /// The member `k` of an object; nothing for any other value.
    pub open spec fn member(self, k: Seq<char>) -> Option<JsonV> {
        match self {
            JsonV::Object(ms) => lookup(ms, k),
            _ => None,
        }
    }
}

/// The index of the first member of `ms` named `key`.
fn find_member(ms: &Vec<(String, Json)>, key: &str) -> (r: Option<usize>)
    ensures
        r matches Some(i) ==> i < ms@.len() && first_index(members_view(ms@), key@) == Some(
            i as int,
        ),
        r is None ==> first_index(members_view(ms@), key@) is None,
{
    proof {
        lemma_members_view(ms@);
        lemma_first_index(members_view(ms@), key@);
    }
    let mut i: usize = 0;
    while i < ms.len()
        invariant
            i <= ms@.len(),
            members_view(ms@).len() == ms@.len(),
            forall|j: int| 0 <= j < i ==> ms@[j].0@ != key@,
            forall|j: int|
                0 <= j < ms@.len() ==> #[trigger] members_view(ms@)[j] == (
                    ms@[j].0@,
                    json_view(ms@[j].1),
                ),
        decreases ms@.len() - i,
    {
        if str_eq(ms[i].0.as_str(), key) {
            proof {
                lemma_first_index(members_view(ms@), key@);
                let vs = members_view(ms@);
                assert(vs[i as int].0 == key@);
                match first_index(vs, key@) {
                    Some(f) => {
                        assert(vs[f].0 == key@);
                        assert(!(f < i));
                        assert(!(i < f));
                    },
                    None => {},
                }
            }
            return Some(i);
        }
        i = i + 1;
    }
    proof {
        let vs = members_view(ms@);
        assert forall|j: int| 0 <= j < vs.len() implies vs[j].0 != key@ by {
            assert(vs[j] == (ms@[j].0@, json_view(ms@[j].1)));
        }
    }
    None
}

impl Json {
    /// The member `key` of an object; `None` for a missing member or a value
    /// that is not an object.
    pub fn get(&self, key: &str) -> (r: Option<&Json>)
        ensures
            r matches Some(v) ==> self@.member(key@) == Some(v@),
            r is None ==> self@.member(key@) is None,
    {
        match self {
            Json::Object(ms) => {
                proof {
                    lemma_members_view(ms@);
                }
                match find_member(ms, key) {
                    Some(i) => {
                        proof {
                            assert(members_view(ms@)[i as int] == (ms@[i as int].0@, json_view(
                                ms@[i as int].1,
                            )));
                        }
                        Some(&ms[i].1)
                    },
                    None => None,
                }
            },
            _ => None,
        }
    }

    /// The member `key` of an object, taken out of it.
    pub fn into_member(self, key: &str) -> (r: Option<Json>)
        ensures
            r matches Some(v) ==> self@.member(key@) == Some(v@),
            r is None ==> self@.member(key@) is None,
    {
        match self {
            Json::Object(ms) => {
                let mut ms = ms;
                proof {
                    lemma_members_view(ms@);
                }
                match find_member(&ms, key) {
                    Some(i) => {
                        proof {
                            assert(members_view(ms@)[i as int] == (ms@[i as int].0@, json_view(
                                ms@[i as int].1,
                            )));
                        }
                        let (_, v) = ms.swap_remove(i);
                        Some(v)
                    },
                    None => None,
                }
            },
            _ => None,
        }
    }
}

/// Sets member `key` of `ms` to `v`: in place where it is present, at the end otherwise.
pub fn put_member(ms: &mut Vec<(String, Json)>, key: &str, v: Json)
    ensures
        members_view(final(ms)@) == set_member(members_view(old(ms)@), key@, v@),
{
    proof {
        lemma_members_view(ms@);
    }
    let ghost old_ms = ms@;
    match find_member(ms, key) {
        Some(i) => {
            ms[i] = (String::from_str(key), v);
        },
        None => {
            ms.push((String::from_str(key), v));
        },
    }
    proof {
        lemma_members_view(ms@);
        assert(members_view(ms@) =~= set_member(members_view(old_ms), key@, v@));
    }
}

/// `{k: v}`
pub open spec fn obj1(k: Seq<char>, v: JsonV) -> JsonV {
    JsonV::Object(seq![(k, v)])
}

/// `{k1: v1, k2: v2}`
pub open spec fn obj2(k1: Seq<char>, v1: JsonV, k2: Seq<char>, v2: JsonV) -> JsonV {
    JsonV::Object(seq![(k1, v1), (k2, v2)])
}

fn member(k: &str, v: Json) -> (r: (String, Json))
    ensures
        r.0@ == k@,
        r.1 == v,
{
    (String::from_str(k), v)
}

pub(crate) fn object1(k: &str, v: Json) -> (r: Json)
    ensures
        r@ == obj1(k@, v@),
{
    let ms = vec![member(k, v)];
    proof {
        lemma_members_view(ms@);
        assert(members_view(ms@) =~= seq![(k@, v@)]);
    }
    Json::Object(ms)
}

pub(crate) fn object2(k1: &str, v1: Json, k2: &str, v2: Json) -> (r: Json)
    ensures
        r@ == obj2(k1@, v1@, k2@, v2@),
{
    let ms = vec![member(k1, v1), member(k2, v2)];
    proof {
        lemma_members_view(ms@);
        assert(members_view(ms@) =~= seq![(k1@, v1@), (k2@, v2@)]);
    }
    Json::Object(ms)
}

pub(crate) fn object3(k1: &str, v1: Json, k2: &str, v2: Json, k3: &str, v3: Json) -> (r: Json)
    ensures
        r@ == JsonV::Object(seq![(k1@, v1@), (k2@, v2@), (k3@, v3@)]),
{
    let ms = vec![member(k1, v1), member(k2, v2), member(k3, v3)];
    proof {
        lemma_members_view(ms@);
        assert(members_view(ms@) =~= seq![(k1@, v1@), (k2@, v2@), (k3@, v3@)]);
    }
    Json::Object(ms)
}

} // verus!
