//! The search engine's side of indexing: the body that creates the index,
//! how its reply is read, the framing of a bulk insert and how many of its
//! documents were created.

use vstd::prelude::*;
use crate::error::ErrorKind;
use crate::json::{Json, JsonV, items_view, lemma_items_view, obj1, obj2, object1, object2};
use crate::text::str_eq;

verus! {

/// The body that creates the index with `shards` shards and `replicas`
/// replicas, whose type `type_` takes new fields as they come.
pub open spec fn index_settings_spec(type_: Seq<char>, shards: u32, replicas: u32) -> JsonV {
    obj2(
        "settings"@,
        obj2(
            "number_of_shards"@,
            JsonV::Int(shards as int),
            "number_of_replicas"@,
            JsonV::Int(replicas as int),
        ),
        "mappings"@,
        obj1(
            type_,
            obj2("_all"@, obj1("enabled"@, JsonV::Bool(false)), "dynamic"@, JsonV::Bool(true)),
        ),
    )
}

/// The action line that precedes each document of a bulk insert.
pub open spec fn bulk_action_spec(index: Seq<char>, type_: Seq<char>) -> JsonV {
    obj1("index"@, obj2("_index"@, JsonV::Str(index), "_type"@, JsonV::Str(type_)))
}

/// The body of the request that creates the index.
pub fn index_settings(type_: &str, shards: u32, replicas: u32) -> (r: Json)
    ensures
        r@ == index_settings_spec(type_@, shards, replicas),
{
    let settings = object2(
        "number_of_shards",
        Json::Int(shards as i128),
        "number_of_replicas",
        Json::Int(replicas as i128),
    );
    let all = object1("enabled", Json::Bool(false));
    let mapping = object2("_all", all, "dynamic", Json::Bool(true));
    object2("settings", settings, "mappings", object1(type_, mapping))
}

/// The action line of a bulk insert into `index` under `type_`.
pub fn bulk_action(index: &str, type_: &str) -> (r: Json)
    ensures
        r@ == bulk_action_spec(index@, type_@),
{
    let target = object2(
        "_index",
        Json::Str(String::from_str(index)),
        "_type",
        Json::Str(String::from_str(type_)),
    );
    object1("index", target)
}

/// The warning given when the index already exists and its reply gives no reason.
pub open spec fn default_exists_reason() -> Seq<char> {
    "localization index already exists"@
}

/// The error type that the search engine reports, if any.
pub open spec fn error_type(reply: JsonV) -> Option<JsonV> {
    match reply.member("error"@) {
        Some(e) => e.member("type"@),
        None => None,
    }
}

/// The text of the reason that the search engine gives for an error, if any.
pub open spec fn error_reason(reply: JsonV) -> Option<Seq<char>> {
    match reply.member("error"@) {
        Some(e) => match e.member("reason"@) {
            Some(JsonV::Str(s)) => Some(s),
            _ => None,
        },
        None => None,
    }
}

/// Reads the reply to the creation of the index: `Ok(None)` where the index
/// was created, `Ok(Some(warning))` where it already existed, which is no
/// failure, and the reply itself as an error otherwise.
pub fn create_index_reply(reply: Json) -> (r: Result<Option<String>, ErrorKind>)
    ensures
        reply@.member("acknowledged"@) == Some(JsonV::Bool(true)) ==> r matches Ok(None),
        reply@.member("acknowledged"@) != Some(JsonV::Bool(true)) && error_type(reply@) == Some(
            JsonV::Str("index_already_exists_exception"@),
        ) ==> (r matches Ok(Some(w)) && w@ == match error_reason(reply@) {
            Some(s) => s,
            None => default_exists_reason(),
        }),
        reply@.member("acknowledged"@) != Some(JsonV::Bool(true)) && error_type(reply@) != Some(
            JsonV::Str("index_already_exists_exception"@),
        ) ==> (r matches Err(ErrorKind::CreateIndexUnexpectedReply(j)) && j@ == reply@),
{
    let acknowledged = match reply.get("acknowledged") {
        Some(Json::Bool(b)) => *b,
        _ => false,
    };
    if acknowledged {
        return Ok(None);
    }
    let mut exists = false;
    let mut reason: Option<String> = None;
    match reply.get("error") {
        Some(e) => {
            match e.get("type") {
                Some(Json::Str(t)) => {
                    exists = str_eq(t.as_str(), "index_already_exists_exception");
                },
                _ => {},
            }
            match e.get("reason") {
                Some(Json::Str(s)) => {
                    reason = Some(s.clone());
                },
                _ => {},
            }
        },
        None => {},
    }
    if exists {
        match reason {
            Some(s) => Ok(Some(s)),
            None => Ok(Some(String::from_str("localization index already exists"))),
        }
    } else {
        Err(ErrorKind::CreateIndexUnexpectedReply(reply))
    }
}

/// The body of a bulk insert: each document after the action line, each
/// line ended by a newline.
pub open spec fn bulk_lines(action: Seq<u8>, docs: Seq<Seq<u8>>) -> Seq<u8>
    decreases docs.len(),
{
    if docs.len() == 0 {
        Seq::empty()
    } else {
        bulk_lines(action, docs.subrange(0, docs.len() - 1)) + action + seq![10u8] + docs[docs.len()
            - 1] + seq![10u8]
    }
}

fn append_bytes(out: &mut Vec<u8>, b: &[u8])
    ensures
        final(out)@ == old(out)@ + b@,
{
    let mut i: usize = 0;
    while i < b.len()
        invariant
            i <= b@.len(),
            out@ == old(out)@ + b@.subrange(0, i as int),
        decreases b@.len() - i,
    {
        out.push(b[i]);
        assert(b@.subrange(0, i + 1) =~= b@.subrange(0, i as int).push(b@[i as int]));
        i = i + 1;
    }
    assert(b@.subrange(0, i as int) =~= b@);
}

/// The body of a bulk insert of the serialized documents `docs`, each after
/// the serialized `action` line; `None` where there is no document, as an
/// empty bulk insert must not be sent at all.
pub fn bulk_body(action: &[u8], docs: &Vec<Vec<u8>>) -> (r: Option<Vec<u8>>)
    ensures
        r is None <==> docs@.len() == 0,
        r matches Some(b) ==> b@ == bulk_lines(action@, docs@.map_values(|d: Vec<u8>| d@)),
{
    if docs.len() == 0 {
        return None;
    }
    let ghost ds = docs@.map_values(|d: Vec<u8>| d@);
    let mut body: Vec<u8> = Vec::new();
    let mut i: usize = 0;
    assert(ds.subrange(0, 0).len() == 0);
    while i < docs.len()
        invariant
            ds == docs@.map_values(|d: Vec<u8>| d@),
            i <= docs@.len(),
            body@ == bulk_lines(action@, ds.subrange(0, i as int)),
        decreases docs@.len() - i,
    {
        append_bytes(&mut body, action);
        body.push(10u8);
        append_bytes(&mut body, docs[i].as_slice());
        body.push(10u8);
        proof {
            assert(ds.subrange(0, i + 1).subrange(0, i as int) =~= ds.subrange(0, i as int));
            assert(ds[i as int] == docs@[i as int]@);
            assert(body@ =~= bulk_lines(action@, ds.subrange(0, i + 1)));
        }
        i = i + 1;
    }
    assert(ds.subrange(0, i as int) =~= ds);
    Some(body)
}

/// An item of a bulk reply reports a created document.
pub open spec fn is_created(item: JsonV) -> bool {
    match item.member("index"@) {
        Some(op) => op.member("status"@) == Some(JsonV::Int(201)),
        None => false,
    }
}

/// How many items report a created document.
pub open spec fn created_in(items: Seq<JsonV>) -> nat
    decreases items.len(),
{
    if items.len() == 0 {
        0
    } else {
        created_in(items.subrange(0, items.len() - 1)) + if is_created(items[items.len() - 1]) {
            1nat
        } else {
            0nat
        }
    }
}

/// How many documents the reply to a bulk insert reports as created.
pub open spec fn created_count(reply: JsonV) -> nat {
    match reply.member("items"@) {
        Some(JsonV::Array(items)) => created_in(items),
        _ => 0,
    }
}

proof fn lemma_created_in_bound(items: Seq<JsonV>)
    ensures
        created_in(items) <= items.len(),
    decreases items.len(),
{
    if items.len() > 0 {
        lemma_created_in_bound(items.subrange(0, items.len() - 1));
    }
}

fn item_created(item: &Json) -> (r: bool)
    ensures
        r == is_created(item@),
{
    match item.get("index") {
        Some(op) => match op.get("status") {
            Some(Json::Int(n)) => *n == 201,
            _ => false,
        },
        None => false,
    }
}

/// The number of documents that the reply to a bulk insert reports as
/// created; a partly failed insert only lowers the count.
pub fn count_created(reply: &Json) -> (r: usize)
    ensures
        r == created_count(reply@),
{
    match reply.get("items") {
        Some(Json::Array(items)) => {
            let ghost iv = items_view(items@);
            proof {
                lemma_items_view(items@);
            }
            let mut count: usize = 0;
            let mut i: usize = 0;
            assert(iv.subrange(0, 0).len() == 0);
            while i < items.len()
                invariant
                    iv == items_view(items@),
                    iv.len() == items@.len(),
                    forall|j: int| 0 <= j < items@.len() ==> #[trigger] iv[j] == items@[j]@,
                    i <= items@.len(),
                    count == created_in(iv.subrange(0, i as int)),
                decreases items@.len() - i,
            {
                proof {
                    assert(iv.subrange(0, i + 1).subrange(0, i as int) =~= iv.subrange(0, i as int));
                    lemma_created_in_bound(iv.subrange(0, i as int));
                }
                if item_created(&items[i]) {
                    count = count + 1;
                }
                i = i + 1;
            }
            assert(iv.subrange(0, i as int) =~= iv);
            count
        },
        _ => 0,
    }
}

} // verus!
