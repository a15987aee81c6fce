//! Faceted search: the nested aggregation query for a source locale, an ordered
//! list of target locales and a keyword, and the flattening of its response.

use vstd::prelude::*;
use vstd::multiset::Multiset;
use crate::json::{
    Json, JsonV, first_index, items_view, json_view, lemma_first_index, lemma_items_view,
    lemma_members_view, lookup, members_view, obj1, obj2, object1, object2, object3, put_member,
    set_member,
};
use crate::text::{concat, str_contains, str_eq};

verus! {

/// The exact-value field that the index keeps beside each locale's text field.
pub open spec fn keyword_field(locale: Seq<char>) -> Seq<char> {
    locale + ".keyword"@
}

/// The bucket key given to documents that lack a target locale's value.
pub open spec fn missing_placeholder() -> Seq<char> {
    Seq::empty()
}

/// The innermost aggregation: one representative hit per leaf bucket.
pub open spec fn top_hit_aggregation() -> JsonV {
    obj1("entry"@, obj1("top_hits"@, obj1("size"@, JsonV::Int(1))))
}

/// One terms level per target locale, the first target outermost, around the
/// representative hit.
pub open spec fn target_aggregations(targets: Seq<Seq<char>>) -> JsonV
    decreases targets.len(),
{
    if targets.len() == 0 {
        top_hit_aggregation()
    } else {
        obj1(
            targets[0],
            obj2(
                "terms"@,
                obj2(
                    "field"@,
                    JsonV::Str(keyword_field(targets[0])),
                    "missing"@,
                    JsonV::Str(missing_placeholder()),
                ),
                "aggregations"@,
                target_aggregations(targets.subrange(1, targets.len() as int)),
            ),
        )
    }
}

/// The most distinct source values that the outermost level collects.
pub open spec fn source_bucket_limit() -> int {
    100
}

/// The whole search request: match `keyword` in the source locale, return no
/// rows, bucket by the exact source value and then by each target in order.
pub open spec fn search_query(source: Seq<char>, targets: Seq<Seq<char>>, keyword: Seq<char>) -> JsonV {
    JsonV::Object(
        seq![
            ("query"@, obj1("match"@, obj1(source, JsonV::Str(keyword)))),
            ("size"@, JsonV::Int(0)),
            (
                "aggregations"@,
                obj1(
                    source,
                    obj2(
                        "terms"@,
                        JsonV::Object(
                            seq![
                                ("field"@, JsonV::Str(keyword_field(source))),
                                ("collect_mode"@, JsonV::Str("breadth_first"@)),
                                ("size"@, JsonV::Int(source_bucket_limit())),
                            ],
                        ),
                        "aggregations"@,
                        target_aggregations(targets),
                    ),
                ),
            ),
        ],
    )
}

/// The views of a list of strings.
pub open spec fn views(s: Seq<String>) -> Seq<Seq<char>> {
    s.map_values(|t: String| t@)
}

fn string_value(s: &str) -> (r: Json)
    ensures
        r@ == JsonV::Str(s@),
{
    Json::Str(String::from_str(s))
}

/// Builds the faceted search request for `keyword` in the `source` locale,
/// nesting one terms level per entry of `targets`, in the order given.
pub fn construct_search_query(source: &str, targets: &Vec<String>, keyword: &str) -> (r: Json)
    ensures
        r@ == search_query(source@, views(targets@), keyword@),
{
    let ghost ts = views(targets@);
    let n = targets.len();
    let mut aggs = object1("entry", object1("top_hits", object1("size", Json::Int(1))));
    assert(ts.subrange(n as int, n as int).len() == 0);
    let mut i = n;
    while i > 0
        invariant
            i <= n,
            n == targets@.len(),
            ts == views(targets@),
            aggs@ == target_aggregations(ts.subrange(i as int, n as int)),
        decreases i,
    {
        i = i - 1;
        let t = targets[i].as_str();
        let terms = object2(
            "field",
            Json::Str(concat(t, ".keyword")),
            "missing",
            Json::Str(String::new()),
        );
        let level = object2("terms", terms, "aggregations", aggs);
        aggs = object1(t, level);
        proof {
            let sub = ts.subrange(i as int, n as int);
            assert(sub[0] == t@);
            assert(sub.subrange(1, sub.len() as int) =~= ts.subrange(i + 1, n as int));
        }
    }
    assert(ts.subrange(0, n as int) =~= ts);
    let source_terms = object3(
        "field",
        Json::Str(concat(source, ".keyword")),
        "collect_mode",
        string_value("breadth_first"),
        "size",
        Json::Int(100),
    );
    let source_level = object2("terms", source_terms, "aggregations", aggs);
    let query = object1("match", object1(source, string_value(keyword)));
    object3("query", query, "size", Json::Int(0), "aggregations", object1(source, source_level))
}

/// The locales that the terms levels of a target aggregation are keyed on,
/// outermost first.
pub open spec fn nesting_order(aggs: JsonV) -> Seq<Seq<char>>
    decreases aggs,
{
    match aggs {
        JsonV::Object(ms) => if ms.len() == 1 {
            match ms[0].1 {
                JsonV::Object(level) => if level.len() == 2 && level[0].0 == "terms"@ && level[1].0
                    == "aggregations"@ {
                    seq![ms[0].0] + nesting_order(level[1].1)
                } else {
                    Seq::empty()
                },
                _ => Seq::empty(),
            }
        } else {
            Seq::empty()
        },
        _ => Seq::empty(),
    }
}

/// The target levels of a search request: those under the source level.
pub open spec fn query_nesting(query: JsonV, source: Seq<char>) -> Seq<Seq<char>> {
    match query.member("aggregations"@) {
        Some(a) => match a.member(source) {
            Some(level) => match level.member("aggregations"@) {
                Some(t) => nesting_order(t),
                None => Seq::empty(),
            },
            None => Seq::empty(),
        },
        None => Seq::empty(),
    }
}

proof fn lemma_target_nesting(targets: Seq<Seq<char>>)
    ensures
        nesting_order(target_aggregations(targets)) == targets,
    decreases targets.len(),
{
    reveal_strlit("top_hits");
    reveal_strlit("terms");
    if targets.len() > 0 {
        lemma_target_nesting(targets.subrange(1, targets.len() as int));
        assert(seq![targets[0]] + targets.subrange(1, targets.len() as int) =~= targets);
    } else {
        let inner = obj1("top_hits"@, obj1("size"@, JsonV::Int(1)));
        assert(inner matches JsonV::Object(level) && level.len() == 1);
    }
}

/// The terms levels of a compiled search follow the target locales in the
/// order given, the first outermost: one level per target, each keyed on it.
pub proof fn lemma_nesting_follows_targets(
    source: Seq<char>,
    targets: Seq<Seq<char>>,
    keyword: Seq<char>,
)
    ensures
        query_nesting(search_query(source, targets, keyword), source) == targets,
{
    reveal_strlit("query");
    reveal_strlit("size");
    reveal_strlit("aggregations");
    reveal_strlit("terms");
    let q = search_query(source, targets, keyword);
    let qm = q->Object_0;
    assert(lookup(qm, "aggregations"@) == Some(qm[2].1)) by {
        reveal_strlit("query");
        reveal_strlit("size");
        reveal_strlit("aggregations");
        assert(qm[0].0 == "query"@ && qm[1].0 == "size"@ && qm[2].0 == "aggregations"@);
        assert("query"@ != "aggregations"@ && "size"@ != "aggregations"@);
        lemma_first_index(qm, "aggregations"@);
    };
    let am = qm[2].1->Object_0;
    assert(lookup(am, source) == Some(am[0].1)) by {
        lemma_first_index(am, source);
    };
    let lm = am[0].1->Object_0;
    assert(lookup(lm, "aggregations"@) == Some(lm[1].1)) by {
        reveal_strlit("terms");
        reveal_strlit("aggregations");
        assert(lm[0].0 == "terms"@ && lm[1].0 == "aggregations"@);
        assert("terms"@ != "aggregations"@);
        lemma_first_index(lm, "aggregations"@);
    };
    lemma_target_nesting(targets);
}

/// Compiling the targets `a, b` and then `b, a` swaps which of the two is
/// the outer and which the inner level.
pub proof fn lemma_swapped_targets_swap_nesting(
    source: Seq<char>,
    a: Seq<char>,
    b: Seq<char>,
    keyword: Seq<char>,
)
    ensures
        query_nesting(search_query(source, seq![a, b], keyword), source) == seq![a, b],
        query_nesting(search_query(source, seq![b, a], keyword), source) == seq![b, a],
{
    lemma_nesting_follows_targets(source, seq![a, b], keyword);
    lemma_nesting_follows_targets(source, seq![b, a], keyword);
}

/// The names among `ms` that hold an underscore, as locale fields do, in order.
pub open spec fn underscored(ms: Seq<(Seq<char>, JsonV)>) -> Seq<Seq<char>>
    decreases ms.len(),
{
    if ms.len() == 0 {
        Seq::empty()
    } else {
        let name = ms[ms.len() - 1].0;
        underscored(ms.subrange(0, ms.len() - 1)) + if name.contains('_') {
            seq![name]
        } else {
            Seq::empty()
        }
    }
}

/// The locale fields that the reply to a mapping request lists for `index`
/// and `type_`: its property names that hold an underscore.
pub open spec fn language_names(reply: JsonV, index: Seq<char>, type_: Seq<char>) -> Seq<Seq<char>> {
    let props = match reply.member(index) {
        Some(i) => match i.member("mappings"@) {
            Some(m) => match m.member(type_) {
                Some(t) => t.member("properties"@),
                None => None,
            },
            None => None,
        },
        None => None,
    };
    match props {
        Some(JsonV::Object(ms)) => underscored(ms),
        _ => Seq::empty(),
    }
}

/// The locale fields of the index, read from the reply to a mapping request.
pub fn language_fields(reply: &Json, index: &str, type_: &str) -> (r: Vec<String>)
    ensures
        views(r@) == language_names(reply@, index@, type_@),
{
    let props = match reply.get(index) {
        Some(i) => match i.get("mappings") {
            Some(m) => match m.get(type_) {
                Some(t) => t.get("properties"),
                None => None,
            },
            None => None,
        },
        None => None,
    };
    let mut names: Vec<String> = Vec::new();
    match props {
        Some(Json::Object(ms)) => {
            let ghost mv = members_view(ms@);
            proof {
                lemma_members_view(ms@);
                assert(mv.subrange(0, 0).len() == 0);
                assert(views(names@) =~= Seq::empty());
            }
            let mut i: usize = 0;
            while i < ms.len()
                invariant
                    mv == members_view(ms@),
                    mv.len() == ms@.len(),
                    forall|j: int|
                        0 <= j < ms@.len() ==> #[trigger] mv[j] == (ms@[j].0@, json_view(ms@[j].1)),
                    i <= ms@.len(),
                    views(names@) == underscored(mv.subrange(0, i as int)),
                decreases ms@.len() - i,
            {
                let ghost before = names@;
                if str_contains(ms[i].0.as_str(), '_') {
                    names.push(ms[i].0.clone());
                }
                proof {
                    assert(mv.subrange(0, i + 1).subrange(0, i as int) =~= mv.subrange(0, i as int));
                    assert(mv.subrange(0, i + 1)[i as int].0 == ms@[i as int].0@);
                    assert(views(names@) =~= underscored(mv.subrange(0, i + 1)));
                }
                i = i + 1;
            }
            assert(mv.subrange(0, i as int) =~= mv);
        },
        _ => {},
    }
    names
}

/// The document count that a bucket carries; zero where it carries none.
pub open spec fn count_of(bucket: JsonV) -> int {
    match bucket.member("doc_count"@) {
        Some(JsonV::Int(n)) => if 0 <= n <= u64::MAX {
            n
        } else {
            0
        },
        _ => 0,
    }
}

/// The document that a representative-hit aggregation captured.
pub open spec fn representative(entry: JsonV) -> Option<JsonV> {
    match entry.member("hits"@) {
        Some(hits) => match hits.member("hits"@) {
            Some(JsonV::Array(a)) => if a.len() > 0 {
                Some(a[0])
            } else {
                None
            },
            _ => None,
        },
        None => None,
    }
}

/// A captured document annotated with its occurrence count.
pub open spec fn counted(hit: JsonV, n: int) -> Multiset<JsonV> {
    match hit {
        JsonV::Object(ms) => Multiset::singleton(
            JsonV::Object(set_member(ms, "_count"@, JsonV::Int(n))),
        ),
        _ => Multiset::empty(),
    }
}

/// The documents found under an aggregation node: each representative hit
/// with the document count of the bucket that holds it.
pub open spec fn node_docs(node: JsonV) -> Multiset<JsonV>
    decreases node,
{
    match node {
        JsonV::Object(ms) => members_docs(ms, count_of(node)),
        _ => Multiset::empty(),
    }
}

/// The documents under the members of one node whose bucket holds `count` documents.
pub open spec fn members_docs(ms: Seq<(Seq<char>, JsonV)>, count: int) -> Multiset<JsonV>
    decreases ms,
{
    if ms.len() == 0 {
        Multiset::empty()
    } else {
        let k = ms[ms.len() - 1].0;
        let rest = members_docs(ms.subrange(0, ms.len() - 1), count);
        if k == "key"@ || k == "doc_count"@ {
            rest
        } else if k == "entry"@ {
            rest.add(
                match representative(ms[ms.len() - 1].1) {
                    Some(h) => counted(h, count),
                    None => Multiset::empty(),
                },
            )
        } else {
            rest.add(
                match ms[ms.len() - 1].1 {
                    JsonV::Object(vms) => buckets_docs(vms),
                    _ => Multiset::empty(),
                },
            )
        }
    }
}

/// The documents under the `buckets` list of a nested aggregation; nothing
/// where it has no such list.
pub open spec fn buckets_docs(vms: Seq<(Seq<char>, JsonV)>) -> Multiset<JsonV>
    decreases vms,
{
    if vms.len() == 0 {
        Multiset::empty()
    } else if vms[0].0 == "buckets"@ {
        match vms[0].1 {
            JsonV::Array(bs) => list_docs(bs),
            _ => Multiset::empty(),
        }
    } else {
        buckets_docs(vms.subrange(1, vms.len() as int))
    }
}

/// The documents under each node of a list.
pub open spec fn list_docs(bs: Seq<JsonV>) -> Multiset<JsonV>
    decreases bs,
{
    if bs.len() == 0 {
        Multiset::empty()
    } else {
        list_docs(bs.subrange(0, bs.len() - 1)).add(node_docs(bs[bs.len() - 1]))
    }
}

/// The documents that a search response holds under its aggregations.
pub open spec fn response_docs(response: JsonV) -> Multiset<JsonV> {
    match response.member("aggregations"@) {
        Some(a) => node_docs(a),
        None => Multiset::empty(),
    }
}

/// The number of nodes in a JSON tree.
pub open spec fn size(j: JsonV) -> nat
    decreases j,
{
    match j {
        JsonV::Array(bs) => 1 + list_size(bs),
        JsonV::Object(ms) => 1 + members_size(ms),
        _ => 1,
    }
}

pub open spec fn list_size(bs: Seq<JsonV>) -> nat
    decreases bs,
{
    if bs.len() == 0 {
        0
    } else {
        list_size(bs.subrange(0, bs.len() - 1)) + size(bs[bs.len() - 1])
    }
}

pub open spec fn members_size(ms: Seq<(Seq<char>, JsonV)>) -> nat
    decreases ms,
{
    if ms.len() == 0 {
        0
    } else {
        members_size(ms.subrange(0, ms.len() - 1)) + size(ms[ms.len() - 1].1)
    }
}

proof fn lemma_list_concat(a: Seq<JsonV>, b: Seq<JsonV>)
    ensures
        list_docs(a + b) =~= list_docs(a).add(list_docs(b)),
        list_size(a + b) == list_size(a) + list_size(b),
    decreases b.len(),
{
    if b.len() > 0 {
        let b0 = b.subrange(0, b.len() - 1);
        lemma_list_concat(a, b0);
        assert((a + b).subrange(0, (a + b).len() - 1) =~= a + b0);
        assert((a + b)[(a + b).len() - 1] == b[b.len() - 1]);
    } else {
        assert(a + b =~= a);
    }
}

proof fn lemma_member_size(ms: Seq<(Seq<char>, JsonV)>, i: int)
    requires
        0 <= i < ms.len(),
    ensures
        size(ms[i].1) <= members_size(ms),
    decreases ms.len(),
{
    if i < ms.len() - 1 {
        let pre = ms.subrange(0, ms.len() - 1);
        lemma_member_size(pre, i);
        assert(pre[i] == ms[i]);
    }
}

proof fn lemma_buckets(vms: Seq<(Seq<char>, JsonV)>)
    ensures
        buckets_docs(vms) == match lookup(vms, "buckets"@) {
            Some(JsonV::Array(bs)) => list_docs(bs),
            _ => Multiset::empty(),
        },
        lookup(vms, "buckets"@) matches Some(JsonV::Array(bs)) ==> list_size(bs) < members_size(
            vms,
        ),
    decreases vms.len(),
{
    lemma_first_index(vms, "buckets"@);
    if let Some(i) = first_index(vms, "buckets"@) {
        lemma_member_size(vms, i);
    }
    if vms.len() > 0 && vms[0].0 != "buckets"@ {
        let rest = vms.subrange(1, vms.len() as int);
        lemma_buckets(rest);
        if let Some(i) = first_index(rest, "buckets"@) {
            assert(rest[i] == vms[i + 1]);
        }
    }
}

proof fn lemma_items_concat(a: Seq<Json>, b: Seq<Json>)
    ensures
        items_view(a + b) =~= items_view(a) + items_view(b),
{
    lemma_items_view(a);
    lemma_items_view(b);
    lemma_items_view(a + b);
}

/// The document count of a bucket, read as `count_of` states.
fn bucket_count(node: &Json) -> (r: u64)
    ensures
        r as int == count_of(node@),
{
    match node.get("doc_count") {
        Some(Json::Int(n)) => {
            if 0 <= *n && *n <= u64::MAX as i128 {
                *n as u64
            } else {
                0
            }
        },
        _ => 0,
    }
}

/// The document captured under a representative-hit aggregation.
fn representative_hit(entry: Json) -> (r: Option<Json>)
    ensures
        r matches Some(h) ==> representative(entry@) == Some(h@),
        r is None ==> representative(entry@) is None,
{
    match entry.into_member("hits") {
        Some(hits) => match hits.into_member("hits") {
            Some(Json::Array(a)) => {
                let mut a = a;
                if a.len() > 0 {
                    proof {
                        lemma_items_view(a@);
                    }
                    Some(a.swap_remove(0))
                } else {
                    proof {
                        lemma_items_view(a@);
                    }
                    None
                }
            },
            _ => None,
        },
        None => None,
    }
}

/// Flattens the response to a search built by [`construct_search_query`]
/// into the documents found, each with its occurrence count in `_count`.
/// A branch of the response that lacks the expected shape is passed over.
pub fn parse_search_result(content: Json) -> (r: Vec<Json>)
    ensures
        items_view(r@).to_multiset() =~= response_docs(content@),
{
    let ghost total = response_docs(content@);
    let mut result: Vec<Json> = Vec::new();
    let mut stack: Vec<Json> = Vec::new();
    match content.into_member("aggregations") {
        Some(a) => {
            stack.push(a);
            proof {
                lemma_items_view(stack@);
                let sv = items_view(stack@);
                assert(sv[0] == a@);
                assert(list_docs(sv.subrange(0, 0)) =~= Multiset::empty());
                assert(list_docs(sv) =~= node_docs(a@));
            }
        },
        None => {
            proof {
                lemma_items_view(stack@);
                assert(list_docs(items_view(stack@)) =~= Multiset::empty());
            }
        },
    }
    proof {
        lemma_items_view(result@);
        items_view(result@).to_multiset_ensures();
        assert(items_view(result@).to_multiset() =~= Multiset::empty());
        lemma_items_view(stack@);
    }
    while stack.len() > 0
        invariant
            items_view(result@).to_multiset().add(list_docs(items_view(stack@))) =~= total,
        decreases list_size(items_view(stack@)),
    {
        let ghost m0 = list_size(items_view(stack@));
        let ghost stack0 = stack@;
        let node = stack.pop().unwrap();
        let ghost nv = node@;
        proof {
            lemma_items_view(stack0);
            lemma_items_view(stack@);
            assert(items_view(stack0).subrange(0, stack0.len() - 1) =~= items_view(stack@));
            assert(items_view(stack0)[stack0.len() - 1] == nv);
            assert(m0 == list_size(items_view(stack@)) + size(nv));
            assert(list_docs(items_view(stack0)) == list_docs(items_view(stack@)).add(
                node_docs(nv),
            ));
        }
        let count = bucket_count(&node);
        match node {
            Json::Object(ms) => {
                let mut ms = ms;
                proof {
                    assert(nv == JsonV::Object(members_view(ms@)));
                }
                while ms.len() > 0
                    invariant
                        count as int == count_of(nv),
                        items_view(result@).to_multiset().add(list_docs(items_view(stack@))).add(
                            members_docs(members_view(ms@), count as int),
                        ) =~= total,
                        list_size(items_view(stack@)) + members_size(members_view(ms@)) < m0,
                    decreases ms.len(),
                {
                    let ghost ms0 = ms@;
                    let ghost r0 = result@;
                    let ghost s0 = stack@;
                    let (k, v) = ms.pop().unwrap();
                    let ghost vv = v@;
                    proof {
                        lemma_members_view(ms0);
                        lemma_members_view(ms@);
                        assert(members_view(ms0).subrange(0, ms0.len() - 1) =~= members_view(
                            ms@,
                        ));
                        assert(members_view(ms0)[ms0.len() - 1] == (k@, vv));
                        assert(members_size(members_view(ms0)) == members_size(members_view(ms@))
                            + size(vv));
                    }
                    if str_eq(k.as_str(), "key") || str_eq(k.as_str(), "doc_count") {
                    } else if str_eq(k.as_str(), "entry") {
                        match representative_hit(v) {
                            Some(hit) => {
                                let ghost hv = hit@;
                                match hit {
                                    Json::Object(hm) => {
                                        let mut hm = hm;
                                        proof {
                                            assert(hv == JsonV::Object(members_view(hm@)));
                                        }
                                        put_member(&mut hm, "_count", Json::Int(count as i128));
                                        let doc = Json::Object(hm);
                                        result.push(doc);
                                        proof {
                                            lemma_items_view(r0);
                                            lemma_items_view(result@);
                                            assert(items_view(result@) =~= items_view(r0).push(
                                                doc@,
                                            ));
                                            items_view(r0).to_multiset_ensures();
                                        }
                                    },
                                    _ => {
                                        proof {
                                            assert(!(hv is Object));
                                        }
                                    },
                                }
                            },
                            None => {},
                        }
                    } else {
                        proof {
                            match vv {
                                JsonV::Object(vms) => lemma_buckets(vms),
                                _ => {},
                            }
                        }
                        match v.into_member("buckets") {
                            Some(b) => {
                                let ghost bv = b@;
                                match b {
                                    Json::Array(bs) => {
                                        let mut bs = bs;
                                        let ghost b0 = bs@;
                                        proof {
                                            assert(bv == JsonV::Array(items_view(b0)));
                                        }
                                        stack.append(&mut bs);
                                        proof {
                                            lemma_items_concat(s0, b0);
                                            lemma_list_concat(items_view(s0), items_view(b0));
                                        }
                                    },
                                    _ => {
                                        proof {
                                            assert(!(bv is Array));
                                        }
                                    },
                                }
                            },
                            None => {},
                        }
                    }
                }
            },
            _ => {
                proof {
                    assert(!(nv is Object));
                }
            },
        }
    }
    result
}

/// A leaf bucket of a search response: its key, its document count, and the
/// one document captured for it.
pub open spec fn leaf_bucket(key: JsonV, count: int, doc: Seq<(Seq<char>, JsonV)>) -> JsonV {
    JsonV::Object(
        seq![
            ("key"@, key),
            ("doc_count"@, JsonV::Int(count)),
            ("entry"@, obj1("hits"@, obj1("hits"@, JsonV::Array(seq![JsonV::Object(doc)])))),
        ],
    )
}

/// Leaf buckets made of (key, document count, captured document) triples.
pub open spec fn leaf_buckets(ls: Seq<(JsonV, int, Seq<(Seq<char>, JsonV)>)>) -> Seq<JsonV> {
    ls.map_values(|l: (JsonV, int, Seq<(Seq<char>, JsonV)>)| leaf_bucket(l.0, l.1, l.2))
}

/// The captured documents of such leaves, each with its count in `_count`.
pub open spec fn counted_leaves(ls: Seq<(JsonV, int, Seq<(Seq<char>, JsonV)>)>) -> Seq<JsonV> {
    ls.map_values(
        |l: (JsonV, int, Seq<(Seq<char>, JsonV)>)|
            JsonV::Object(set_member(l.2, "_count"@, JsonV::Int(l.1))),
    )
}

proof fn lemma_bucket_fields_skipped(a: JsonV, b: JsonV, m: (Seq<char>, JsonV), count: int)
    ensures
        members_docs(seq![("key"@, a), ("doc_count"@, b), m], count) == members_docs(
            seq![m],
            count,
        ),
{
    reveal_strlit("key");
    reveal_strlit("doc_count");
    let ms = seq![("key"@, a), ("doc_count"@, b), m];
    let m2 = ms.subrange(0, 2);
    let m1 = m2.subrange(0, 1);
    let m0 = m1.subrange(0, 0);
    assert(m0.len() == 0);
    assert(members_docs(m0, count) == Multiset::<JsonV>::empty());
    assert(m1[0].0 == "key"@);
    assert(members_docs(m1, count) == members_docs(m0, count));
    assert(m2[1].0 == "doc_count"@);
    assert(members_docs(m2, count) == members_docs(m1, count));
    let s1 = seq![m];
    assert(s1.subrange(0, 0).len() == 0);
    assert(members_docs(s1.subrange(0, 0), count) == Multiset::<JsonV>::empty());
    assert(ms[2] == s1[0]);
    assert(ms.subrange(0, 2) == m2);
    assert(members_docs(ms, count) =~= members_docs(s1, count));
}

proof fn lemma_leaf_docs(key: JsonV, count: int, doc: Seq<(Seq<char>, JsonV)>)
    requires
        0 <= count <= u64::MAX,
    ensures
        node_docs(leaf_bucket(key, count, doc)) == Multiset::singleton(
            JsonV::Object(set_member(doc, "_count"@, JsonV::Int(count))),
        ),
{
    reveal_strlit("key");
    reveal_strlit("doc_count");
    reveal_strlit("entry");
    reveal_strlit("hits");
    let leaf = leaf_bucket(key, count, doc);
    let ms = leaf->Object_0;
    assert(ms[0].0 == "key"@ && ms[1].0 == "doc_count"@ && ms[2].0 == "entry"@);
    assert("key"@ != "doc_count"@ && "key"@ != "entry"@ && "doc_count"@ != "entry"@);
    lemma_first_index(ms, "doc_count"@);
    assert(count_of(leaf) == count);
    let hits = obj1("hits"@, JsonV::Array(seq![JsonV::Object(doc)]));
    lemma_first_index(hits->Object_0, "hits"@);
    lemma_first_index(obj1("hits"@, hits)->Object_0, "hits"@);
    assert(representative(ms[2].1) == Some(JsonV::Object(doc)));
    lemma_bucket_fields_skipped(key, JsonV::Int(count), ms[2], count);
    let s1 = seq![ms[2]];
    assert(s1.subrange(0, 0).len() == 0);
    assert(members_docs(s1.subrange(0, 0), count) == Multiset::<JsonV>::empty());
    assert(members_docs(s1, count) =~= Multiset::singleton(
        JsonV::Object(set_member(doc, "_count"@, JsonV::Int(count))),
    ));
    assert(ms == seq![("key"@, key), ("doc_count"@, JsonV::Int(count)), ms[2]]);
}

proof fn lemma_leaves_docs(ls: Seq<(JsonV, int, Seq<(Seq<char>, JsonV)>)>)
    requires
        forall|i: int| 0 <= i < ls.len() ==> 0 <= #[trigger] ls[i].1 <= u64::MAX,
    ensures
        list_docs(leaf_buckets(ls)) =~= counted_leaves(ls).to_multiset(),
    decreases ls.len(),
{
    if ls.len() == 0 {
        counted_leaves(ls).to_multiset_ensures();
        assert(counted_leaves(ls).to_multiset() =~= Multiset::empty());
    } else {
        let pre = ls.subrange(0, ls.len() - 1);
        let last = ls[ls.len() - 1];
        lemma_leaves_docs(pre);
        lemma_leaf_docs(last.0, last.1, last.2);
        assert(leaf_buckets(ls).subrange(0, ls.len() - 1) =~= leaf_buckets(pre));
        assert(counted_leaves(ls) =~= counted_leaves(pre).push(
            JsonV::Object(set_member(last.2, "_count"@, JsonV::Int(last.1))),
        ));
        counted_leaves(pre).to_multiset_ensures();
    }
}

/// The buckets below one aggregation level of a search response: either
/// leaf buckets, each a (key, document count, captured document) triple, or
/// buckets each holding one more named level, as (key, document count,
/// level name, what that level holds).
pub enum Facet {
    Leaves(Seq<(JsonV, int, Seq<(Seq<char>, JsonV)>)>),
    Buckets(Seq<(JsonV, int, Seq<char>, Facet)>),
}

/// An aggregation level holding the buckets of `f`.
pub open spec fn facet_level(f: Facet) -> JsonV
    decreases f, 1nat,
{
    obj1("buckets"@, JsonV::Array(facet_buckets(f)))
}

pub open spec fn facet_buckets(f: Facet) -> Seq<JsonV>
    decreases f, 0nat,
{
    match f {
        Facet::Leaves(ls) => leaf_buckets(ls),
        Facet::Buckets(bs) => inner_buckets(bs),
    }
}

pub open spec fn inner_buckets(bs: Seq<(JsonV, int, Seq<char>, Facet)>) -> Seq<JsonV>
    decreases bs, 0nat,
{
    if bs.len() == 0 {
        Seq::empty()
    } else {
        let b = bs[bs.len() - 1];
        inner_buckets(bs.subrange(0, bs.len() - 1)).push(
            JsonV::Object(
                seq![
                    ("key"@, b.0),
                    ("doc_count"@, JsonV::Int(b.1)),
                    (b.2, facet_level(b.3)),
                ],
            ),
        )
    }
}

/// The leaf buckets of `f`, in order.
pub open spec fn facet_leaves(f: Facet) -> Seq<(JsonV, int, Seq<(Seq<char>, JsonV)>)>
    decreases f,
{
    match f {
        Facet::Leaves(ls) => ls,
        Facet::Buckets(bs) => inner_leaves(bs),
    }
}

pub open spec fn inner_leaves(bs: Seq<(JsonV, int, Seq<char>, Facet)>) -> Seq<
    (JsonV, int, Seq<(Seq<char>, JsonV)>),
>
    decreases bs,
{
    if bs.len() == 0 {
        Seq::empty()
    } else {
        inner_leaves(bs.subrange(0, bs.len() - 1)) + facet_leaves(bs[bs.len() - 1].3)
    }
}

/// No level below is named like a member of a bucket, and every leaf count
/// is a document count that a bucket can carry.
pub open spec fn facet_ok(f: Facet) -> bool
    decreases f,
{
    match f {
        Facet::Leaves(ls) => forall|i: int| 0 <= i < ls.len() ==> 0 <= #[trigger] ls[i].1 <= u64::MAX,
        Facet::Buckets(bs) => inner_ok(bs),
    }
}

pub open spec fn inner_ok(bs: Seq<(JsonV, int, Seq<char>, Facet)>) -> bool
    decreases bs,
{
    bs.len() == 0 || {
        let b = bs[bs.len() - 1];
        &&& inner_ok(bs.subrange(0, bs.len() - 1))
        &&& level_name_ok(b.2)
        &&& facet_ok(b.3)
    }
}

/// A level name that no bucket member has.
pub open spec fn level_name_ok(name: Seq<char>) -> bool {
    name != "key"@ && name != "doc_count"@ && name != "entry"@
}

/// A search response whose aggregations are one level `name` holding `f`.
pub open spec fn facet_response(name: Seq<char>, f: Facet) -> JsonV {
    obj1("aggregations"@, obj1(name, facet_level(f)))
}

proof fn lemma_level_docs(name: Seq<char>, bs: Seq<JsonV>, count: int)
    requires
        level_name_ok(name),
    ensures
        members_docs(seq![(name, obj1("buckets"@, JsonV::Array(bs)))], count) == list_docs(bs),
{
    reveal_strlit("buckets");
    let m = (name, obj1("buckets"@, JsonV::Array(bs)));
    let s1 = seq![m];
    assert(s1.subrange(0, 0).len() == 0);
    assert(members_docs(s1.subrange(0, 0), count) == Multiset::<JsonV>::empty());
    let vms = m.1->Object_0;
    assert(vms[0].0 == "buckets"@);
    assert(members_docs(s1, count) =~= buckets_docs(vms));
}

proof fn lemma_facet_docs(f: Facet)
    requires
        facet_ok(f),
    ensures
        list_docs(facet_buckets(f)) =~= counted_leaves(facet_leaves(f)).to_multiset(),
    decreases f, 1nat,
{
    match f {
        Facet::Leaves(ls) => {
            lemma_leaves_docs(ls);
        },
        Facet::Buckets(bs) => {
            lemma_inner_docs(bs);
        },
    }
}

proof fn lemma_inner_docs(bs: Seq<(JsonV, int, Seq<char>, Facet)>)
    requires
        inner_ok(bs),
    ensures
        list_docs(inner_buckets(bs)) =~= counted_leaves(inner_leaves(bs)).to_multiset(),
    decreases bs, 0nat,
{
    if bs.len() == 0 {
        counted_leaves(inner_leaves(bs)).to_multiset_ensures();
        assert(counted_leaves(inner_leaves(bs)).to_multiset() =~= Multiset::empty());
    } else {
        let pre = bs.subrange(0, bs.len() - 1);
        let b = bs[bs.len() - 1];
        lemma_inner_docs(pre);
        lemma_facet_docs(b.3);
        let bucket = JsonV::Object(
            seq![("key"@, b.0), ("doc_count"@, JsonV::Int(b.1)), (b.2, facet_level(b.3))],
        );
        let ib = inner_buckets(pre);
        assert(inner_buckets(bs) == ib.push(bucket));
        assert(ib.push(bucket).subrange(0, ib.len() as int) =~= ib);
        assert(ib.push(bucket)[ib.len() as int] == bucket);
        assert(list_docs(ib.push(bucket)) == list_docs(ib).add(node_docs(bucket)));
        lemma_bucket_fields_skipped(b.0, JsonV::Int(b.1), (b.2, facet_level(b.3)), count_of(bucket));
        lemma_level_docs(b.2, facet_buckets(b.3), count_of(bucket));
        assert(node_docs(bucket) == list_docs(facet_buckets(b.3)));
        assert(counted_leaves(inner_leaves(bs)) =~= counted_leaves(inner_leaves(pre))
            + counted_leaves(facet_leaves(b.3)));
        vstd::seq_lib::lemma_multiset_commutative(
            counted_leaves(inner_leaves(pre)),
            counted_leaves(facet_leaves(b.3)),
        );
    }
}

/// Flattening undoes the nesting of a response shaped like the compiled
/// search, whatever its levels and their buckets: `N` leaf buckets give
/// exactly `N` documents, each the captured document with its leaf bucket's
/// count in `_count`. Levels are not named like the members of a bucket.
pub proof fn lemma_flatten_recovers_leaves(name: Seq<char>, f: Facet)
    requires
        level_name_ok(name),
        facet_ok(f),
    ensures
        response_docs(facet_response(name, f)) == counted_leaves(facet_leaves(f)).to_multiset(),
        response_docs(facet_response(name, f)).len() == facet_leaves(f).len(),
{
    reveal_strlit("aggregations");
    let r = facet_response(name, f);
    lemma_first_index(r->Object_0, "aggregations"@);
    let top = obj1(name, facet_level(f));
    assert(r.member("aggregations"@) == Some(top));
    lemma_level_docs(name, facet_buckets(f), count_of(top));
    lemma_facet_docs(f);
    counted_leaves(facet_leaves(f)).to_multiset_ensures();
}

} // verus!
