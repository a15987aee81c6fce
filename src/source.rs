//! Reading one string-resource file: a property list whose root is expected
//! to be a dictionary, each value kept as text.

use vstd::prelude::*;
use vstd::string::*;
use crate::text::{concat, ends_with, str_ends_with};

verus! {

/// A property-list value, as the merge reads it.
pub enum Plist {
    Array(Vec<Plist>),
    Dictionary(Vec<(String, Plist)>),
    Boolean(bool),
    /// An integer or a real number, as the JSON text that stands for it.
    Number(String),
    String(String),
    /// A date, data or a UID: values that have no text of their own here.
    Other,
}

/// The mathematical value of a [`Plist`].
pub enum PlistV {
    Array(Seq<PlistV>),
    Dictionary(Seq<(Seq<char>, PlistV)>),
    Boolean(bool),
    Number(Seq<char>),
    String(Seq<char>),
    Other,
}

pub open spec fn plist_view(p: Plist) -> PlistV
    decreases p,
{
    match p {
        Plist::Array(a) => PlistV::Array(plist_items(a@)),
        Plist::Dictionary(ms) => PlistV::Dictionary(plist_members(ms@)),
        Plist::Boolean(b) => PlistV::Boolean(b),
        Plist::Number(t) => PlistV::Number(t@),
        Plist::String(s) => PlistV::String(s@),
        Plist::Other => PlistV::Other,
    }
}

pub open spec fn plist_items(s: Seq<Plist>) -> Seq<PlistV>
    decreases s,
{
    if s.len() == 0 {
        Seq::empty()
    } else {
        plist_items(s.subrange(0, s.len() - 1)).push(plist_view(s[s.len() - 1]))
    }
}

pub open spec fn plist_members(s: Seq<(String, Plist)>) -> Seq<(Seq<char>, PlistV)>
    decreases s,
{
    if s.len() == 0 {
        Seq::empty()
    } else {
        plist_members(s.subrange(0, s.len() - 1)).push(
            (s[s.len() - 1].0@, plist_view(s[s.len() - 1].1)),
        )
    }
}

impl View for Plist {
    type V = PlistV;

    open spec fn view(&self) -> PlistV {
        plist_view(*self)
    }
}

pub proof fn lemma_plist_items(s: Seq<Plist>)
    ensures
        plist_items(s).len() == s.len(),
        forall|i: int| 0 <= i < s.len() ==> #[trigger] plist_items(s)[i] == plist_view(s[i]),
    decreases s.len(),
{
    if s.len() > 0 {
        lemma_plist_items(s.subrange(0, s.len() - 1));
    }
}

pub proof fn lemma_plist_members(s: Seq<(String, Plist)>)
    ensures
        plist_members(s).len() == s.len(),
        forall|i: int|
            0 <= i < s.len() ==> #[trigger] plist_members(s)[i] == (s[i].0@, plist_view(s[i].1)),
    decreases s.len(),
{
    if s.len() > 0 {
        lemma_plist_members(s.subrange(0, s.len() - 1));
    }
}

/// The value that a property list of these bytes holds; `None` where the
/// bytes are not a property list.
pub uninterp spec fn plist_of(bytes: Seq<u8>) -> Option<PlistV>;

/// The pretty-printed JSON text of a value.
pub uninterp spec fn pretty_of(p: PlistV) -> Seq<char>;

/// A value that JSON can hold: it has no date, data or UID anywhere.
pub open spec fn printable(p: PlistV) -> bool
    decreases p,
{
    match p {
        PlistV::Array(a) => items_printable(a),
        PlistV::Dictionary(ms) => members_printable(ms),
        PlistV::Other => false,
        _ => true,
    }
}

pub open spec fn items_printable(s: Seq<PlistV>) -> bool
    decreases s,
{
    s.len() == 0 || (items_printable(s.subrange(0, s.len() - 1)) && printable(s[s.len() - 1]))
}

pub open spec fn members_printable(s: Seq<(Seq<char>, PlistV)>) -> bool
    decreases s,
{
    s.len() == 0 || (members_printable(s.subrange(0, s.len() - 1)) && printable(s[s.len() - 1].1))
}

#[verifier::external_type_specification]
#[verifier::external_body]
pub struct ExPlistValue(plist::Value);

#[verifier::external_type_specification]
#[verifier::external_body]
pub struct ExJsonValue(serde_json::Value);

/// A parsed value as the library's tree, one variant for one. Numbers are
/// written by serde_json::to_string, as serde_json would print them.
#[verifier::external_body]
fn plist_tree(v: plist::Value) -> (r: Plist) {
    match v {
        plist::Value::Array(a) => Plist::Array(a.into_iter().map(plist_tree).collect()),
        plist::Value::Dictionary(d) => {
            Plist::Dictionary(d.into_iter().map(|(k, x)| (k, plist_tree(x))).collect())
        },
        plist::Value::Boolean(b) => Plist::Boolean(b),
        plist::Value::Integer(_) | plist::Value::Real(_) => {
            Plist::Number(serde_json::to_string(&v).unwrap_or_default())
        },
        plist::Value::String(s) => Plist::String(s),
        _ => Plist::Other,
    }
}

/// A printable tree as a serde_json value, one variant for one; numbers are
/// read back by serde_json::from_str.
#[verifier::external_body]
fn json_tree(p: &Plist) -> (r: serde_json::Value) {
    match p {
        Plist::Array(a) => serde_json::Value::Array(a.iter().map(json_tree).collect()),
        Plist::Dictionary(ms) => {
            serde_json::Value::Object(ms.iter().map(|(k, x)| (k.clone(), json_tree(x))).collect())
        },
        Plist::Boolean(b) => serde_json::Value::Bool(*b),
        Plist::Number(t) => serde_json::from_str(t).unwrap_or_default(),
        Plist::String(s) => serde_json::Value::String(s.clone()),
        Plist::Other => serde_json::Value::Null,
    }
}

/// Relies on plist::Value::from_reader: reads a property list of any
/// encoding (XML, binary or ASCII); what it reads depends on the bytes alone.
#[verifier::external_body]
fn parse_plist(bytes: &[u8]) -> (r: Option<Plist>)
    ensures
        r is None <==> plist_of(bytes@) is None,
        r matches Some(p) ==> plist_of(bytes@) == Some(p@),
{
    plist::Value::from_reader(std::io::Cursor::new(bytes)).ok().map(plist_tree)
}

/// Relies on serde_json::to_string_pretty: the value as pretty-printed JSON,
/// which depends on the value alone.
#[verifier::external_body]
fn pretty_json(p: &Plist) -> (r: String)
    requires
        printable(p@),
    ensures
        r@ == pretty_of(p@),
{
    serde_json::to_string_pretty(&json_tree(p)).unwrap_or_default()
}

/// What one string-resource file holds, as the merge reads it.
pub enum SourceContents {
    /// The file is not a property list that could be parsed.
    Unparsable,
    /// The file parsed, but its root is not a dictionary.
    NotDictionary,
    /// The root dictionary's entries, key and value as text, in order.
    Entries(Vec<(String, String)>),
}

/// The mathematical value of a [`SourceContents`].
pub enum SourceV {
    Unparsable,
    NotDictionary,
    Entries(Seq<(Seq<char>, Seq<char>)>),
}

/// The views of a list of string pairs.
pub open spec fn text_pairs(vs: Seq<(String, String)>) -> Seq<(Seq<char>, Seq<char>)> {
    vs.map_values(|p: (String, String)| (p.0@, p.1@))
}

impl View for SourceContents {
    type V = SourceV;

    open spec fn view(&self) -> SourceV {
        match self {
            SourceContents::Unparsable => SourceV::Unparsable,
            SourceContents::NotDictionary => SourceV::NotDictionary,
            SourceContents::Entries(es) => SourceV::Entries(text_pairs(es@)),
        }
    }
}

/// The text stored for a value: a string as it is, any other value as
/// pretty-printed JSON; `None` for a value that JSON cannot hold.
pub open spec fn text_of(p: PlistV) -> Option<Seq<char>> {
    match p {
        PlistV::String(s) => Some(s),
        _ => if printable(p) {
            Some(pretty_of(p))
        } else {
            None
        },
    }
}

/// The entries of a dictionary as text, in order; `None` where a value has no text.
pub open spec fn entries_text(ms: Seq<(Seq<char>, PlistV)>) -> Option<Seq<(Seq<char>, Seq<char>)>>
    decreases ms.len(),
{
    if ms.len() == 0 {
        Some(Seq::empty())
    } else {
        match (entries_text(ms.subrange(0, ms.len() - 1)), text_of(ms[ms.len() - 1].1)) {
            (Some(ts), Some(t)) => Some(ts.push((ms[ms.len() - 1].0, t))),
            _ => None,
        }
    }
}

/// What a file holds, from what its bytes parse to: nothing usable where they
/// do not parse or a value has no text, an error where the root is not a
/// dictionary, and the dictionary's entries as text otherwise.
pub open spec fn source_of(p: Option<PlistV>) -> SourceV {
    match p {
        None => SourceV::Unparsable,
        Some(PlistV::Dictionary(ms)) => match entries_text(ms) {
            Some(ts) => SourceV::Entries(ts),
            None => SourceV::Unparsable,
        },
        Some(_) => SourceV::NotDictionary,
    }
}

/// Whether a value is printable as `printable` states.
fn is_printable(p: &Plist) -> (r: bool)
    ensures
        r == printable(p@),
    decreases p,
{
    match p {
        Plist::Array(a) => {
            proof {
                lemma_plist_items(a@);
            }
            let mut i: usize = 0;
            assert(plist_items(a@).subrange(0, 0).len() == 0);
            while i < a.len()
                invariant
                    *p == Plist::Array(*a),
                    i <= a@.len(),
                    plist_items(a@).len() == a@.len(),
                    forall|j: int| 0 <= j < a@.len() ==> #[trigger] plist_items(a@)[j] == plist_view(a@[j]),
                    items_printable(plist_items(a@).subrange(0, i as int)),
                decreases a@.len() - i,
            {
                let ghost s = plist_items(a@);
                assert(s.subrange(0, i + 1).subrange(0, i as int) =~= s.subrange(0, i as int));
                proof {
                    assert(decreases_to!(*p => (*p)->Array_0));
                    assert((*p)->Array_0 == *a);
                    assert(decreases_to!(*a => a@));
                    assert(decreases_to!(a@ => a@[i as int]));
                    assert(decreases_to!(*p => a@[i as int]));
                }
                if !is_printable(&a[i]) {
                    proof {
                        assert(s.subrange(0, i + 1)[i as int] == s[i as int]);
                        assert(!items_printable(s)) by {
                            if items_printable(s) {
                                lemma_items_prefix(s, i as int + 1);
                            }
                        }
                    }
                    return false;
                }
                i = i + 1;
            }
            assert(plist_items(a@).subrange(0, i as int) =~= plist_items(a@));
            true
        },
        Plist::Dictionary(ms) => {
            proof {
                lemma_plist_members(ms@);
            }
            let mut i: usize = 0;
            assert(plist_members(ms@).subrange(0, 0).len() == 0);
            while i < ms.len()
                invariant
                    *p == Plist::Dictionary(*ms),
                    i <= ms@.len(),
                    plist_members(ms@).len() == ms@.len(),
                    forall|j: int|
                        0 <= j < ms@.len() ==> #[trigger] plist_members(ms@)[j] == (
                            ms@[j].0@,
                            plist_view(ms@[j].1),
                        ),
                    members_printable(plist_members(ms@).subrange(0, i as int)),
                decreases ms@.len() - i,
            {
                let ghost s = plist_members(ms@);
                assert(s.subrange(0, i + 1).subrange(0, i as int) =~= s.subrange(0, i as int));
                proof {
                    assert(decreases_to!(*p => (*p)->Dictionary_0));
                    assert((*p)->Dictionary_0 == *ms);
                    assert(decreases_to!(*ms => ms@));
                    assert(decreases_to!(ms@ => ms@[i as int]));
                    assert(decreases_to!(ms@[i as int] => ms@[i as int].1));
                    assert(decreases_to!(*p => ms@[i as int].1));
                }
                if !is_printable(&ms[i].1) {
                    proof {
                        assert(s.subrange(0, i + 1)[i as int] == s[i as int]);
                        assert(!members_printable(s)) by {
                            if members_printable(s) {
                                lemma_members_prefix(s, i as int + 1);
                            }
                        }
                    }
                    return false;
                }
                i = i + 1;
            }
            assert(plist_members(ms@).subrange(0, i as int) =~= plist_members(ms@));
            true
        },
        Plist::Other => false,
        _ => true,
    }
}

/// A list is printable only where each of its prefixes is.
proof fn lemma_items_prefix(s: Seq<PlistV>, n: int)
    requires
        0 <= n <= s.len(),
        items_printable(s),
    ensures
        items_printable(s.subrange(0, n)),
    decreases s.len(),
{
    if n < s.len() {
        let pre = s.subrange(0, s.len() - 1);
        lemma_items_prefix(pre, n);
        assert(pre.subrange(0, n) =~= s.subrange(0, n));
    } else {
        assert(s.subrange(0, n) =~= s);
    }
}

proof fn lemma_members_prefix(s: Seq<(Seq<char>, PlistV)>, n: int)
    requires
        0 <= n <= s.len(),
        members_printable(s),
    ensures
        members_printable(s.subrange(0, n)),
    decreases s.len(),
{
    if n < s.len() {
        let pre = s.subrange(0, s.len() - 1);
        lemma_members_prefix(pre, n);
        assert(pre.subrange(0, n) =~= s.subrange(0, n));
    } else {
        assert(s.subrange(0, n) =~= s);
    }
}

/// The text stored for a value, as `text_of` states.
fn value_text(p: &Plist) -> (r: Option<String>)
    ensures
        r matches Some(t) ==> text_of(p@) == Some(t@),
        r is None ==> text_of(p@) is None,
{
    match p {
        Plist::String(s) => Some(s.clone()),
        _ => {
            if is_printable(p) {
                Some(pretty_json(p))
            } else {
                None
            }
        },
    }
}

/// Reads a string-resource file: a property list whose root is expected to
/// be a dictionary.
pub fn read_source(bytes: &[u8]) -> (r: SourceContents)
    ensures
        r@ == source_of(plist_of(bytes@)),
{
    let parsed = parse_plist(bytes);
    let ghost parsed_v = parsed;
    match parsed {
        None => SourceContents::Unparsable,
        Some(Plist::Dictionary(items)) => {
            let ghost mv = plist_members(items@);
            proof {
                assert(parsed_v == Some(Plist::Dictionary(items)));
                assert(plist_of(bytes@) == Some(PlistV::Dictionary(mv)));
                lemma_plist_members(items@);
                assert(mv.subrange(0, 0).len() == 0);
            }
            let mut entries: Vec<(String, String)> = Vec::new();
            let mut i: usize = 0;
            while i < items.len()
                invariant
                    plist_of(bytes@) == Some(PlistV::Dictionary(mv)),
                    mv == plist_members(items@),
                    mv.len() == items@.len(),
                    forall|j: int|
                        0 <= j < items@.len() ==> #[trigger] mv[j] == (
                            items@[j].0@,
                            plist_view(items@[j].1),
                        ),
                    i <= items@.len(),
                    entries_text(mv.subrange(0, i as int)) == Some(text_pairs(entries@)),
                decreases items@.len() - i,
            {
                let ghost sub = mv.subrange(0, i + 1);
                assert(sub.subrange(0, i as int) =~= mv.subrange(0, i as int));
                assert(sub[i as int] == mv[i as int]);
                match value_text(&items[i].1) {
                    Some(t) => {
                        let ghost before = entries@;
                        entries.push((items[i].0.clone(), t));
                        proof {
                            assert(text_pairs(entries@) =~= text_pairs(before).push(
                                (items@[i as int].0@, t@),
                            ));
                        }
                    },
                    None => {
                        proof {
                            assert(entries_text(sub) is None);
                            lemma_entries_none(mv, i as int + 1);
                        }
                        return SourceContents::Unparsable;
                    },
                }
                i = i + 1;
            }
            assert(mv.subrange(0, i as int) =~= mv);
            SourceContents::Entries(entries)
        },
        Some(_) => SourceContents::NotDictionary,
    }
}

/// Where a prefix of the entries has no text, neither has the whole.
proof fn lemma_entries_none(ms: Seq<(Seq<char>, PlistV)>, n: int)
    requires
        0 <= n <= ms.len(),
        entries_text(ms.subrange(0, n)) is None,
    ensures
        entries_text(ms) is None,
    decreases ms.len(),
{
    if n < ms.len() {
        let pre = ms.subrange(0, ms.len() - 1);
        assert(pre.subrange(0, n) =~= ms.subrange(0, n));
        lemma_entries_none(pre, n);
    } else {
        assert(ms.subrange(0, n) =~= ms);
    }
}

/// Whether a file named `name` is a `*.strings` file: its extension is
/// `strings`, after a non-empty stem.
pub fn is_strings_file(name: &str) -> (r: bool)
    ensures
        r == (ends_with(name@, ".strings"@) && name@.len() > 8),
{
    proof {
        reveal_strlit(".strings");
    }
    let n = name.unicode_len();
    n > 8 && str_ends_with(name, ".strings")
}

/// The name of the `*.stringsdict` file that accompanies a `*.strings` file.
pub fn companion_name(name: &str) -> (r: String)
    requires
        ends_with(name@, ".strings"@),
    ensures
        r@ == name@ + "dict"@,
{
    concat(name, "dict")
}

} // verus!
