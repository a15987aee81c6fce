//! The merge engine: every locale's string resources of one bundle, folded
//! into one row per (file name, key), and the search documents made of them.

use vstd::prelude::*;
use crate::pairs::{keys_distinct, lemma_pairs_map, lemma_pairs_push, lemma_pairs_update, pairs_map};
use crate::text::str_eq;
use crate::json::{Json, JsonV, json_view, lemma_lookup_distinct, lemma_members_view, members_view};
use crate::source::read_source;
use crate::error::ErrorKind;
use crate::source::{SourceContents, SourceV, plist_of, source_of, text_pairs};

verus! {

/// The text of one row in each locale that defines it: locale identifier to text.
pub type LocaleValues = Map<Seq<char>, Seq<char>>;

/// A bundle's rows: (file name, key) to the row's text by locale.
pub type Table = Map<(Seq<char>, Seq<char>), LocaleValues>;

/// `t` after locale `locale` gave `text` for `key` in `file`: that one value
/// is set, every other stays.
pub open spec fn entry_added(
    t: Table,
    file: Seq<char>,
    key: Seq<char>,
    locale: Seq<char>,
    text: Seq<char>,
) -> Table {
    let row = if t.contains_key((file, key)) {
        t[(file, key)]
    } else {
        Map::empty()
    };
    t.insert((file, key), row.insert(locale, text))
}

/// `t` after the entries of one file of one locale were added in order.
pub open spec fn entries_added(
    t: Table,
    locale: Seq<char>,
    file: Seq<char>,
    entries: Seq<(Seq<char>, Seq<char>)>,
) -> Table
    decreases entries.len(),
{
    if entries.len() == 0 {
        t
    } else {
        let last = entries[entries.len() - 1];
        entry_added(
            entries_added(t, locale, file, entries.subrange(0, entries.len() - 1)),
            file,
            last.0,
            locale,
            last.1,
        )
    }
}

/// One localizable string of a bundle and its text in each locale.
struct Row {
    file: String,
    key: String,
    values: Vec<(String, String)>,
}

spec fn row_pairs(rows: Seq<Row>) -> Seq<((Seq<char>, Seq<char>), LocaleValues)> {
    rows.map_values(|r: Row| ((r.file@, r.key@), pairs_map(text_pairs(r.values@))))
}

/// All localized strings of one bundle, by (file name, key) and locale.
pub struct LocalizedBundle {
    rows: Vec<Row>,
}

impl View for LocalizedBundle {
    type V = Table;

    closed spec fn view(&self) -> Table {
        pairs_map(row_pairs(self.rows@))
    }
}

impl LocalizedBundle {
    /// Rows are distinct by (file name, key), and within a row locales are distinct.
    pub closed spec fn wf(&self) -> bool {
        &&& keys_distinct(row_pairs(self.rows@))
        &&& forall|i: int|
            0 <= i < self.rows@.len() ==> keys_distinct(#[trigger] text_pairs(self.rows@[i].values@))
    }

    /// An empty bundle.
    pub fn new() -> (r: LocalizedBundle)
        ensures
            r.wf(),
            r@ == Table::empty(),
    {
        let r = LocalizedBundle { rows: Vec::new() };
        proof {
            assert(row_pairs(r.rows@) =~= Seq::empty());
        }
        r
    }
}

impl Default for LocalizedBundle {
    fn default() -> (r: LocalizedBundle)
        ensures
            r.wf(),
            r@ == Table::empty(),
    {
        LocalizedBundle::new()
    }
}

/// Sets the text of `locale` in one row's values.
fn set_value(values: &mut Vec<(String, String)>, locale: &str, text: String)
    requires
        keys_distinct(text_pairs(old(values)@)),
    ensures
        keys_distinct(text_pairs(final(values)@)),
        pairs_map(text_pairs(final(values)@)) == pairs_map(text_pairs(old(values)@)).insert(
            locale@,
            text@,
        ),
{
    let ghost vs0 = values@;
    let mut i: usize = 0;
    while i < values.len()
        invariant
            values@ == vs0,
            vs0 == old(values)@,
            keys_distinct(text_pairs(vs0)),
            i <= vs0.len(),
            forall|j: int| 0 <= j < i ==> vs0[j].0@ != locale@,
        decreases vs0.len() - i,
    {
        if str_eq(values[i].0.as_str(), locale) {
            let ghost t = text@;
            values[i] = (String::from_str(locale), text);
            proof {
                assert(text_pairs(vs0)[i as int].0 == locale@);
                assert(text_pairs(values@) =~= text_pairs(vs0).update(
                    i as int,
                    (text_pairs(vs0)[i as int].0, t),
                ));
                lemma_pairs_update(text_pairs(vs0), i as int, t);
            }
            return;
        }
        i = i + 1;
    }
    let ghost t = text@;
    values.push((String::from_str(locale), text));
    proof {
        assert(text_pairs(values@) =~= text_pairs(vs0).push((locale@, t)));
        lemma_pairs_push(text_pairs(vs0), locale@, t);
    }
}

impl LocalizedBundle {
    /// Records that `locale_id` gives `text` for `key` in `file`, replacing an
    /// earlier text of that locale for that key.
    pub fn add_entry(&mut self, locale_id: &str, file: &str, key: &str, text: String)
        requires
            old(self).wf(),
        ensures
            final(self).wf(),
            final(self)@ == entry_added(old(self)@, file@, key@, locale_id@, text@),
    {
        let ghost rows0 = self.rows@;
        proof {
            lemma_pairs_map(row_pairs(rows0));
        }
        let mut i: usize = 0;
        while i < self.rows.len()
            invariant
                self.rows@ == rows0,
                rows0 == old(self).rows@,
                self.wf(),
                i <= rows0.len(),
                forall|j: int| 0 <= j < i ==> row_pairs(rows0)[j].0 != (file@, key@),
            decreases rows0.len() - i,
        {
            if str_eq(self.rows[i].file.as_str(), file) && str_eq(self.rows[i].key.as_str(), key) {
                let ghost t = text@;
                let ghost old_values = pairs_map(text_pairs(rows0[i as int].values@));
                set_value(&mut self.rows[i].values, locale_id, text);
                proof {
                    let rp = row_pairs(rows0);
                    lemma_pairs_map(rp);
                    assert(rp[i as int] == ((rows0[i as int].file@, rows0[i as int].key@), old_values));
                    assert(rp[i as int].0 == (file@, key@));
                    assert(row_pairs(self.rows@) =~= rp.update(
                        i as int,
                        (rp[i as int].0, old_values.insert(locale_id@, t)),
                    ));
                    lemma_pairs_update(rp, i as int, old_values.insert(locale_id@, t));
                    assert(pairs_map(rp)[rp[i as int].0] == old_values);
                    assert forall|j: int| 0 <= j < self.rows@.len() implies keys_distinct(
                        #[trigger] text_pairs(self.rows@[j].values@),
                    ) by {
                        if j != i {
                            assert(self.rows@[j] == rows0[j]);
                        }
                    }
                }
                return;
            }
            i = i + 1;
        }
        let ghost t = text@;
        let mut values: Vec<(String, String)> = Vec::new();
        values.push((String::from_str(locale_id), text));
        let row = Row { file: String::from_str(file), key: String::from_str(key), values };
        self.rows.push(row);
        proof {
            let rp = row_pairs(rows0);
            assert(text_pairs(values@) =~= seq![(locale_id@, t)]);
            assert(text_pairs(values@).subrange(0, 0) =~= Seq::empty());
            assert(pairs_map(text_pairs(values@).subrange(0, 0)) =~= Map::empty());
            assert(pairs_map(text_pairs(values@)) =~= Map::empty().insert(locale_id@, t));
            assert(row_pairs(self.rows@) =~= rp.push(((file@, key@), pairs_map(text_pairs(values@)))));
            lemma_pairs_push(rp, (file@, key@), pairs_map(text_pairs(values@)));
            assert(!pairs_map(rp).contains_key((file@, key@)));
            assert forall|j: int| 0 <= j < self.rows@.len() implies keys_distinct(
                #[trigger] text_pairs(self.rows@[j].values@),
            ) by {
                if j < rows0.len() {
                    assert(self.rows@[j] == rows0[j]);
                }
            }
        }
    }
}

impl LocalizedBundle {
    /// Adds every entry of one file of one locale, in order.
    pub fn add_entries(&mut self, locale_id: &str, file: &str, entries: &Vec<(String, String)>)
        requires
            old(self).wf(),
        ensures
            final(self).wf(),
            final(self)@ == entries_added(old(self)@, locale_id@, file@, text_pairs(entries@)),
    {
        let ghost es = text_pairs(entries@);
        assert(es.subrange(0, 0).len() == 0);
        let mut i: usize = 0;
        while i < entries.len()
            invariant
                self.wf(),
                es == text_pairs(entries@),
                i <= entries@.len(),
                self@ == entries_added(old(self)@, locale_id@, file@, es.subrange(0, i as int)),
            decreases entries@.len() - i,
        {
            let text = entries[i].1.clone();
            self.add_entry(locale_id, file, entries[i].0.as_str(), text);
            proof {
                assert(es.subrange(0, i + 1).subrange(0, i as int) =~= es.subrange(0, i as int));
                assert(es[i as int] == (entries@[i as int].0@, entries@[i as int].1@));
            }
            i = i + 1;
        }
        assert(es.subrange(0, i as int) =~= es);
    }

    /// Adds what one file of one locale holds, under the file name `file`.
    /// A file that could not be parsed adds nothing and is no error; one whose
    /// root is not a dictionary is an error and adds nothing.
    pub fn add_source(&mut self, locale_id: &str, file: &str, contents: &SourceContents) -> (r:
        Result<(), ErrorKind>)
        requires
            old(self).wf(),
        ensures
            final(self).wf(),
            match contents@ {
                SourceV::Unparsable => r is Ok && final(self)@ == old(self)@,
                SourceV::NotDictionary => (r matches Err(ErrorKind::InvalidPlist))
                    && final(self)@ == old(self)@,
                SourceV::Entries(es) => r is Ok && final(self)@ == entries_added(
                    old(self)@,
                    locale_id@,
                    file@,
                    es,
                ),
            },
    {
        match contents {
            SourceContents::Unparsable => Ok(()),
            SourceContents::NotDictionary => Err(ErrorKind::InvalidPlist),
            SourceContents::Entries(es) => {
                self.add_entries(locale_id, file, es);
                Ok(())
            },
        }
    }
}


/// One file of one locale as the merge reads it: the locale identifier, the
/// file name, and the file's entries (key and text) in order.
pub type Source = (Seq<char>, Seq<char>, Seq<(Seq<char>, Seq<char>)>);

/// `t` after the sources were added in order.
pub open spec fn sources_added(t: Table, sources: Seq<Source>) -> Table
    decreases sources.len(),
{
    if sources.len() == 0 {
        t
    } else {
        let s = sources[sources.len() - 1];
        entries_added(sources_added(t, sources.subrange(0, sources.len() - 1)), s.0, s.1, s.2)
    }
}

/// Source `s` has an entry for `key` in file `file`.
pub open spec fn defines(s: Source, file: Seq<char>, key: Seq<char>) -> bool {
    s.1 == file && exists|i: int| 0 <= i < s.2.len() && #[trigger] s.2[i].0 == key
}

proof fn lemma_entries_added_domain(
    t: Table,
    locale: Seq<char>,
    file: Seq<char>,
    es: Seq<(Seq<char>, Seq<char>)>,
    f: Seq<char>,
    k: Seq<char>,
    l: Seq<char>,
)
    ensures
        entries_added(t, locale, file, es).contains_key((f, k)) <==> (t.contains_key((f, k)) || (f
            == file && exists|i: int| 0 <= i < es.len() && #[trigger] es[i].0 == k)),
        entries_added(t, locale, file, es).contains_key((f, k)) ==> (entries_added(
            t,
            locale,
            file,
            es,
        )[(f, k)].contains_key(l) <==> ((t.contains_key((f, k)) && t[(f, k)].contains_key(l)) || (l
            == locale && f == file && exists|i: int| 0 <= i < es.len() && #[trigger] es[i].0 == k))),
    decreases es.len(),
{
    if es.len() > 0 {
        let pre = es.subrange(0, es.len() - 1);
        lemma_entries_added_domain(t, locale, file, pre, f, k, l);
        assert forall|i: int| 0 <= i < pre.len() implies #[trigger] pre[i] == es[i] by {}
        if exists|i: int| 0 <= i < es.len() && #[trigger] es[i].0 == k {
            let i = choose|i: int| 0 <= i < es.len() && #[trigger] es[i].0 == k;
            if i < es.len() - 1 {
                assert(pre[i].0 == k);
            }
        }
    }
}

/// Merging keeps one row for each (file, key) that some source defines and
/// no other, and the row holds a value for exactly the locales whose
/// sources define that key in that file.
proof fn lemma_merge_rows(sources: Seq<Source>, file: Seq<char>, key: Seq<char>, locale: Seq<char>)
    ensures
        sources_added(Table::empty(), sources).contains_key((file, key)) <==> exists|j: int|
            0 <= j < sources.len() && defines(#[trigger] sources[j], file, key),
        sources_added(Table::empty(), sources).contains_key((file, key)) ==> (sources_added(
            Table::empty(),
            sources,
        )[(file, key)].contains_key(locale) <==> exists|j: int|
            0 <= j < sources.len() && #[trigger] sources[j].0 == locale && defines(
                sources[j],
                file,
                key,
            )),
    decreases sources.len(),
{
    if sources.len() > 0 {
        let pre = sources.subrange(0, sources.len() - 1);
        let s = sources[sources.len() - 1];
        lemma_merge_rows(pre, file, key, locale);
        lemma_entries_added_domain(sources_added(Table::empty(), pre), s.0, s.1, s.2, file, key, locale);
        assert forall|j: int| 0 <= j < pre.len() implies #[trigger] pre[j] == sources[j] by {}
        if exists|j: int| 0 <= j < sources.len() && defines(#[trigger] sources[j], file, key) {
            let j = choose|j: int| 0 <= j < sources.len() && defines(#[trigger] sources[j], file, key);
            if j < sources.len() - 1 {
                assert(defines(pre[j], file, key));
            }
        }
        if exists|j: int|
            0 <= j < sources.len() && #[trigger] sources[j].0 == locale && defines(
                sources[j],
                file,
                key,
            ) {
            let j = choose|j: int|
                0 <= j < sources.len() && #[trigger] sources[j].0 == locale && defines(
                    sources[j],
                    file,
                    key,
                );
            if j < sources.len() - 1 {
                assert(pre[j].0 == locale && defines(pre[j], file, key));
            }
        }
    }
}

/// The sources of one file of a locale: its entries, where it holds any.
pub open spec fn source_list(locale: Seq<char>, file: Seq<char>, c: SourceV) -> Seq<Source> {
    match c {
        SourceV::Entries(es) => seq![(locale, file, es)],
        _ => Seq::empty(),
    }
}

/// The sources of a read `*.strings` file: its own, then its companion's.
pub open spec fn strings_sources(locale: Seq<char>, p: ParsedV) -> Seq<Source> {
    source_list(locale, p.0, p.1) + match p.2 {
        Some(c) => source_list(locale, p.0, c),
        None => Seq::empty(),
    }
}

/// The sources of the read files of a locale directory, in order.
pub open spec fn lproj_sources(locale: Seq<char>, ps: Seq<ParsedV>) -> Seq<Source>
    decreases ps.len(),
{
    if ps.len() == 0 {
        Seq::empty()
    } else {
        strings_sources(locale, ps[0]) + lproj_sources(locale, ps.subrange(1, ps.len() as int))
    }
}

/// A bundle read one locale directory after another, from an empty table:
/// the table, and whether every directory was read without error.
pub open spec fn bundle_result(dirs: Seq<(Seq<char>, Seq<ParsedV>)>) -> (Table, bool)
    decreases dirs.len(),
{
    if dirs.len() == 0 {
        (Table::empty(), true)
    } else {
        let r = bundle_result(dirs.subrange(0, dirs.len() - 1));
        let d = dirs[dirs.len() - 1];
        if !r.1 {
            r
        } else {
            lproj_result(r.0, d.0, d.1)
        }
    }
}

/// The sources of all locale directories of a bundle, in order.
pub open spec fn bundle_sources(dirs: Seq<(Seq<char>, Seq<ParsedV>)>) -> Seq<Source>
    decreases dirs.len(),
{
    if dirs.len() == 0 {
        Seq::empty()
    } else {
        let d = dirs[dirs.len() - 1];
        bundle_sources(dirs.subrange(0, dirs.len() - 1)) + lproj_sources(d.0, d.1)
    }
}

proof fn lemma_sources_concat(t: Table, a: Seq<Source>, b: Seq<Source>)
    ensures
        sources_added(sources_added(t, a), b) == sources_added(t, a + b),
    decreases b.len(),
{
    if b.len() == 0 {
        assert(a + b =~= a);
    } else {
        let b0 = b.subrange(0, b.len() - 1);
        lemma_sources_concat(t, a, b0);
        assert((a + b).subrange(0, (a + b).len() - 1) =~= a + b0);
        assert((a + b)[(a + b).len() - 1] == b[b.len() - 1]);
    }
}

proof fn lemma_source_as_sources(t: Table, locale: Seq<char>, file: Seq<char>, c: SourceV)
    requires
        source_result(t, locale, file, c).1,
    ensures
        source_result(t, locale, file, c).0 == sources_added(t, source_list(locale, file, c)),
{
    let l = source_list(locale, file, c);
    match c {
        SourceV::Entries(es) => {
            assert(l.subrange(0, 0) =~= Seq::<Source>::empty());
            assert(sources_added(t, l.subrange(0, 0)) == t);
            assert(l[0] == (locale, file, es));
        },
        _ => {
            assert(l.len() == 0);
        },
    }
}

proof fn lemma_lproj_as_sources(t: Table, locale: Seq<char>, ps: Seq<ParsedV>)
    requires
        lproj_result(t, locale, ps).1,
    ensures
        lproj_result(t, locale, ps).0 == sources_added(t, lproj_sources(locale, ps)),
    decreases ps.len(),
{
    if ps.len() > 0 {
        let p = ps[0];
        let rest = ps.subrange(1, ps.len() as int);
        let r1 = source_result(t, locale, p.0, p.1);
        lemma_source_as_sources(t, locale, p.0, p.1);
        let own = source_list(locale, p.0, p.1);
        let comp = match p.2 {
            Some(c) => source_list(locale, p.0, c),
            None => Seq::<Source>::empty(),
        };
        match p.2 {
            Some(c) => {
                lemma_source_as_sources(r1.0, locale, p.0, c);
            },
            None => {},
        }
        lemma_sources_concat(t, own, comp);
        let r = strings_result(t, locale, p);
        lemma_lproj_as_sources(r.0, locale, rest);
        lemma_sources_concat(t, own + comp, lproj_sources(locale, rest));
    }
}

/// Reading a bundle's locale directories one after another, each without
/// error, keeps one row for each (file, key) that some read file defines and
/// no other; the row holds a value for exactly the locales whose files
/// define that key in that file.
pub proof fn lemma_bundle_rows(
    dirs: Seq<(Seq<char>, Seq<ParsedV>)>,
    file: Seq<char>,
    key: Seq<char>,
    locale: Seq<char>,
)
    requires
        bundle_result(dirs).1,
    ensures
        bundle_result(dirs).0 == sources_added(Table::empty(), bundle_sources(dirs)),
        bundle_result(dirs).0.contains_key((file, key)) <==> exists|j: int|
            0 <= j < bundle_sources(dirs).len() && defines(
                #[trigger] bundle_sources(dirs)[j],
                file,
                key,
            ),
        bundle_result(dirs).0.contains_key((file, key)) ==> (bundle_result(dirs).0[(
            file,
            key,
        )].contains_key(locale) <==> exists|j: int|
            0 <= j < bundle_sources(dirs).len() && #[trigger] bundle_sources(dirs)[j].0 == locale
                && defines(bundle_sources(dirs)[j], file, key)),
    decreases dirs.len(),
{
    lemma_bundle_as_sources(dirs);
    lemma_merge_rows(bundle_sources(dirs), file, key, locale);
}

proof fn lemma_bundle_as_sources(dirs: Seq<(Seq<char>, Seq<ParsedV>)>)
    requires
        bundle_result(dirs).1,
    ensures
        bundle_result(dirs).0 == sources_added(Table::empty(), bundle_sources(dirs)),
    decreases dirs.len(),
{
    if dirs.len() > 0 {
        let pre = dirs.subrange(0, dirs.len() - 1);
        let d = dirs[dirs.len() - 1];
        lemma_bundle_as_sources(pre);
        lemma_lproj_as_sources(bundle_result(pre).0, d.0, d.1);
        lemma_sources_concat(Table::empty(), bundle_sources(pre), lproj_sources(d.0, d.1));
    }
}

/// One `*.strings` file of a locale directory: its name, its bytes, and the
/// bytes of the companion `*.stringsdict` file of the same name, where there is one.
pub struct StringsFile {
    pub name: String,
    pub contents: Vec<u8>,
    pub companion: Option<Vec<u8>>,
}

/// A `*.strings` file of a locale directory, read: its name, what it holds,
/// and what its companion `*.stringsdict` file holds, where there is one.
pub struct ParsedStrings {
    pub name: String,
    pub contents: SourceContents,
    pub companion: Option<SourceContents>,
}

/// The mathematical value of a [`ParsedStrings`]: the file's name, what it
/// holds, and what its companion holds.
pub type ParsedV = (Seq<char>, SourceV, Option<SourceV>);

impl View for ParsedStrings {
    type V = ParsedV;

    open spec fn view(&self) -> ParsedV {
        (
            self.name@,
            self.contents@,
            match self.companion {
                Some(c) => Some(c@),
                None => None,
            },
        )
    }
}

/// How a `*.strings` file whose bytes are these is read.
pub open spec fn parsed_of(f: StringsFile) -> ParsedV {
    (
        f.name@,
        source_of(plist_of(f.contents@)),
        match f.companion {
            Some(c) => Some(source_of(plist_of(c@))),
            None => None,
        },
    )
}

/// `t` after what one file holds was added under the name `file`, and
/// whether that was a valid source.
pub open spec fn source_result(t: Table, locale: Seq<char>, file: Seq<char>, c: SourceV) -> (
    Table,
    bool,
) {
    match c {
        SourceV::Unparsable => (t, true),
        SourceV::NotDictionary => (t, false),
        SourceV::Entries(es) => (entries_added(t, locale, file, es), true),
    }
}

/// `t` after a `*.strings` file and then its companion, both under the name
/// of the first, were added; the companion is not read after an invalid file.
pub open spec fn strings_result(t: Table, locale: Seq<char>, p: ParsedV) -> (Table, bool) {
    let r = source_result(t, locale, p.0, p.1);
    if !r.1 {
        r
    } else {
        match p.2 {
            None => r,
            Some(c) => source_result(r.0, locale, p.0, c),
        }
    }
}

/// `t` after the files of a locale directory were added in order, up to and
/// including the first that is not a valid source; and whether all were.
pub open spec fn lproj_result(t: Table, locale: Seq<char>, ps: Seq<ParsedV>) -> (Table, bool)
    decreases ps.len(),
{
    if ps.len() == 0 {
        (t, true)
    } else {
        let r = strings_result(t, locale, ps[0]);
        if !r.1 {
            r
        } else {
            lproj_result(r.0, locale, ps.subrange(1, ps.len() as int))
        }
    }
}

/// The views of a list of parsed files.
pub open spec fn parsed_views(ps: Seq<ParsedStrings>) -> Seq<ParsedV> {
    ps.map_values(|p: ParsedStrings| p@)
}

impl LocalizedBundle {
    /// Adds a read `*.strings` file and then, where there is one, its
    /// companion, both under the name of the first.
    pub fn add_strings(&mut self, locale_id: &str, p: &ParsedStrings) -> (r: Result<(), ErrorKind>)
        requires
            old(self).wf(),
        ensures
            final(self).wf(),
            final(self)@ == strings_result(old(self)@, locale_id@, p@).0,
            r is Ok <==> strings_result(old(self)@, locale_id@, p@).1,
            r is Err ==> r matches Err(ErrorKind::InvalidPlist),
    {
        self.add_source(locale_id, p.name.as_str(), &p.contents)?;
        match &p.companion {
            Some(c) => self.add_source(locale_id, p.name.as_str(), c),
            None => Ok(()),
        }
    }

    /// Adds the read files of one locale directory in order, and stops at the
    /// first that is not a valid source.
    pub fn add_lproj(&mut self, locale_id: &str, ps: &Vec<ParsedStrings>) -> (r: Result<
        (),
        ErrorKind,
    >)
        requires
            old(self).wf(),
        ensures
            final(self).wf(),
            final(self)@ == lproj_result(old(self)@, locale_id@, parsed_views(ps@)).0,
            r is Ok <==> lproj_result(old(self)@, locale_id@, parsed_views(ps@)).1,
            r is Err ==> r matches Err(ErrorKind::InvalidPlist),
    {
        let n = ps.len();
        let mut i: usize = 0;
        assert(parsed_views(ps@).subrange(0, n as int) =~= parsed_views(ps@));
        while i < n
            invariant
                self.wf(),
                n == ps@.len(),
                i <= n,
                lproj_result(old(self)@, locale_id@, parsed_views(ps@)) == lproj_result(
                    self@,
                    locale_id@,
                    parsed_views(ps@).subrange(i as int, n as int),
                ),
            decreases n - i,
        {
            let ghost rest = parsed_views(ps@).subrange(i as int, n as int);
            assert(rest[0] == ps@[i as int]@);
            assert(rest.subrange(1, rest.len() as int) =~= parsed_views(ps@).subrange(i + 1, n as int));
            self.add_strings(locale_id, &ps[i])?;
            i = i + 1;
        }
        Ok(())
    }

    /// Reads the `*.strings` files of one locale directory and adds them in
    /// order, stopping at the first that is not a valid source.
    pub fn read_lproj(&mut self, locale_id: &str, files: &Vec<StringsFile>) -> (r: Result<
        (),
        ErrorKind,
    >)
        requires
            old(self).wf(),
        ensures
            final(self).wf(),
            final(self)@ == lproj_result(
                old(self)@,
                locale_id@,
                files@.map_values(|f: StringsFile| parsed_of(f)),
            ).0,
            r is Ok <==> lproj_result(
                old(self)@,
                locale_id@,
                files@.map_values(|f: StringsFile| parsed_of(f)),
            ).1,
            r is Err ==> r matches Err(ErrorKind::InvalidPlist),
    {
        let ghost want = files@.map_values(|f: StringsFile| parsed_of(f));
        let mut parsed: Vec<ParsedStrings> = Vec::new();
        let mut i: usize = 0;
        while i < files.len()
            invariant
                want == files@.map_values(|f: StringsFile| parsed_of(f)),
                i <= files@.len(),
                parsed@.len() == i,
                forall|j: int| 0 <= j < i ==> #[trigger] parsed@[j]@ == want[j],
            decreases files@.len() - i,
        {
            let f = &files[i];
            let companion = match &f.companion {
                Some(c) => Some(read_source(c.as_slice())),
                None => None,
            };
            let p = ParsedStrings {
                name: f.name.clone(),
                contents: read_source(f.contents.as_slice()),
                companion,
            };
            assert(p@ == want[i as int]);
            parsed.push(p);
            i = i + 1;
        }
        assert(parsed_views(parsed@) =~= want);
        self.add_lproj(locale_id, &parsed)
    }
}

/// Names that every document uses for its row's own fields.
pub open spec fn reserved(name: Seq<char>) -> bool {
    name == "BUNDLE"@ || name == "FILE"@ || name == "KEY"@
}

/// The member `name` of the document of row (`file`, `key`) of `bundle`: the
/// row's own fields under the reserved names, and each locale's text under
/// the locale identifier.
pub open spec fn document_member(
    bundle: Seq<char>,
    file: Seq<char>,
    key: Seq<char>,
    values: LocaleValues,
    name: Seq<char>,
) -> Option<JsonV> {
    if name == "BUNDLE"@ {
        Some(JsonV::Str(bundle))
    } else if name == "FILE"@ {
        Some(JsonV::Str(file))
    } else if name == "KEY"@ {
        Some(JsonV::Str(key))
    } else if values.contains_key(name) {
        Some(JsonV::Str(values[name]))
    } else {
        None
    }
}

/// `d` is the search document of row (`file`, `key`) of `bundle`: an object
/// with distinct member names holding exactly the members above.
pub open spec fn is_document(
    d: JsonV,
    bundle: Seq<char>,
    file: Seq<char>,
    key: Seq<char>,
    values: LocaleValues,
) -> bool {
    match d {
        JsonV::Object(ms) => {
            &&& keys_distinct(ms)
            &&& forall|name: Seq<char>| #[trigger]
                d.member(name) == document_member(bundle, file, key, values, name)
        },
        _ => false,
    }
}

fn is_reserved(name: &str) -> (r: bool)
    ensures
        r == reserved(name@),
{
    str_eq(name, "BUNDLE") || str_eq(name, "FILE") || str_eq(name, "KEY")
}

/// The search document of one row.
fn row_document(bundle: &str, row: Row) -> (r: Json)
    requires
        keys_distinct(text_pairs(row.values@)),
    ensures
        is_document(r@, bundle@, row.file@, row.key@, pairs_map(text_pairs(row.values@))),
{
    let ghost tp = text_pairs(row.values@);
    let ghost vals = pairs_map(tp);
    let Row { file, key, values } = row;
    let mut ms: Vec<(String, Json)> = Vec::new();
    let mut i: usize = 0;
    while i < values.len()
        invariant
            tp == text_pairs(values@),
            keys_distinct(tp),
            i <= values@.len(),
            forall|a: int, b: int| 0 <= a < b < ms@.len() ==> ms@[a].0@ != ms@[b].0@,
            forall|m: int|
                0 <= m < ms@.len() ==> !reserved(ms@[m].0@) && exists|j: int|
                    0 <= j < i && ms@[m].0@ == #[trigger] tp[j].0 && json_view(ms@[m].1)
                        == JsonV::Str(tp[j].1),
            forall|j: int|
                0 <= j < i && !reserved(tp[j].0) ==> exists|m: int|
                    0 <= m < ms@.len() && #[trigger] ms@[m].0@ == tp[j].0,
        decreases values@.len() - i,
    {
        let name = values[i].0.as_str();
        if !is_reserved(name) {
            let ghost ms0 = ms@;
            ms.push((values[i].0.clone(), Json::Str(values[i].1.clone())));
            proof {
                assert(tp[i as int] == (values@[i as int].0@, values@[i as int].1@));
                assert forall|a: int, b: int| 0 <= a < b < ms@.len() implies ms@[a].0@
                    != ms@[b].0@ by {
                    if b == ms@.len() - 1 {
                        let j = choose|j: int|
                            0 <= j < i && ms@[a].0@ == #[trigger] tp[j].0 && json_view(ms@[a].1)
                                == JsonV::Str(tp[j].1);
                        assert(ms@[a] == ms0[a]);
                    } else {
                        assert(ms@[a] == ms0[a] && ms@[b] == ms0[b]);
                    }
                }
                assert forall|m: int| 0 <= m < ms@.len() implies !reserved(ms@[m].0@) && exists|
                    j: int,
                |
                    0 <= j < i + 1 && ms@[m].0@ == #[trigger] tp[j].0 && json_view(ms@[m].1)
                        == JsonV::Str(tp[j].1) by {
                    if m == ms@.len() - 1 {
                        assert(ms@[m].0@ == tp[i as int].0);
                    } else {
                        assert(ms@[m] == ms0[m]);
                    }
                }
                assert forall|j: int| 0 <= j < i + 1 && !reserved(tp[j].0) implies exists|m: int|
                    0 <= m < ms@.len() && #[trigger] ms@[m].0@ == tp[j].0 by {
                    if j == i {
                        assert(ms@[ms@.len() - 1].0@ == tp[j].0);
                    } else {
                        let m = choose|m: int| 0 <= m < ms0.len() && #[trigger] ms0[m].0@ == tp[j].0;
                        assert(ms@[m] == ms0[m]);
                    }
                }
            }
        }
        i = i + 1;
    }
    let n = ms.len();
    let ghost ml = ms@;
    ms.push((String::from_str("BUNDLE"), Json::Str(String::from_str(bundle))));
    ms.push((String::from_str("FILE"), Json::Str(file)));
    ms.push((String::from_str("KEY"), Json::Str(key)));
    proof {
        lemma_members_view(ms@);
        lemma_pairs_map(tp);
        let mv = members_view(ms@);
        let d = JsonV::Object(mv);
        assert forall|m: int| 0 <= m < n implies #[trigger] mv[m] == (ml[m].0@, json_view(ml[m].1))
            by {
            assert(ms@[m] == ml[m]);
        }
        assert(mv[n as int].0 == "BUNDLE"@);
        assert(mv[n + 1].0 == "FILE"@);
        assert(mv[n + 2].0 == "KEY"@);
        assert(keys_distinct(mv)) by {
            assert forall|a: int, b: int| 0 <= a < b < mv.len() implies mv[a].0 != mv[b].0 by {
                reveal_strlit("BUNDLE");
                reveal_strlit("FILE");
                reveal_strlit("KEY");
                if b < n {
                    assert(mv[a].0 == ml[a].0@ && mv[b].0 == ml[b].0@);
                } else if a < n {
                    assert(mv[a].0 == ml[a].0@);
                    assert(!reserved(ml[a].0@));
                    assert(reserved(mv[b].0));
                } else {
                    assert("BUNDLE"@ != "FILE"@ && "BUNDLE"@ != "KEY"@ && "FILE"@ != "KEY"@);
                }
            }
        }
        assert forall|name: Seq<char>| #[trigger]
            d.member(name) == document_member(bundle@, file@, key@, vals, name) by {
            lemma_lookup_distinct(mv, name);
            if reserved(name) {
                if name == "BUNDLE"@ {
                    assert(mv[n as int].1 == JsonV::Str(bundle@));
                } else if name == "FILE"@ {
                    assert(mv[n + 1].1 == JsonV::Str(file@));
                } else {
                    assert(mv[n + 2].1 == JsonV::Str(key@));
                }
            } else if vals.contains_key(name) {
                let j = choose|j: int| 0 <= j < tp.len() && tp[j].0 == name;
                let m = choose|m: int| 0 <= m < n && #[trigger] ml[m].0@ == tp[j].0;
                let j2 = choose|j2: int|
                    0 <= j2 < values@.len() && ml[m].0@ == #[trigger] tp[j2].0 && json_view(ml[m].1)
                        == JsonV::Str(tp[j2].1);
                assert(j == j2);
                assert(mv[m] == (ml[m].0@, json_view(ml[m].1)));
                assert(vals[tp[j].0] == tp[j].1);
            } else {
                assert forall|m: int| 0 <= m < mv.len() implies mv[m].0 != name by {
                    if m < n {
                        let j = choose|j: int|
                            0 <= j < values@.len() && ml[m].0@ == #[trigger] tp[j].0 && json_view(
                                ml[m].1,
                            ) == JsonV::Str(tp[j].1);
                        assert(mv[m].0 == ml[m].0@);
                    }
                }
            }
        }
    }
    Json::Object(ms)
}

/// The documents of a bundle, handed out one row at a time.
pub struct LocalizedBundleIntoIter {
    filename: String,
    rows: Vec<Row>,
}

impl View for LocalizedBundleIntoIter {
    /// The bundle's path, and the rows not yet handed out.
    type V = (Seq<char>, Table);

    closed spec fn view(&self) -> (Seq<char>, Table) {
        (self.filename@, pairs_map(row_pairs(self.rows@)))
    }
}

impl LocalizedBundleIntoIter {
    pub closed spec fn wf(&self) -> bool {
        &&& keys_distinct(row_pairs(self.rows@))
        &&& forall|i: int|
            0 <= i < self.rows@.len() ==> keys_distinct(#[trigger] text_pairs(self.rows@[i].values@))
    }

    /// The document of one row not yet handed out, which is then gone;
    /// `None` once every row was handed out.
    pub fn next(&mut self) -> (r: Option<Json>)
        requires
            old(self).wf(),
        ensures
            final(self).wf(),
            final(self)@.0 == old(self)@.0,
            r is None <==> old(self)@.1.len() == 0,
            r is None ==> final(self)@ == old(self)@,
            r matches Some(d) ==> exists|f: Seq<char>, k: Seq<char>|
                #[trigger] old(self)@.1.contains_key((f, k)) && is_document(
                    d@,
                    old(self)@.0,
                    f,
                    k,
                    old(self)@.1[(f, k)],
                ) && final(self)@.1 == old(self)@.1.remove((f, k)),
    {
        let ghost rows0 = self.rows@;
        proof {
            lemma_pairs_map(row_pairs(rows0));
        }
        match self.rows.pop() {
            None => None,
            Some(row) => {
                proof {
                    let rp = row_pairs(rows0);
                    let last = rp.len() - 1;
                    assert(rp[last] == ((row.file@, row.key@), pairs_map(text_pairs(row.values@))));
                    assert(row_pairs(self.rows@) =~= rp.subrange(0, last));
                    assert(keys_distinct(text_pairs(rows0[last].values@)));
                    lemma_pairs_map(rp.subrange(0, last));
                    assert(!pairs_map(rp.subrange(0, last)).contains_key(rp[last].0)) by {
                        if pairs_map(rp.subrange(0, last)).contains_key(rp[last].0) {
                            let i = choose|i: int|
                                0 <= i < last && rp.subrange(0, last)[i].0 == rp[last].0;
                            assert(rp.subrange(0, last)[i] == rp[i]);
                        }
                    }
                    assert(pairs_map(rp).remove(rp[last].0) =~= pairs_map(rp.subrange(0, last)));
                    assert(keys_distinct(row_pairs(self.rows@)));
                    assert forall|i: int| 0 <= i < self.rows@.len() implies keys_distinct(
                        #[trigger] text_pairs(self.rows@[i].values@),
                    ) by {
                        assert(self.rows@[i] == rows0[i]);
                    }
                }
                let ghost f = row.file@;
                let ghost k = row.key@;
                let d = row_document(self.filename.as_str(), row);
                proof {
                    let rp = row_pairs(rows0);
                    let last = rp.len() - 1;
                    assert(rp[last].0 == (f, k));
                    assert(old(self)@.1.contains_key((f, k)));
                    assert(old(self)@.1[(f, k)] == rp[last].1);
                }
                Some(d)
            },
        }
    }
}

impl LocalizedBundle {
    /// Hands out the documents of this bundle, whose path is `filename`.
    pub fn into_iter(self, filename: &str) -> (r: LocalizedBundleIntoIter)
        requires
            self.wf(),
        ensures
            r.wf(),
            r@ == (filename@, self@),
    {
        LocalizedBundleIntoIter { filename: String::from_str(filename), rows: self.rows }
    }
}

} // verus!
