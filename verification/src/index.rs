use vstd::prelude::*;
use std::collections::HashMap;
use std::sync::Arc;
use crate::digest::{lzma_decoded, lzma_decompress_bytes};
use crate::num::{decimal, parse_unsigned, parse_unsigned_spec, push_decimal};
use crate::text::{chars_of, push_str, str_eq};
use crate::xml::{events_view, read_xml_events, xml_events_of, XmlEvent, XmlEventView, XmlKind};

verus! {

broadcast use {vstd::string::group_string_axioms, vstd::std_specs::hash::group_hash_axioms};

// ---------------------------------------------------------------------------
// The package index (index.xml) of the game's CDN
// ---------------------------------------------------------------------------

/// One file of a package: where it goes (`path`, whose first component is the package's own
/// directory, and `file`), its size, its compressed size when it is stored compressed, its MD5
/// (base64) when the index gives one, and where its bytes start in the package's sections.
#[derive(Debug)]
pub struct IndexFileEntry {
    pub path: String,
    pub file: String,
    pub length: u64,
    pub compressed: Option<u64>,
    pub hash: Option<String>,
    pub section: u32,
    pub offset: u64,
}

/// The header of a package index; `firstcab` is the size of a section.
#[derive(Debug, Clone, Copy)]
pub struct IndexHeader {
    pub total_length: u64,
    pub total_compressed: u64,
    pub firstcab: u64,
    pub lastcab: u64,
}

/// A file entry as mathematical values.
pub struct EntryView {
    pub path: Seq<char>,
    pub file: Seq<char>,
    pub length: u64,
    pub compressed: Option<u64>,
    pub hash: Option<Seq<char>>,
    pub section: u32,
    pub offset: u64,
}

impl View for IndexFileEntry {
    type V = EntryView;

    open spec fn view(&self) -> EntryView {
        EntryView {
            path: self.path@,
            file: self.file@,
            length: self.length,
            compressed: self.compressed,
            hash: match self.hash {
                Some(h) => Some(h@),
                None => None,
            },
            section: self.section,
            offset: self.offset,
        }
    }
}

pub open spec fn entries_view(v: Seq<IndexFileEntry>) -> Seq<EntryView> {
    v.map_values(|e: IndexFileEntry| e@)
}

impl IndexFileEntry {
    pub fn clone_entry(&self) -> (r: IndexFileEntry)
        ensures
            r@ == self@,
    {
        IndexFileEntry {
            path: self.path.clone(),
            file: self.file.clone(),
            length: self.length,
            compressed: self.compressed,
            hash: match &self.hash {
                Some(h) => Some(h.clone()),
                None => None,
            },
            section: self.section,
            offset: self.offset,
        }
    }
}

/// A header before the index says anything.
pub open spec fn initial_header() -> IndexHeader {
    IndexHeader { total_length: 0, total_compressed: 0, firstcab: 1048576, lastcab: 0 }
}

/// An entry before its elements say anything.
pub open spec fn blank_entry() -> EntryView {
    EntryView {
        path: Seq::empty(),
        file: Seq::empty(),
        length: 0,
        compressed: None,
        hash: None,
        section: 0,
        offset: 0,
    }
}

/// `text.parse::<u64>().unwrap_or(default)`.
pub open spec fn u64_or(text: Seq<char>, default: u64) -> u64 {
    match parse_unsigned_spec(text, u64::MAX as int) {
        Some(v) => v as u64,
        None => default,
    }
}

/// `text.parse::<u32>().unwrap_or(default)`.
pub open spec fn u32_or(text: Seq<char>, default: u32) -> u32 {
    match parse_unsigned_spec(text, u32::MAX as int) {
        Some(v) => v as u32,
        None => default,
    }
}

/// The header with the text of its element `tag` read in.
pub open spec fn header_text(h: IndexHeader, tag: Seq<char>, t: Seq<char>) -> IndexHeader {
    if tag == "length"@ {
        IndexHeader { total_length: u64_or(t, 0), ..h }
    } else if tag == "compressed"@ {
        IndexHeader { total_compressed: u64_or(t, 0), ..h }
    } else if tag == "firstcab"@ {
        IndexHeader { firstcab: u64_or(t, 1048576), ..h }
    } else if tag == "lastcab"@ {
        IndexHeader { lastcab: u64_or(t, 0), ..h }
    } else {
        h
    }
}

/// The entry with the text of its element `tag` read in.
pub open spec fn entry_text(e: EntryView, tag: Seq<char>, t: Seq<char>) -> EntryView {
    if tag == "path"@ {
        EntryView { path: t, ..e }
    } else if tag == "file"@ {
        EntryView { file: t, ..e }
    } else if tag == "length"@ {
        EntryView { length: u64_or(t, 0), ..e }
    } else if tag == "compressed"@ {
        EntryView { compressed: Some(u64_or(t, 0)), ..e }
    } else if tag == "hash"@ {
        EntryView { hash: Some(t), ..e }
    } else if tag == "section"@ {
        EntryView { section: u32_or(t, 0), ..e }
    } else if tag == "offset"@ {
        EntryView { offset: u64_or(t, 0), ..e }
    } else {
        e
    }
}

/// What reading the index keeps between events.
pub struct IndexState {
    pub header: IndexHeader,
    pub entries: Seq<EntryView>,
    pub current: Option<EntryView>,
    pub tag: Seq<char>,
    pub in_header: bool,
}

pub open spec fn index_step(st: IndexState, ev: XmlEventView) -> Result<IndexState, Seq<char>> {
    match ev.kind {
        XmlKind::Start => Ok(
            if ev.name == "header"@ {
                IndexState { tag: ev.name, in_header: true, ..st }
            } else if ev.name == "fileinfo"@ {
                IndexState { tag: ev.name, current: Some(blank_entry()), ..st }
            } else {
                IndexState { tag: ev.name, ..st }
            },
        ),
        XmlKind::End => Ok(
            if ev.name == "header"@ {
                IndexState { tag: Seq::empty(), in_header: false, ..st }
            } else if ev.name == "fileinfo"@ {
                IndexState {
                    tag: Seq::empty(),
                    entries: match st.current {
                        Some(c) => st.entries.push(c),
                        None => st.entries,
                    },
                    current: None,
                    ..st
                }
            } else {
                IndexState { tag: Seq::empty(), ..st }
            },
        ),
        XmlKind::Text => match ev.text {
            Err(e) => Err(e),
            Ok(t) => if st.in_header {
                Ok(IndexState { header: header_text(st.header, st.tag, t), ..st })
            } else {
                match st.current {
                    Some(c) => Ok(IndexState { current: Some(entry_text(c, st.tag, t)), ..st }),
                    None => Ok(st),
                }
            },
        },
        _ => Ok(st),
    }
}

/// The index read from the events in order: the first failure to unescape a text, or the state.
pub open spec fn index_all(evs: Seq<XmlEventView>) -> Result<IndexState, Seq<char>>
    decreases evs.len(),
{
    if evs.len() == 0 {
        Ok(
            IndexState {
                header: initial_header(),
                entries: Seq::empty(),
                current: None,
                tag: Seq::empty(),
                in_header: false,
            },
        )
    } else {
        match index_all(evs.drop_last()) {
            Err(e) => Err(e),
            Ok(st) => index_step(st, evs.last()),
        }
    }
}

fn u64_or_exec(text: &str, default: u64) -> (r: u64)
    ensures
        r == u64_or(text@, default),
{
    let cs = chars_of(text);
    match parse_unsigned(cs.as_slice(), u64::MAX) {
        Some(v) => v,
        None => default,
    }
}

fn u32_or_exec(text: &str, default: u32) -> (r: u32)
    ensures
        r == u32_or(text@, default),
{
    let cs = chars_of(text);
    match parse_unsigned(cs.as_slice(), 4294967295) {
        Some(v) => v as u32,
        None => default,
    }
}

fn read_header_text(h: &mut IndexHeader, tag: &str, t: &str)
    ensures
        *final(h) == header_text(*old(h), tag@, t@),
{
    if str_eq(tag, "length") {
        h.total_length = u64_or_exec(t, 0);
    } else if str_eq(tag, "compressed") {
        h.total_compressed = u64_or_exec(t, 0);
    } else if str_eq(tag, "firstcab") {
        h.firstcab = u64_or_exec(t, 1048576);
    } else if str_eq(tag, "lastcab") {
        h.lastcab = u64_or_exec(t, 0);
    }
}

fn read_entry_text(e: &mut IndexFileEntry, tag: &str, t: &str)
    ensures
        final(e)@ == entry_text(old(e)@, tag@, t@),
{
    if str_eq(tag, "path") {
        e.path = t.to_owned();
    } else if str_eq(tag, "file") {
        e.file = t.to_owned();
    } else if str_eq(tag, "length") {
        e.length = u64_or_exec(t, 0);
    } else if str_eq(tag, "compressed") {
        e.compressed = Some(u64_or_exec(t, 0));
    } else if str_eq(tag, "hash") {
        e.hash = Some(t.to_owned());
    } else if str_eq(tag, "section") {
        e.section = u32_or_exec(t, 0);
    } else if str_eq(tag, "offset") {
        e.offset = u64_or_exec(t, 0);
    }
}

proof fn lemma_entries_push(v: Seq<IndexFileEntry>, x: IndexFileEntry)
    ensures
        entries_view(v.push(x)) == entries_view(v).push(x@),
{
    assert(entries_view(v.push(x)) =~= entries_view(v).push(x@));
}

/// The header and file entries that the events of an index give: each `fileinfo` element
/// closed is an entry, in order; the text of the header's and of an entry's elements is read
/// into them. Fails with the text of the first failure to unescape a text, else, where reading
/// the document stopped on an error, with `XML parse error: ` and that error.
pub fn index_from_events(events: &Vec<XmlEvent>, read_error: Option<String>) -> (r: Result<
    (IndexHeader, Vec<IndexFileEntry>),
    String,
>)
    ensures
        match index_all(events_view(events@)) {
            Err(e) => r matches Err(m) && m@ == e,
            Ok(st) => match read_error {
                Some(e) => r matches Err(m) && m@ == "XML parse error: "@ + e@,
                None => r matches Ok(p) && p.0 == st.header && entries_view(p.1@) == st.entries,
            },
        },
{
    let ghost evs = events_view(events@);
    let mut header = IndexHeader { total_length: 0, total_compressed: 0, firstcab: 1048576, lastcab: 0 };
    let mut entries: Vec<IndexFileEntry> = Vec::new();
    let mut current: Option<IndexFileEntry> = None;
    let mut tag = String::new();
    let mut in_header = false;
    let mut i: usize = 0;
    assert(entries_view(entries@) =~= Seq::<EntryView>::empty());
    while i < events.len()
        invariant
            i <= events@.len(),
            evs == events_view(events@),
            index_all(evs.take(i as int)) matches Ok(st) && st.header == header
                && st.entries == entries_view(entries@) && st.tag == tag@ && st.in_header
                == in_header && st.current == (match current {
                Some(c) => Some(c@),
                None => None::<EntryView>,
            }),
        decreases events@.len() - i,
    {
        let ev = &events[i];
        proof {
            assert(evs.take(i + 1).drop_last() == evs.take(i as int));
            assert(evs[i as int] == ev@);
        }
        match ev.kind {
            XmlKind::Start => {
                tag = ev.name.clone();
                if str_eq(ev.name.as_str(), "header") {
                    in_header = true;
                } else if str_eq(ev.name.as_str(), "fileinfo") {
                    current = Some(
                        IndexFileEntry {
                            path: String::new(),
                            file: String::new(),
                            length: 0,
                            compressed: None,
                            hash: None,
                            section: 0,
                            offset: 0,
                        },
                    );
                }
            },
            XmlKind::End => {
                if str_eq(ev.name.as_str(), "header") {
                    in_header = false;
                } else if str_eq(ev.name.as_str(), "fileinfo") {
                    match current.take() {
                        Some(c) => {
                            proof {
                                lemma_entries_push(entries@, c);
                            }
                            entries.push(c);
                        },
                        None => {},
                    }
                }
                tag = String::new();
            },
            XmlKind::Text => {
                match &ev.text {
                    Err(e) => {
                        proof {
                            lemma_index_error_stays(evs, i as int + 1);
                        }
                        return Err(e.clone());
                    },
                    Ok(t) => {
                        if in_header {
                            read_header_text(&mut header, tag.as_str(), t.as_str());
                        } else {
                            match current.take() {
                                Some(mut c) => {
                                    read_entry_text(&mut c, tag.as_str(), t.as_str());
                                    current = Some(c);
                                },
                                None => {},
                            }
                        }
                    },
                }
            },
            _ => {},
        }
        i = i + 1;
    }
    assert(evs.take(events@.len() as int) == evs);
    match read_error {
        Some(e) => {
            let mut m = "XML parse error: ".to_owned();
            push_str(&mut m, e.as_str());
            Err(m)
        },
        None => Ok((header, entries)),
    }
}

/// Once reading the index has failed, it stays failed with the same text.
proof fn lemma_index_error_stays(evs: Seq<XmlEventView>, k: int)
    requires
        0 <= k <= evs.len(),
        index_all(evs.take(k)) is Err,
    ensures
        index_all(evs) == index_all(evs.take(k)),
    decreases evs.len() - k,
{
    if k < evs.len() {
        assert(evs.take(k + 1).drop_last() == evs.take(k));
        lemma_index_error_stays(evs, k + 1);
    } else {
        assert(evs.take(k) == evs);
    }
}

/// What reading an index gives for the events `evs` that were read, and the error that stopped
/// the reading, if one did: the first failure to unescape a text, else `XML parse error: ` and
/// the reading's error, else the header and the entries.
pub open spec fn index_outcome(evs: Seq<XmlEventView>, read_error: Option<Seq<char>>) -> Result<
    (IndexHeader, Seq<EntryView>),
    Seq<char>,
> {
    match index_all(evs) {
        Err(e) => Err(e),
        Ok(st) => match read_error {
            Some(e) => Err("XML parse error: "@ + e),
            None => Ok((st.header, st.entries)),
        },
    }
}

/// `parse_index_xml`: the header and file entries of the package index `xml`, as
/// [`index_outcome`] gives them for the events quick_xml reads from it and the error, if any,
/// that stops the reading.
pub fn parse_index_xml(xml: &str) -> (r: Result<(IndexHeader, Vec<IndexFileEntry>), String>)
    ensures
        match index_outcome(xml_events_of(xml@).0, xml_events_of(xml@).1) {
            Ok(p) => r matches Ok(q) && q.0 == p.0 && entries_view(q.1@) == p.1,
            Err(m) => r matches Err(t) && t@ == m,
        },
{
    let (events, err) = read_xml_events(xml);
    let r = index_from_events(&events, err);
    r
}

// ---------------------------------------------------------------------------
// Sections and the bytes of a file
// ---------------------------------------------------------------------------

/// Whether `data` starts as an LZMA stream does (`0x5D 0x00`).
pub open spec fn lzma_header(data: Seq<u8>) -> bool {
    data.len() >= 2 && data[0] == 0x5Du8 && data[1] == 0x00u8
}

pub fn is_lzma(data: &[u8]) -> (r: bool)
    ensures
        r == lzma_header(data@),
{
    data.len() >= 2 && data[0] == 0x5D && data[1] == 0x00
}

/// How many bytes of the sections an entry takes: its compressed size, or its size.
pub open spec fn stored_size(e: EntryView) -> u64 {
    match e.compressed {
        Some(c) => c,
        None => e.length,
    }
}

/// `a.saturating_sub(b)`.
pub open spec fn sat_sub(a: u64, b: u64) -> u64 {
    if a >= b {
        (a - b) as u64
    } else {
        0
    }
}

/// Whether the entry's bytes fit in the rest of its first section.
pub open spec fn fits_first(e: EntryView, cab: u64) -> bool {
    stored_size(e) <= sat_sub(cab, e.offset)
}

/// How many sections after the first the entry's bytes run into (truncated to 32 bits).
pub open spec fn extra_sections(e: EntryView, cab: u64) -> u32 {
    let extra = stored_size(e) - sat_sub(cab, e.offset);
    ((extra + cab - 1) / (cab as int)) as u32
}

/// The entries for which `file_sections` computes without overflow or division by zero.
pub open spec fn sections_computable(e: EntryView, cab: u64) -> bool {
    fits_first(e, cab) || (cab > 0 && stored_size(e) - sat_sub(cab, e.offset) + cab
        <= u64::MAX && e.section + extra_sections(e, cab) <= u32::MAX)
}

/// Whether `file_sections` can compute the entry's sections for sections of `cab_size` bytes.
pub fn entry_sections_computable(entry: &IndexFileEntry, cab_size: u64) -> (r: bool)
    ensures
        r == sections_computable(entry@, cab_size),
{
    let size = match entry.compressed {
        Some(c) => c,
        None => entry.length,
    };
    let space = if cab_size >= entry.offset {
        cab_size - entry.offset
    } else {
        0
    };
    if size <= space {
        return true;
    }
    if cab_size == 0 {
        return false;
    }
    let extra = size - space;
    if extra > u64::MAX - cab_size {
        return false;
    }
    let additional = ((extra + cab_size - 1) / cab_size) as u32;
    (entry.section as u64) + (additional as u64) <= 4294967295
}

/// The sections that hold the entry's bytes: its own and the following ones that the rest of
/// its bytes run into.
pub open spec fn sections_of(e: EntryView, cab: u64) -> Seq<u32> {
    if fits_first(e, cab) {
        seq![e.section]
    } else {
        Seq::new((extra_sections(e, cab) + 1) as nat, |i: int| (e.section + i) as u32)
    }
}

/// `file_sections`: the sections that hold the entry's bytes, in order, for sections of
/// `cab_size` bytes.
pub fn file_sections(entry: &IndexFileEntry, cab_size: u64) -> (r: Vec<u32>)
    requires
        sections_computable(entry@, cab_size),
    ensures
        r@ == sections_of(entry@, cab_size),
{
    let size = match entry.compressed {
        Some(c) => c,
        None => entry.length,
    };
    let space_in_first = if cab_size >= entry.offset {
        cab_size - entry.offset
    } else {
        0
    };
    if size <= space_in_first {
        return vec![entry.section];
    }
    let extra = size - space_in_first;
    assert(extra == stored_size(entry@) - sat_sub(cab_size, entry.offset));
    let additional = ((extra + cab_size - 1) / cab_size) as u32;
    let mut r: Vec<u32> = Vec::new();
    let mut k: u64 = 0;
    while k <= additional as u64
        invariant
            k <= additional as u64 + 1,
            additional == extra_sections(entry@, cab_size),
            entry.section + additional <= u32::MAX,
            r@ == Seq::new(k as nat, |i: int| (entry.section + i) as u32),
        decreases additional as u64 + 1 - k,
    {
        r.push((entry.section as u64 + k) as u32);
        assert(r@ =~= Seq::new((k + 1) as nat, |i: int| (entry.section + i) as u32));
        k = k + 1;
    }
    r
}

/// Whether `v` is strictly increasing.
pub open spec fn strictly_increasing(v: Seq<u32>) -> bool {
    forall|i: int, j: int| 0 <= i < j < v.len() ==> v[i] < v[j]
}

/// Adds `x` to a strictly increasing vector, keeping it so (a set in ascending order).
fn insert_sorted(v: &mut Vec<u32>, x: u32)
    requires
        strictly_increasing(old(v)@),
    ensures
        strictly_increasing(final(v)@),
        forall|y: u32| final(v)@.contains(y) <==> (old(v)@.contains(y) || y == x),
{
    let mut i: usize = v.len();
    while i > 0 && v[i - 1] > x
        invariant
            i <= v@.len(),
            v@ == old(v)@,
            strictly_increasing(v@),
            forall|j: int| i <= j < v@.len() ==> v@[j] > x,
        decreases i,
    {
        i = i - 1;
    }
    if i > 0 && v[i - 1] == x {
        return;
    }
    proof {
        assert forall|j: int| 0 <= j < i implies v@[j] < x by {
            if j < i - 1 {
                assert(v@[j] < v@[i - 1]);
            }
        }
    }
    v.insert(i, x);
    proof {
        assert forall|y: u32| final(v)@.contains(y) <==> (old(v)@.contains(y) || y == x) by {
            if old(v)@.contains(y) {
                let k = choose|k: int| 0 <= k < old(v)@.len() && #[trigger] old(v)@[k] == y;
                if k < i {
                    assert(final(v)@[k] == y);
                } else {
                    assert(final(v)@[k + 1] == y);
                }
            }
            if final(v)@.contains(y) {
                let k = choose|k: int| 0 <= k < final(v)@.len() && #[trigger] final(v)@[k] == y;
                if k < i {
                    assert(old(v)@[k] == y);
                } else if k > i {
                    assert(old(v)@[k - 1] == y);
                }
            }
            if y == x {
                assert(final(v)@[i as int] == x);
            }
        }
    }
}

proof fn lemma_take_next_contains(v: Seq<u32>, j: int)
    requires
        0 <= j < v.len(),
    ensures
        forall|x: u32| #[trigger] v.take(j + 1).contains(x) <==> (v.take(j).contains(x) || x == v[j]),
{
    assert forall|x: u32| #[trigger] v.take(j + 1).contains(x) <==> (v.take(j).contains(x) || x == v[j]) by {
        if v.take(j + 1).contains(x) {
            let q = choose|q: int| 0 <= q < j + 1 && #[trigger] v.take(j + 1)[q] == x;
            if q < j {
                assert(v.take(j)[q] == x);
            }
        }
        if v.take(j).contains(x) {
            let q = choose|q: int| 0 <= q < j && #[trigger] v.take(j)[q] == x;
            assert(v.take(j + 1)[q] == x);
        }
        if x == v[j] {
            assert(v.take(j + 1)[j] == x);
        }
    }
}

/// Whether section `s` holds bytes of one of the entries.
pub open spec fn needed_by(files: Seq<EntryView>, cab: u64, s: u32) -> bool {
    exists|k: int| 0 <= k < files.len() && #[trigger] sections_of(files[k], cab).contains(s)
}

/// The sections that the entries' bytes are in, each once, in ascending order (the set the
/// downloads are planned from).
pub fn needed_sections(files: &Vec<IndexFileEntry>, cab_size: u64) -> (r: Vec<u32>)
    requires
        forall|k: int| 0 <= k < files@.len() ==> sections_computable(#[trigger] files@[k]@, cab_size),
    ensures
        strictly_increasing(r@),
        forall|s: u32| r@.contains(s) <==> needed_by(entries_view(files@), cab_size, s),
{
    let ghost fv = entries_view(files@);
    let mut r: Vec<u32> = Vec::new();
    let mut k: usize = 0;
    while k < files.len()
        invariant
            k <= files@.len(),
            fv == entries_view(files@),
            forall|k: int| 0 <= k < files@.len() ==> sections_computable(#[trigger] files@[k]@, cab_size),
            strictly_increasing(r@),
            forall|s: u32| r@.contains(s) <==> needed_by(fv.take(k as int), cab_size, s),
        decreases files@.len() - k,
    {
        let secs = file_sections(&files[k], cab_size);
        let mut j: usize = 0;
        let ghost before = r@;
        assert(forall|s: u32| before.contains(s) <==> needed_by(fv.take(k as int), cab_size, s));
        assert(secs@.take(0) =~= Seq::<u32>::empty());
        while j < secs.len()
            invariant
                j <= secs@.len(),
                strictly_increasing(r@),
                forall|s: u32| r@.contains(s) <==> (before.contains(s) || secs@.take(j as int).contains(s)),
            decreases secs@.len() - j,
        {
            let ghost r_old = r@;
            assert(forall|s: u32| r_old.contains(s) <==> (before.contains(s) || secs@.take(j as int).contains(s)));
            insert_sorted(&mut r, secs[j]);
            proof {
                lemma_take_next_contains(secs@, j as int);
                assert forall|s: u32| r@.contains(s) <==> (before.contains(s) || secs@.take(j + 1).contains(s)) by {
                    assert(r@.contains(s) <==> (r_old.contains(s) || s == secs@[j as int]));
                    assert(r_old.contains(s) <==> (before.contains(s) || secs@.take(j as int).contains(s)));
                    assert(secs@.take(j + 1).contains(s) <==> (secs@.take(j as int).contains(s) || s == secs@[j as int]));
                }
            }
            j = j + 1;
        }
        proof {
            assert(secs@.take(secs@.len() as int) == secs@);
            assert(fv[k as int] == files@[k as int]@);
            assert forall|s: u32| r@.contains(s) <==> needed_by(fv.take(k + 1), cab_size, s) by {
                assert(r@.contains(s) <==> (before.contains(s) || secs@.contains(s)));
                assert(before.contains(s) <==> needed_by(fv.take(k as int), cab_size, s));
                assert(secs@ == sections_of(fv.take(k + 1)[k as int], cab_size));
                if needed_by(fv.take(k + 1), cab_size, s) {
                    let q = choose|q: int| 0 <= q < fv.take(k + 1).len() && #[trigger] sections_of(fv.take(k + 1)[q], cab_size).contains(s);
                    if q < k {
                        assert(fv.take(k as int)[q] == fv.take(k + 1)[q]);
                        assert(needed_by(fv.take(k as int), cab_size, s));
                    }
                }
                if needed_by(fv.take(k as int), cab_size, s) {
                    let q = choose|q: int| 0 <= q < fv.take(k as int).len() && #[trigger] sections_of(fv.take(k as int)[q], cab_size).contains(s);
                    assert(fv.take(k + 1)[q] == fv.take(k as int)[q]);
                    assert(needed_by(fv.take(k + 1), cab_size, s));
                }
                if secs@.contains(s) {
                    assert(needed_by(fv.take(k + 1), cab_size, s));
                }
            }
        }
        k = k + 1;
    }
    assert(fv.take(files@.len() as int) == fv);
    r
}

/// The error for a section that was not downloaded.
pub open spec fn missing_section_text(sec: u32) -> Seq<char> {
    "Missing section"@ + decimal(sec as nat) + ".dat"@
}

/// The error for a section that ends before the bytes looked for.
pub open spec fn no_data_text(sec: u32, off: nat, len: nat) -> Seq<char> {
    "No data in section"@ + decimal(sec as nat) + ".dat at offset "@ + decimal(off) + " (len="@
        + decimal(len) + ")"@
}

/// The next section number (wrapping past the largest).
pub open spec fn next_section(sec: u32) -> u32 {
    if sec == u32::MAX {
        0
    } else {
        (sec + 1) as u32
    }
}

/// `remaining` bytes read from section `sec` at `off` and then on from the start of the
/// following sections, or the error for the first section that is missing or has no bytes left.
pub open spec fn extract_from(m: Map<u32, Arc<Vec<u8>>>, sec: u32, off: nat, remaining: nat) -> Result<
    Seq<u8>,
    Seq<char>,
>
    decreases remaining,
{
    if remaining == 0 {
        Ok(Seq::empty())
    } else if !m.contains_key(sec) {
        Err(missing_section_text(sec))
    } else {
        let data = m[sec]@;
        let avail: nat = if data.len() > off {
            (data.len() - off) as nat
        } else {
            0
        };
        if avail == 0 {
            Err(no_data_text(sec, off, data.len()))
        } else {
            let take: nat = if remaining < avail {
                remaining
            } else {
                avail
            };
            match extract_from(m, next_section(sec), 0, (remaining - take) as nat) {
                Ok(rest) => Ok(data.subrange(off as int, (off + take) as int) + rest),
                Err(e) => Err(e),
            }
        }
    }
}

/// The bytes of an entry as they are stored in the downloaded sections.
pub open spec fn stored_bytes(e: EntryView, m: Map<u32, Arc<Vec<u8>>>) -> Result<Seq<u8>, Seq<char>> {
    extract_from(m, e.section, e.offset as nat, stored_size(e) as nat)
}

fn missing_section_message(sec: u32) -> (r: String)
    ensures
        r@ == missing_section_text(sec),
{
    let mut r = "Missing section".to_owned();
    push_decimal(&mut r, sec as u64);
    push_str(&mut r, ".dat");
    r
}

fn no_data_message(sec: u32, off: usize, len: usize) -> (r: String)
    ensures
        r@ == no_data_text(sec, off as nat, len as nat),
{
    let mut r = "No data in section".to_owned();
    push_decimal(&mut r, sec as u64);
    push_str(&mut r, ".dat at offset ");
    push_decimal(&mut r, off as u64);
    push_str(&mut r, " (len=");
    push_decimal(&mut r, len as u64);
    push_str(&mut r, ")");
    assert(r@ =~= no_data_text(sec, off as nat, len as nat));
    r
}

/// `extract_raw_arc`: the stored bytes of an entry, read from the downloaded sections.
pub fn extract_raw_arc(entry: &IndexFileEntry, sections: &HashMap<u32, Arc<Vec<u8>>>) -> (r: Result<
    Vec<u8>,
    String,
>)
    requires
        stored_size(entry@) <= usize::MAX,
        entry.offset <= usize::MAX,
    ensures
        match stored_bytes(entry@, sections@) {
            Ok(b) => r matches Ok(v) && v@ == b,
            Err(e) => r matches Err(m) && m@ == e,
        },
{
    let total = match entry.compressed {
        Some(c) => c,
        None => entry.length,
    } as usize;
    let mut buf: Vec<u8> = Vec::new();
    let mut remaining = total;
    let mut sec = entry.section;
    let mut off = entry.offset as usize;
    assert(buf@ + Seq::<u8>::empty() == buf@);
    while remaining > 0
        invariant
            stored_bytes(entry@, sections@) == (match extract_from(sections@, sec, off as nat, remaining as nat) {
                Ok(rest) => Ok(buf@ + rest),
                Err(e) => Err(e),
            }),
        decreases remaining,
    {
        let data: &Arc<Vec<u8>> = match sections.get(&sec) {
            Some(d) => d,
            None => {
                return Err(missing_section_message(sec));
            },
        };
        let d: &Vec<u8> = &**data;
        let avail = if d.len() > off {
            d.len() - off
        } else {
            0
        };
        if avail == 0 {
            return Err(no_data_message(sec, off, d.len()));
        }
        let take = if remaining < avail {
            remaining
        } else {
            avail
        };
        let ghost before = buf@;
        buf.extend_from_slice(&d[off..off + take]);
        assert(buf@ =~= before + d@.subrange(off as int, off + take));
        proof {
            let piece = d@.subrange(off as int, off + take);
            match extract_from(sections@, next_section(sec), 0, (remaining - take) as nat) {
                Ok(rest) => {
                    assert(before + (piece + rest) =~= buf@ + rest);
                },
                Err(e) => {},
            }
        }
        remaining = remaining - take;
        sec = sec.wrapping_add(1);
        off = 0;
    }
    Ok(buf)
}

// ---------------------------------------------------------------------------
// What the sections of an entry promise
// ---------------------------------------------------------------------------

/// The sections listed for an entry hold all its bytes: the rest of its first section and the
/// whole of the following ones are at least its stored size (where the count of following
/// sections fits in 32 bits).
pub proof fn law_sections_cover_entry(e: EntryView, cab: u64)
    requires
        sections_computable(e, cab),
        fits_first(e, cab) || (stored_size(e) - sat_sub(cab, e.offset) + cab - 1) / (cab as int)
            <= u32::MAX,
    ensures
        sat_sub(cab, e.offset) + (sections_of(e, cab).len() - 1) * cab >= stored_size(e),
{
    if !fits_first(e, cab) {
        let extra: int = stored_size(e) - sat_sub(cab, e.offset);
        let q: int = (extra + cab - 1) / (cab as int);
        assert(extra_sections(e, cab) == q);
        assert(sections_of(e, cab).len() - 1 == q);
        assert(q * cab >= extra) by (nonlinear_arith)
            requires
                cab > 0,
                extra > 0,
                q == (extra + cab - 1) / (cab as int),
        ;
    }
}

proof fn lemma_extract_length(m: Map<u32, Arc<Vec<u8>>>, sec: u32, off: nat, remaining: nat)
    ensures
        extract_from(m, sec, off, remaining) matches Ok(b) ==> b.len() == remaining,
    decreases remaining,
{
    if remaining > 0 && m.contains_key(sec) {
        let data = m[sec]@;
        let avail: nat = if data.len() > off {
            (data.len() - off) as nat
        } else {
            0
        };
        if avail > 0 {
            let take: nat = if remaining < avail {
                remaining
            } else {
                avail
            };
            lemma_extract_length(m, next_section(sec), 0, (remaining - take) as nat);
        }
    }
}

/// What is read for an entry from the sections is exactly as long as its stored size.
pub proof fn law_extract_length(e: EntryView, m: Map<u32, Arc<Vec<u8>>>)
    ensures
        stored_bytes(e, m) matches Ok(b) ==> b.len() == stored_size(e),
{
    lemma_extract_length(m, e.section, e.offset as nat, stored_size(e) as nat);
}

} // verus!
