use vstd::prelude::*;
use std::collections::HashMap;
use std::sync::Arc;
use crate::digest::{lzma_decoded, lzma_decompress_bytes};
use crate::index::{
    entries_view, extract_raw_arc, file_sections, is_lzma, lzma_header, sections_computable,
    sections_of, stored_bytes, stored_size, EntryView, IndexFileEntry,
};
use crate::num::{decimal, push_decimal};
use crate::text::{
    chars_of, find_chars, find_from, join_seq, join_strings, push_str, slice_to_vec, string_of,
    trim_end_char_str, views_of,
};

verus! {

broadcast use {vstd::string::group_string_axioms, vstd::std_specs::hash::group_hash_axioms};

// ---------------------------------------------------------------------------
// Installing the game from its CDN packages
// ---------------------------------------------------------------------------

/// `path` without its first component: what follows the first `/`, or nothing.
pub open spec fn strip_first(path: Seq<char>) -> Seq<char> {
    match find_from(path, seq!['/'], 0) {
        Some(i) => path.subrange(i + 1, path.len() as int),
        None => Seq::empty(),
    }
}

/// `strip_first_component`: an entry's directory inside the game's directory (its path
/// without the package's own directory).
pub fn strip_first_component(path: &str) -> (r: String)
    ensures
        r@ == strip_first(path@),
{
    let cs = chars_of(path);
    let slash = vec!['/'];
    assert(slash@ == seq!['/']);
    match find_chars(cs.as_slice(), slash.as_slice(), 0) {
        Some(i) => {
            proof {
                crate::text::lemma_find_from(cs@, seq!['/'], 0);
                assert(crate::text::matches_at(cs@, seq!['/'], i as int));
                assert(seq!['/'].len() == 1);
            }
            let n = cs.len();
            assert(i + 1 <= n);
            let rest = slice_to_vec(cs.as_slice(), i + 1, n);
            string_of(rest.as_slice())
        },
        None => String::new(),
    }
}

/// The content of an entry's file: its stored bytes, LZMA-decoded where they start as an LZMA
/// stream and decode (kept as stored where decoding fails).
pub open spec fn entry_content(e: EntryView, m: Map<u32, Arc<Vec<u8>>>) -> Result<Seq<u8>, Seq<char>> {
    match stored_bytes(e, m) {
        Ok(b) => Ok(
            if lzma_header(b) {
                match lzma_decoded(b) {
                    Some(d) => d,
                    None => b,
                }
            } else {
                b
            },
        ),
        Err(e) => Err(e),
    }
}

/// The content of an entry's file, read from the downloaded sections.
pub fn extract_entry(entry: &IndexFileEntry, sections: &HashMap<u32, Arc<Vec<u8>>>) -> (r: Result<
    Vec<u8>,
    String,
>)
    requires
        stored_size(entry@) <= usize::MAX,
        entry.offset <= usize::MAX,
    ensures
        match entry_content(entry@, sections@) {
            Ok(b) => r matches Ok(v) && v@ == b,
            Err(e) => r matches Err(m) && m@ == e,
        },
{
    let raw = extract_raw_arc(entry, sections)?;
    if is_lzma(raw.as_slice()) {
        match lzma_decompress_bytes(raw.as_slice()) {
            Some(out) => Ok(out),
            None => Ok(raw),
        }
    } else {
        Ok(raw)
    }
}

/// Whether a file of the index has to be downloaded: it is missing, or the index gives its
/// MD5 and the file's (`actual`, `None` where it could not be read) differs.
pub open spec fn file_needs_download(
    exists: bool,
    expected: Option<Seq<char>>,
    actual: Option<Seq<char>>,
) -> bool {
    if !exists {
        true
    } else {
        match expected {
            Some(e) => match actual {
                Some(a) => a != e,
                None => true,
            },
            None => false,
        }
    }
}

pub open spec fn opt_view(o: Option<String>) -> Option<Seq<char>> {
    match o {
        Some(s) => Some(s@),
        None => None,
    }
}

pub fn needs_download(exists: bool, expected: &Option<String>, actual: &Option<String>) -> (r: bool)
    ensures
        r == file_needs_download(exists, opt_view(*expected), opt_view(*actual)),
{
    if !exists {
        return true;
    }
    match expected {
        Some(e) => match actual {
            Some(a) => !crate::text::str_eq(a.as_str(), e.as_str()),
            None => true,
        },
        None => false,
    }
}

/// The entries whose flag is set (entries and flags paired in order; an entry without a flag
/// is not kept).
pub open spec fn flagged(entries: Seq<EntryView>, flags: Seq<bool>) -> Seq<EntryView>
    decreases entries.len(),
{
    if entries.len() == 0 {
        Seq::empty()
    } else {
        let rest = flagged(entries.drop_last(), flags);
        let i = entries.len() - 1;
        if i < flags.len() && flags[i] {
            rest.push(entries.last())
        } else {
            rest
        }
    }
}

/// The entries to download: those whose flag says so.
pub fn files_to_download(entries: Vec<IndexFileEntry>, needs: &Vec<bool>) -> (r: Vec<
    IndexFileEntry,
>)
    ensures
        entries_view(r@) == flagged(entries_view(entries@), needs@),
{
    let ghost ev = entries_view(entries@);
    let mut r: Vec<IndexFileEntry> = Vec::new();
    let mut i: usize = 0;
    assert(entries_view(r@) =~= Seq::<EntryView>::empty());
    while i < entries.len()
        invariant
            i <= entries@.len(),
            ev == entries_view(entries@),
            entries_view(r@) == flagged(ev.take(i as int), needs@),
        decreases entries@.len() - i,
    {
        assert(ev.take(i + 1).drop_last() == ev.take(i as int));
        if i < needs.len() && needs[i] {
            let e = entries[i].clone_entry();
            proof {
                assert(entries_view(r@.push(e)) =~= entries_view(r@).push(e@));
                assert(ev.take(i + 1).last() == e@);
            }
            r.push(e);
        }
        i = i + 1;
    }
    assert(ev.take(entries@.len() as int) == ev);
    r
}

/// Whether every section that holds the entry's bytes has been downloaded.
pub open spec fn all_sections_present(e: EntryView, cab: u64, m: Map<u32, Arc<Vec<u8>>>) -> bool {
    forall|k: int| 0 <= k < sections_of(e, cab).len() ==> m.contains_key(#[trigger] sections_of(e, cab)[k])
}

/// The entries split, in order, into those whose sections are all present and the others.
pub open spec fn split_ready(files: Seq<EntryView>, cab: u64, m: Map<u32, Arc<Vec<u8>>>) -> (Seq<
    EntryView,
>, Seq<EntryView>)
    decreases files.len(),
{
    if files.len() == 0 {
        (Seq::empty(), Seq::empty())
    } else {
        let (ready, still) = split_ready(files.drop_last(), cab, m);
        if all_sections_present(files.last(), cab, m) {
            (ready.push(files.last()), still)
        } else {
            (ready, still.push(files.last()))
        }
    }
}

/// The pending entries split into those that can be extracted now (all their sections are
/// in `store`) and those still waiting, each in order.
pub fn partition_ready(
    pending: &Vec<IndexFileEntry>,
    store: &HashMap<u32, Arc<Vec<u8>>>,
    cab_size: u64,
) -> (r: (Vec<IndexFileEntry>, Vec<IndexFileEntry>))
    requires
        forall|k: int| 0 <= k < pending@.len() ==> sections_computable(#[trigger] pending@[k]@, cab_size),
    ensures
        (entries_view(r.0@), entries_view(r.1@)) == split_ready(entries_view(pending@), cab_size, store@),
{
    let ghost pv = entries_view(pending@);
    let mut ready: Vec<IndexFileEntry> = Vec::new();
    let mut still: Vec<IndexFileEntry> = Vec::new();
    let mut i: usize = 0;
    assert(entries_view(ready@) =~= Seq::<EntryView>::empty());
    assert(entries_view(still@) =~= Seq::<EntryView>::empty());
    while i < pending.len()
        invariant
            i <= pending@.len(),
            pv == entries_view(pending@),
            forall|k: int| 0 <= k < pending@.len() ==> sections_computable(#[trigger] pending@[k]@, cab_size),
            (entries_view(ready@), entries_view(still@)) == split_ready(pv.take(i as int), cab_size, store@),
        decreases pending@.len() - i,
    {
        assert(pv.take(i + 1).drop_last() == pv.take(i as int));
        assert(pv[i as int] == pending@[i as int]@);
        let secs = file_sections(&pending[i], cab_size);
        let mut all = true;
        let mut j: usize = 0;
        while j < secs.len()
            invariant
                j <= secs@.len(),
                all == (forall|k: int| 0 <= k < j ==> store@.contains_key(#[trigger] secs@[k])),
            decreases secs@.len() - j,
        {
            if !store.contains_key(&secs[j]) {
                all = false;
            }
            j = j + 1;
        }
        let e = pending[i].clone_entry();
        if all {
            proof {
                assert(entries_view(ready@.push(e)) =~= entries_view(ready@).push(e@));
            }
            ready.push(e);
        } else {
            proof {
                assert(entries_view(still@.push(e)) =~= entries_view(still@).push(e@));
            }
            still.push(e);
        }
        i = i + 1;
    }
    assert(pv.take(pending@.len() as int) == pv);
    (ready, still)
}

/// The sizes the whole installation is measured by: the bytes of the sections to download,
/// the bytes of the files to write, and the number of files.
#[derive(Debug)]
pub struct PipelineTotals {
    pub compressed: u64,
    pub uncompressed: u64,
    pub files: u32,
}

/// The sum of the entries' sizes.
pub open spec fn lengths_sum(files: Seq<EntryView>) -> int
    decreases files.len(),
{
    if files.len() == 0 {
        0
    } else {
        lengths_sum(files.drop_last()) + files.last().length
    }
}

/// `a.saturating_add(b)`.
pub open spec fn sat_add(a: u64, b: u64) -> u64 {
    if a + b <= u64::MAX {
        (a + b) as u64
    } else {
        u64::MAX
    }
}

/// `a.saturating_mul(b)`.
pub open spec fn sat_mul(a: u64, b: u64) -> u64 {
    if a * b <= u64::MAX {
        (a * b) as u64
    } else {
        u64::MAX
    }
}

proof fn lemma_lengths_sum_prefix(files: Seq<EntryView>, k: int)
    requires
        0 <= k <= files.len(),
    ensures
        lengths_sum(files.take(k)) <= lengths_sum(files),
        lengths_sum(files.take(k)) >= 0,
    decreases files.len() - k,
{
    if k < files.len() {
        lemma_lengths_sum_prefix(files, k + 1);
        assert(files.take(k + 1).drop_last() == files.take(k));
        lemma_lengths_sum_nonneg(files.take(k));
    } else {
        assert(files.take(k) == files);
        lemma_lengths_sum_nonneg(files);
    }
}

proof fn lemma_lengths_sum_nonneg(files: Seq<EntryView>)
    ensures
        lengths_sum(files) >= 0,
    decreases files.len(),
{
    if files.len() > 0 {
        lemma_lengths_sum_nonneg(files.drop_last());
    }
}

/// Adds a package to the totals: its needed sections at `cab_size` bytes each (saturating),
/// the sizes of its files, and their number.
pub fn add_package(
    totals: &mut PipelineTotals,
    files: &Vec<IndexFileEntry>,
    needed_count: usize,
    cab_size: u64,
)
    requires
        old(totals).uncompressed + lengths_sum(entries_view(files@)) <= u64::MAX,
        old(totals).files + files@.len() <= u32::MAX,
    ensures
        final(totals).compressed == sat_add(
            old(totals).compressed,
            sat_mul(needed_count as u64, cab_size),
        ),
        final(totals).uncompressed == old(totals).uncompressed + lengths_sum(entries_view(files@)),
        final(totals).files == old(totals).files + files@.len(),
{
    let ghost fv = entries_view(files@);
    let sections_bytes = match (needed_count as u64).checked_mul(cab_size) {
        Some(p) => p,
        None => u64::MAX,
    };
    totals.compressed = totals.compressed.saturating_add(sections_bytes);
    let mut sum: u64 = 0;
    let mut i: usize = 0;
    let ghost base = totals.uncompressed;
    while i < files.len()
        invariant
            i <= files@.len(),
            fv == entries_view(files@),
            base + lengths_sum(fv) <= u64::MAX,
            sum == lengths_sum(fv.take(i as int)),
        decreases files@.len() - i,
    {
        assert(fv.take(i + 1).drop_last() == fv.take(i as int));
        assert(fv[i as int] == files@[i as int]@);
        proof {
            lemma_lengths_sum_prefix(fv, i + 1);
        }
        sum = sum + files[i].length;
        i = i + 1;
    }
    assert(fv.take(files@.len() as int) == fv);
    totals.uncompressed = totals.uncompressed + sum;
    totals.files = totals.files + files.len() as u32;
}

// ---------------------------------------------------------------------------
// Progress while downloading
// ---------------------------------------------------------------------------

/// What the progress reports keep between ticks: the byte count of the last tick and the last
/// speed above zero.
#[derive(Debug)]
pub struct SpeedHold {
    pub last_bytes: u64,
    pub last_nonzero_speed: u64,
}

impl SpeedHold {
    pub fn new() -> (r: SpeedHold)
        ensures
            r.last_bytes == 0,
            r.last_nonzero_speed == 0,
    {
        SpeedHold { last_bytes: 0, last_nonzero_speed: 0 }
    }

    /// Whether bytes arrived since the last tick (the moment of progress is then now).
    pub fn progressed(&self, bytes: u64) -> (r: bool)
        ensures
            r == (bytes > self.last_bytes),
    {
        bytes > self.last_bytes
    }
}

/// `max(a, b)`.
pub open spec fn max_u64(a: u64, b: u64) -> u64 {
    if a >= b {
        a
    } else {
        b
    }
}

/// The speed shown: the measured one, or, where it fell to zero near the end while bytes were
/// still arriving within the last two seconds, the last speed above zero.
pub open spec fn shown_speed(raw: u64, hold_ok: bool, last_nonzero: u64) -> u64 {
    if raw > 0 {
        raw
    } else if hold_ok && last_nonzero > 0 {
        last_nonzero
    } else {
        raw
    }
}

/// One tick of the download of the game's sections: `dl` bytes of `total` so far, measured
/// speed `raw_speed`, and whether there was progress within the last two seconds. Gives the
/// speed shown and the seconds left (`0` at speed zero).
pub fn download_tick(hold: &mut SpeedHold, dl: u64, total: u64, raw_speed: u64, recent: bool) -> (r: (
    u64,
    u64,
))
    ensures
        ({
            let remaining = crate::index::sat_sub(total, dl);
            let near_finish = remaining <= max_u64((total / 40) as u64, 33554432);
            let speed = shown_speed(
                raw_speed,
                near_finish && dl >= old(hold).last_bytes && recent,
                old(hold).last_nonzero_speed,
            );
            &&& r.0 == speed
            &&& r.1 == (if speed > 0 {
                remaining / speed
            } else {
                0
            })
            &&& final(hold).last_bytes == dl
            &&& final(hold).last_nonzero_speed == (if raw_speed > 0 {
                raw_speed
            } else {
                old(hold).last_nonzero_speed
            })
        }),
{
    let remaining = if total >= dl {
        total - dl
    } else {
        0
    };
    let floor = if total / 40 >= 33554432 {
        total / 40
    } else {
        33554432
    };
    let near_finish = remaining <= floor;
    let speed = if raw_speed > 0 {
        hold.last_nonzero_speed = raw_speed;
        raw_speed
    } else if near_finish && dl >= hold.last_bytes && hold.last_nonzero_speed > 0 && recent {
        hold.last_nonzero_speed
    } else {
        raw_speed
    };
    let eta = if speed > 0 {
        remaining / speed
    } else {
        0
    };
    hold.last_bytes = dl;
    (speed, eta)
}

/// One tick of a download of mods or modules: `bytes` so far, `done` files of `dl_total`, the
/// total that the servers announced (`0` where they did not). Gives the estimated total (the
/// announced one, at least the bytes so far; else the mean size so far times the number of
/// files, with the multiplication wrapping), the total to show (`0` where none was
/// announced), and the speed shown.
pub fn transfer_tick(
    hold: &mut SpeedHold,
    bytes: u64,
    done: u32,
    dl_total: u32,
    total_known: u64,
    raw_speed: u64,
    recent: bool,
) -> (r: (u64, u64, u64))
    ensures
        ({
            let estimated = if total_known > 0 {
                max_u64(total_known, bytes)
            } else if done > 0 {
                (bytes / (done as u64)).wrapping_mul(dl_total as u64)
            } else {
                0
            };
            let near_finish = crate::index::sat_sub(estimated, bytes) <= max_u64(
                (estimated / 40) as u64,
                16777216,
            );
            let speed = shown_speed(raw_speed, near_finish && recent, old(hold).last_nonzero_speed);
            &&& r.0 == estimated
            &&& r.1 == (if total_known > 0 {
                estimated
            } else {
                0
            })
            &&& r.2 == speed
            &&& final(hold).last_bytes == bytes
            &&& final(hold).last_nonzero_speed == (if raw_speed > 0 {
                raw_speed
            } else {
                old(hold).last_nonzero_speed
            })
        }),
{
    let estimated = if total_known > 0 {
        if total_known >= bytes {
            total_known
        } else {
            bytes
        }
    } else if done > 0 {
        (bytes / (done as u64)).wrapping_mul(dl_total as u64)
    } else {
        0
    };
    let emit_total = if total_known > 0 {
        estimated
    } else {
        0
    };
    let left = if estimated >= bytes {
        estimated - bytes
    } else {
        0
    };
    let floor = if estimated / 40 >= 16777216 {
        estimated / 40
    } else {
        16777216
    };
    let near_finish = left <= floor;
    let speed = if raw_speed > 0 {
        hold.last_nonzero_speed = raw_speed;
        raw_speed
    } else if near_finish && hold.last_nonzero_speed > 0 && recent {
        hold.last_nonzero_speed
    } else {
        raw_speed
    };
    hold.last_bytes = bytes;
    (estimated, emit_total, speed)
}

// ---------------------------------------------------------------------------
// Addresses and messages
// ---------------------------------------------------------------------------

/// `s.trim_end_matches('/')`.
pub open spec fn trim_slashes(s: Seq<char>) -> Seq<char> {
    crate::text::trim_end_set(s, seq!['/'])
}

/// The address of a package: the CDN's address without trailing `/`, then the package's path.
pub fn package_url(cdn_url: &str, pkg_path: &str) -> (r: String)
    ensures
        r@ == trim_slashes(cdn_url@) + pkg_path@,
{
    let mut r = trim_end_char_str(cdn_url, '/');
    push_str(&mut r, pkg_path);
    r
}

/// The packages of the game: their paths below the CDN's address and their labels.
pub fn package_configs() -> (r: Vec<(String, String)>)
    ensures
        r@.len() == 3,
        r@[0].0@ == ""@ && r@[0].1@ == "Core"@,
        r@[1].0@ == "/Tracks"@ && r@[1].1@ == "Tracks"@,
        r@[2].0@ == "/en"@ && r@[2].1@ == "Speech"@,
{
    vec![
        ("".to_owned(), "Core".to_owned()),
        ("/Tracks".to_owned(), "Tracks".to_owned()),
        ("/en".to_owned(), "Speech".to_owned()),
    ]
}

/// The address of a package's index.
pub fn index_url(pkg_url: &str) -> (r: String)
    ensures
        r@ == pkg_url@ + "/index.xml"@,
{
    let mut r = pkg_url.to_owned();
    push_str(&mut r, "/index.xml");
    r
}

/// The address of a package's section.
pub fn section_url(pkg_url: &str, sec: u32) -> (r: String)
    ensures
        r@ == pkg_url@ + "/section"@ + decimal(sec as nat) + ".dat"@,
{
    let mut r = pkg_url.to_owned();
    push_str(&mut r, "/section");
    push_decimal(&mut r, sec as u64);
    push_str(&mut r, ".dat");
    r
}

/// The errors of a step, all of them joined by `; `, or success where there is none.
pub fn join_errors(errors: &Vec<String>) -> (r: Result<(), String>)
    ensures
        errors@.len() == 0 ==> r is Ok,
        errors@.len() > 0 ==> (r matches Err(m) && m@ == join_seq(views_of(errors@), "; "@)),
{
    if errors.len() == 0 {
        Ok(())
    } else {
        Err(join_strings(errors, "; "))
    }
}

// ---------------------------------------------------------------------------
// Progress events
// ---------------------------------------------------------------------------

/// A progress report of an installation or download step.
#[derive(Debug)]
pub struct DownloadEvent {
    pub status: String,
    pub file_name: String,
    pub current_file: u32,
    pub total_files: u32,
    pub downloaded_bytes: u64,
    pub total_bytes: u64,
    pub speed: u64,
    pub eta: u64,
    pub error: Option<String>,
}

/// A progress report of a verification or repair.
#[derive(Debug)]
pub struct VerifyEvent {
    pub status: String,
    pub current_file: String,
    pub current_index: u32,
    pub total_files: u32,
    pub corrupted_count: u32,
}

impl DownloadEvent {
    /// A report without error.
    pub fn new(
        status: &str,
        file_name: String,
        current_file: u32,
        total_files: u32,
        downloaded_bytes: u64,
        total_bytes: u64,
        speed: u64,
        eta: u64,
    ) -> (r: DownloadEvent)
        ensures
            r.status@ == status@,
            r.file_name == file_name,
            r.current_file == current_file,
            r.total_files == total_files,
            r.downloaded_bytes == downloaded_bytes,
            r.total_bytes == total_bytes,
            r.speed == speed,
            r.eta == eta,
            r.error is None,
    {
        DownloadEvent {
            status: status.to_owned(),
            file_name,
            current_file,
            total_files,
            downloaded_bytes,
            total_bytes,
            speed,
            eta,
            error: None,
        }
    }
}

/// `{prefix}{done}/{total}{suffix}`.
pub fn count_text(prefix: &str, done: u32, total: u32, suffix: &str) -> (r: String)
    ensures
        r@ == prefix@ + decimal(done as nat) + "/"@ + decimal(total as nat) + suffix@,
{
    let mut r = prefix.to_owned();
    push_decimal(&mut r, done as u64);
    push_str(&mut r, "/");
    push_decimal(&mut r, total as u64);
    push_str(&mut r, suffix);
    assert(r@ =~= prefix@ + decimal(done as nat) + "/"@ + decimal(total as nat) + suffix@);
    r
}

/// `[{label}] Verifying {n} files...`.
pub fn verifying_text(label: &str, n: u32) -> (r: String)
    ensures
        r@ == "["@ + label@ + "] Verifying "@ + decimal(n as nat) + " files..."@,
{
    let mut r = "[".to_owned();
    push_str(&mut r, label);
    push_str(&mut r, "] Verifying ");
    push_decimal(&mut r, n as u64);
    push_str(&mut r, " files...");
    assert(r@ =~= "["@ + label@ + "] Verifying "@ + decimal(n as nat) + " files..."@);
    r
}

impl VerifyEvent {
    /// The report of a scan in progress: `[{label}] {done}/{total}`.
    pub fn scanning(label: &str, done: u32, total: u32, corrupted: u32) -> (r: VerifyEvent)
        ensures
            r.status@ == "scanning"@,
            r.current_file@ == "["@ + label@ + "] "@ + decimal(done as nat) + "/"@ + decimal(
                total as nat,
            ),
            r.current_index == done,
            r.total_files == total,
            r.corrupted_count == corrupted,
    {
        let mut prefix = "[".to_owned();
        push_str(&mut prefix, label);
        push_str(&mut prefix, "] ");
        let name = count_text(prefix.as_str(), done, total, "");
        proof {
            reveal_strlit("");
        }
        assert(name@ =~= "["@ + label@ + "] "@ + decimal(done as nat) + "/"@ + decimal(total as nat));
        VerifyEvent {
            status: "scanning".to_owned(),
            current_file: name,
            current_index: done,
            total_files: total,
            corrupted_count: corrupted,
        }
    }
}

// ---------------------------------------------------------------------------
// How much runs at once
// ---------------------------------------------------------------------------

/// `x.clamp(lo, hi)`.
pub open spec fn clamp(x: usize, lo: usize, hi: usize) -> usize {
    if x < lo {
        lo
    } else if x > hi {
        hi
    } else {
        x
    }
}

fn clamp_exec(x: usize, lo: usize, hi: usize) -> (r: usize)
    requires
        lo <= hi,
    ensures
        r == clamp(x, lo, hi),
{
    if x < lo {
        lo
    } else if x > hi {
        hi
    } else {
        x
    }
}

/// How many sections of the game are downloaded at once: twice the number of processors,
/// between 4 and 24.
pub fn adaptive_download_slots_game(cpus: usize) -> (r: usize)
    ensures
        r == clamp(if cpus <= usize::MAX / 2 { (cpus * 2) as usize } else { usize::MAX }, 4, 24),
{
    let doubled = if cpus <= usize::MAX / 2 {
        cpus * 2
    } else {
        usize::MAX
    };
    clamp_exec(doubled, 4, 24)
}

/// How many mods or modules are downloaded at once: the number of processors, between 3 and 12.
pub fn adaptive_download_slots_mods(cpus: usize) -> (r: usize)
    ensures
        r == clamp(cpus, 3, 12),
{
    clamp_exec(cpus, 3, 12)
}

/// How many threads check files: the number of processors, between 2 and 16.
pub fn adaptive_rayon_threads(cpus: usize) -> (r: usize)
    ensures
        r == clamp(cpus, 2, 16),
{
    clamp_exec(cpus, 2, 16)
}

/// How many threads extract files: half the processors (leaving headroom for the interface
/// and other processes), at least 2.
pub fn extraction_threads(cpus: usize) -> (r: usize)
    ensures
        r == (if cpus / 2 < 2 {
            2
        } else {
            cpus / 2
        }),
{
    if cpus / 2 < 2 {
        2
    } else {
        cpus / 2
    }
}

// ---------------------------------------------------------------------------
// What splitting the pending entries keeps
// ---------------------------------------------------------------------------

/// Splitting the pending entries loses none and adds none: the two parts together are as many
/// as the entries, every ready entry has all its sections present, and no waiting one has.
pub proof fn law_split_ready_partitions(files: Seq<EntryView>, cab: u64, m: Map<u32, Arc<Vec<u8>>>)
    ensures
        split_ready(files, cab, m).0.len() + split_ready(files, cab, m).1.len() == files.len(),
        forall|i: int| 0 <= i < split_ready(files, cab, m).0.len() ==> all_sections_present(
            #[trigger] split_ready(files, cab, m).0[i],
            cab,
            m,
        ),
        forall|i: int| 0 <= i < split_ready(files, cab, m).1.len() ==> !all_sections_present(
            #[trigger] split_ready(files, cab, m).1[i],
            cab,
            m,
        ),
    decreases files.len(),
{
    if files.len() > 0 {
        law_split_ready_partitions(files.drop_last(), cab, m);
        let (ready, still) = split_ready(files.drop_last(), cab, m);
        if all_sections_present(files.last(), cab, m) {
            assert forall|i: int| 0 <= i < ready.push(files.last()).len() implies all_sections_present(
                #[trigger] ready.push(files.last())[i],
                cab,
                m,
            ) by {
                if i < ready.len() {
                    assert(ready.push(files.last())[i] == ready[i]);
                }
            }
        } else {
            assert forall|i: int| 0 <= i < still.push(files.last()).len() implies !all_sections_present(
                #[trigger] still.push(files.last())[i],
                cab,
                m,
            ) by {
                if i < still.len() {
                    assert(still.push(files.last())[i] == still[i]);
                }
            }
        }
    }
}

/// The speed shown for the download never comes out of nowhere: it is the measured one, or
/// the last measured speed above zero; and the time left times the speed never exceeds what
/// is left to download.
pub proof fn law_tick_speed_and_eta(raw: u64, hold_ok: bool, last_nonzero: u64, remaining: u64)
    ensures
        shown_speed(raw, hold_ok, last_nonzero) == raw || shown_speed(raw, hold_ok, last_nonzero)
            == last_nonzero,
        shown_speed(raw, hold_ok, last_nonzero) > 0 ==> (remaining / shown_speed(
            raw,
            hold_ok,
            last_nonzero,
        )) * shown_speed(raw, hold_ok, last_nonzero) <= remaining,
{
    let sp = shown_speed(raw, hold_ok, last_nonzero);
    if sp > 0 {
        assert((remaining / sp) * sp <= remaining) by (nonlinear_arith)
            requires
                sp > 0,
        ;
    }
}

} // verus!
