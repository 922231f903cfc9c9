use vstd::prelude::*;
use crate::mods::contains_name;
use crate::num::{decimal, parse_unsigned, parse_unsigned_spec, push_decimal};
use crate::text::{
    chars_of, find_chars, find_from, join_seq, join_strings, lemma_views_of_push, lines_of,
    lines_str, push_str, replace_char, replace_char_str, slice_to_vec, string_of, to_lower,
    trim_str, trim_ws, unicode_lower, views_of,
};

verus! {

broadcast use vstd::string::group_string_axioms;

// ---------------------------------------------------------------------------
// What the launcher remembers of the game's scripts before a modded session
// ---------------------------------------------------------------------------

/// `scripts_snapshot_key`: the key a game directory's baseline is kept under; on Windows the
/// directory with `/` turned into `\` and in lower case.
pub fn scripts_snapshot_key(game_dir: &str, is_windows: bool) -> (r: String)
    ensures
        r@ == (if is_windows {
            unicode_lower(replace_char(game_dir@, '/', seq!['\\']))
        } else {
            game_dir@
        }),
{
    if is_windows {
        let s = replace_char_str(game_dir, '/', '\\');
        to_lower(s.as_str())
    } else {
        game_dir.to_owned()
    }
}

/// The baselines as a map from key to the names of the files that were there.
pub open spec fn baselines_map(entries: Seq<(Seq<char>, Seq<Seq<char>>)>) -> Map<Seq<char>, Seq<Seq<char>>>
    decreases entries.len(),
{
    if entries.len() == 0 {
        Map::empty()
    } else {
        baselines_map(entries.drop_last()).insert(entries.last().0, entries.last().1)
    }
}

/// The scripts found in each game directory when a modded session started (the store that
/// `snapshot_scripts_baseline`, `get_scripts_baseline` and `clear_scripts_baseline` use).
pub struct ScriptsBaselines {
    entries: Vec<(String, Vec<String>)>,
}

pub open spec fn entry_view(e: (String, Vec<String>)) -> (Seq<char>, Seq<Seq<char>>) {
    (e.0@, views_of(e.1@))
}

pub open spec fn baselines_entries(v: Seq<(String, Vec<String>)>) -> Seq<(Seq<char>, Seq<Seq<char>>)> {
    v.map_values(|e: (String, Vec<String>)| entry_view(e))
}

/// Whether an entry is of another key than `k`.
pub open spec fn other_key(k: Seq<char>) -> spec_fn((Seq<char>, Seq<Seq<char>>)) -> bool {
    |e: (Seq<char>, Seq<Seq<char>>)| e.0 != k
}

impl View for ScriptsBaselines {
    type V = Map<Seq<char>, Seq<Seq<char>>>;

    closed spec fn view(&self) -> Map<Seq<char>, Seq<Seq<char>>> {
        baselines_map(baselines_entries(self.entries@))
    }
}

proof fn lemma_map_without(entries: Seq<(Seq<char>, Seq<Seq<char>>)>, k: Seq<char>, kept: Seq<(Seq<char>, Seq<Seq<char>>)>)
    requires
        kept == entries.filter(other_key(k)),
    ensures
        baselines_map(kept) == baselines_map(entries).remove(k),
    decreases entries.len(),
{
    reveal(Seq::filter);
    if entries.len() == 0 {
        assert(baselines_map(entries).remove(k) =~= Map::empty());
    } else {
        let init = entries.drop_last();
        let kept_init = init.filter(other_key(k));
        lemma_map_without(init, k, kept_init);
        if entries.last().0 != k {
            assert(kept == kept_init.push(entries.last()));
            assert(kept.drop_last() == kept_init);
            assert(baselines_map(kept) =~= baselines_map(entries).remove(k));
        } else {
            assert(kept == kept_init);
            assert(baselines_map(kept) =~= baselines_map(entries).remove(k));
        }
    }
}

impl ScriptsBaselines {
    pub fn new() -> (r: ScriptsBaselines)
        ensures
            r@ == Map::<Seq<char>, Seq<Seq<char>>>::empty(),
    {
        let r = ScriptsBaselines { entries: Vec::new() };
        assert(baselines_entries(r.entries@) =~= Seq::empty());
        r
    }

    /// Forgets the baseline of `key`, if there is one.
    pub fn clear(&mut self, key: &str)
        ensures
            final(self)@ == old(self)@.remove(key@),
    {
        let ghost ev = baselines_entries(self.entries@);
        let mut kept: Vec<(String, Vec<String>)> = Vec::new();
        let mut i: usize = 0;
        while i < self.entries.len()
            invariant
                i <= self.entries@.len(),
                ev == baselines_entries(self.entries@),
                baselines_entries(kept@) == ev.take(i as int).filter(other_key(key@)),
            decreases self.entries@.len() - i,
        {
            proof {
                reveal(Seq::filter);
                assert(ev.take(i + 1).drop_last() == ev.take(i as int));
                assert(ev.take(i + 1).last() == entry_view(self.entries@[i as int]));
            }
            if !crate::text::str_eq(self.entries[i].0.as_str(), key) {
                let e = (self.entries[i].0.clone(), clone_names(&self.entries[i].1));
                proof {
                    assert(entry_view(e) == entry_view(self.entries@[i as int]));
                    assert(baselines_entries(kept@.push(e)) =~= baselines_entries(kept@).push(entry_view(e)));
                }
                kept.push(e);
            }
            i = i + 1;
        }
        proof {
            assert(ev.take(self.entries@.len() as int) == ev);
            lemma_map_without(ev, key@, ev.filter(other_key(key@)));
        }
        self.entries = kept;
    }

    /// `snapshot_scripts_baseline`: remembers `names` as the baseline of `key`, in place of any
    /// earlier one.
    pub fn store(&mut self, key: String, names: Vec<String>)
        ensures
            final(self)@ == old(self)@.insert(key@, views_of(names@)),
    {
        self.clear(key.as_str());
        let ghost before = self.entries@;
        let e = (key, names);
        self.entries.push(e);
        proof {
            assert(baselines_entries(self.entries@).drop_last() =~= baselines_entries(before));
            assert(self@ =~= old(self)@.remove(e.0@).insert(e.0@, views_of(e.1@)));
            assert(old(self)@.remove(e.0@).insert(e.0@, views_of(e.1@)) =~= old(self)@.insert(e.0@, views_of(e.1@)));
        }
    }

    /// `get_scripts_baseline`: the baseline of `key`, if one is remembered.
    pub fn get(&self, key: &str) -> (r: Option<Vec<String>>)
        ensures
            match r {
                Some(v) => self@.contains_key(key@) && self@[key@] == views_of(v@),
                None => !self@.contains_key(key@),
            },
    {
        let ghost ev = baselines_entries(self.entries@);
        let mut i: usize = self.entries.len();
        while i > 0
            invariant
                i <= self.entries@.len(),
                ev == baselines_entries(self.entries@),
                forall|j: int| i <= j < ev.len() ==> (#[trigger] ev[j]).0 != key@,
            decreases i,
        {
            let k = i - 1;
            assert(ev[k as int] == entry_view(self.entries@[k as int]));
            if crate::text::str_eq(self.entries[k].0.as_str(), key) {
                let v = clone_names(&self.entries[k].1);
                proof {
                    lemma_lookup(ev, key@, k as int);
                }
                return Some(v);
            }
            i = k;
        }
        proof {
            lemma_absent(ev, key@);
        }
        None
    }
}

proof fn lemma_lookup(ev: Seq<(Seq<char>, Seq<Seq<char>>)>, key: Seq<char>, k: int)
    requires
        0 <= k < ev.len(),
        ev[k].0 == key,
        forall|j: int| k < j < ev.len() ==> (#[trigger] ev[j]).0 != key,
    ensures
        baselines_map(ev).contains_key(key),
        baselines_map(ev)[key] == ev[k].1,
    decreases ev.len(),
{
    if k < ev.len() - 1 {
        let init = ev.drop_last();
        assert(ev[ev.len() - 1].0 != key);
        assert forall|j: int| k < j < init.len() implies (#[trigger] init[j]).0 != key by {
            assert(init[j] == ev[j]);
        }
        lemma_lookup(init, key, k);
    }
}

proof fn lemma_absent(ev: Seq<(Seq<char>, Seq<Seq<char>>)>, key: Seq<char>)
    requires
        forall|j: int| 0 <= j < ev.len() ==> (#[trigger] ev[j]).0 != key,
    ensures
        !baselines_map(ev).contains_key(key),
    decreases ev.len(),
{
    if ev.len() > 0 {
        let init = ev.drop_last();
        assert(ev[ev.len() - 1].0 != key);
        assert forall|j: int| 0 <= j < init.len() implies (#[trigger] init[j]).0 != key by {
            assert(init[j] == ev[j]);
        }
        lemma_absent(init, key);
    }
}

fn clone_names(v: &Vec<String>) -> (r: Vec<String>)
    ensures
        views_of(r@) == views_of(v@),
{
    let mut r: Vec<String> = Vec::new();
    let mut i: usize = 0;
    while i < v.len()
        invariant
            i <= v@.len(),
            views_of(r@) == views_of(v@).take(i as int),
        decreases v@.len() - i,
    {
        let s = v[i].clone();
        proof {
            lemma_views_of_push(r@, s);
            assert(views_of(v@).take(i + 1) =~= views_of(v@).take(i as int).push(s@));
        }
        r.push(s);
        i = i + 1;
    }
    assert(views_of(v@).take(v@.len() as int) == views_of(v@));
    r
}

// ---------------------------------------------------------------------------
// Undoing what the game's mod manager did (`.links`)
// ---------------------------------------------------------------------------

/// One line of `.links` split at its first tab: the location, and the type field if any.
pub open spec fn split_tab(line: Seq<char>) -> (Seq<char>, Option<Seq<char>>) {
    match find_from(line, seq!['\t'], 0) {
        Some(i) => (line.take(i), Some(line.skip(i + 1))),
        None => (line, None),
    }
}

/// One line of `.links` read: its location (trimmed) and its type (`None` for a line of the
/// old form without one). Nothing for a line without location, or whose type is no `u8`.
pub open spec fn link_line(line: Seq<char>) -> Option<(Option<u8>, Seq<char>)> {
    let (first, rest) = split_tab(line);
    let loc = trim_ws(first);
    if loc.len() == 0 {
        None
    } else {
        match rest {
            Some(t) => match parse_unsigned_spec(trim_ws(t), 255) {
                Some(v) => Some((Some(v as u8), loc)),
                None => None,
            },
            None => Some((None, loc)),
        }
    }
}

pub fn parse_link_line(line: &str) -> (r: Option<(Option<u8>, String)>)
    ensures
        match link_line(line@) {
            Some(p) => r matches Some(q) && q.0 == p.0 && q.1@ == p.1,
            None => r is None,
        },
{
    let cs = chars_of(line);
    let tab = vec!['\t'];
    assert(tab@ == seq!['\t']);
    let (first, rest) = match find_chars(cs.as_slice(), tab.as_slice(), 0) {
        Some(i) => {
            proof {
                crate::text::lemma_find_from(cs@, seq!['\t'], 0);
                assert(crate::text::matches_at(cs@, seq!['\t'], i as int));
                assert(seq!['\t'].len() == 1);
            }
            let n = cs.len();
            let a = slice_to_vec(cs.as_slice(), 0, i);
            let b = slice_to_vec(cs.as_slice(), i + 1, n);
            assert(a@ == cs@.take(i as int));
            assert(b@ == cs@.skip(i + 1));
            (string_of(a.as_slice()), Some(string_of(b.as_slice())))
        },
        None => (line.to_owned(), None),
    };
    let loc = trim_str(first.as_str());
    if loc.as_str().is_empty() {
        return None;
    }
    match rest {
        Some(t) => {
            let tt = trim_str(t.as_str());
            let tc = chars_of(tt.as_str());
            match parse_unsigned(tc.as_slice(), 255) {
                Some(v) => Some((Some(v as u8), loc)),
                None => None,
            }
        },
        None => Some((None, loc)),
    }
}

/// The lines of `.links` read, in order, without the lines that say nothing.
pub open spec fn link_lines(lines: Seq<Seq<char>>) -> Seq<(Option<u8>, Seq<char>)>
    decreases lines.len(),
{
    if lines.len() == 0 {
        Seq::empty()
    } else {
        let rest = link_lines(lines.drop_last());
        match link_line(lines.last()) {
            Some(p) => rest.push(p),
            None => rest,
        }
    }
}

pub open spec fn links_view(v: Seq<(Option<u8>, String)>) -> Seq<(Option<u8>, Seq<char>)> {
    Seq::new(v.len(), |i: int| (v[i].0, v[i].1@))
}

/// The entries of a `.links` file.
pub fn parse_links(content: &str) -> (r: Vec<(Option<u8>, String)>)
    ensures
        links_view(r@) == link_lines(lines_of(content@)),
{
    let lines = lines_str(content);
    let ghost ls = lines_of(content@);
    let mut r: Vec<(Option<u8>, String)> = Vec::new();
    let mut i: usize = 0;
    assert(links_view(r@) =~= Seq::<(Option<u8>, Seq<char>)>::empty());
    while i < lines.len()
        invariant
            i <= lines@.len(),
            views_of(lines@) == ls,
            links_view(r@) == link_lines(ls.take(i as int)),
        decreases lines@.len() - i,
    {
        assert(ls.take(i + 1).drop_last() == ls.take(i as int));
        assert(lines@[i as int]@ == ls[i as int]);
        match parse_link_line(lines[i].as_str()) {
            Some(p) => {
                proof {
                    assert(links_view(r@.push(p)) =~= links_view(r@).push((p.0, p.1@)));
                }
                r.push(p);
            },
            None => {},
        }
        i = i + 1;
    }
    assert(ls.take(lines@.len() as int) == ls);
    r
}

/// The type of an entry: the one the line gives, else a directory (1) where the location has
/// no extension and a file (0) where it has one.
pub fn link_entry_type(declared: Option<u8>, has_extension: bool) -> (r: u8)
    ensures
        r == (match declared {
            Some(t) => t,
            None => if has_extension {
                0u8
            } else {
                1u8
            },
        }),
{
    match declared {
        Some(t) => t,
        None => if has_extension {
            0
        } else {
            1
        },
    }
}

/// How a file operation ended: done, refused for want of access (OS error 5; the cleanup is
/// tried again later), or failed otherwise (with the error's text).
#[derive(Debug)]
pub enum IoOutcome {
    Done,
    AccessDenied(String),
    Failed(String),
}

/// What to do with a replaced file: restore its `.orig`, nothing (it is gone), remove it (it is
/// still the mod's hard link), or nothing (it was restored before).
#[derive(Debug, PartialEq, Eq, Structural, Clone, Copy)]
pub enum FileAction {
    Restore,
    NotFound,
    Remove,
    Skip,
}

pub open spec fn file_action_spec(orig_is_file: bool, exists: bool, nlinks: u32) -> FileAction {
    if orig_is_file {
        FileAction::Restore
    } else if !exists {
        FileAction::NotFound
    } else if nlinks >= 2 {
        FileAction::Remove
    } else {
        FileAction::Skip
    }
}

pub fn file_action(orig_is_file: bool, exists: bool, nlinks: u32) -> (r: FileAction)
    ensures
        r == file_action_spec(orig_is_file, exists, nlinks),
{
    if orig_is_file {
        FileAction::Restore
    } else if !exists {
        FileAction::NotFound
    } else if nlinks >= 2 {
        FileAction::Remove
    } else {
        FileAction::Skip
    }
}

/// The log line of a replaced file's action (`orig` and `target` as displayed).
pub fn file_action_line(action: FileAction, orig: &str, target: &str, nlinks: u32) -> (r: String)
    ensures
        r@ == (match action {
            FileAction::Restore => "  [F] RESTORE "@ + orig@ + " -> "@ + target@,
            FileAction::NotFound => "  [F] NOT FOUND (already cleaned): "@ + target@,
            FileAction::Remove => "  [F] REMOVE (nlinks="@ + decimal(nlinks as nat) + ", no .orig): "@
                + target@,
            FileAction::Skip => "  [F] SKIP (nlinks=1, already restored): "@ + target@,
        }),
{
    match action {
        FileAction::Restore => {
            let mut r = "  [F] RESTORE ".to_owned();
            push_str(&mut r, orig);
            push_str(&mut r, " -> ");
            push_str(&mut r, target);
            r
        },
        FileAction::NotFound => {
            let mut r = "  [F] NOT FOUND (already cleaned): ".to_owned();
            push_str(&mut r, target);
            r
        },
        FileAction::Remove => {
            let mut r = "  [F] REMOVE (nlinks=".to_owned();
            push_decimal(&mut r, nlinks as u64);
            push_str(&mut r, ", no .orig): ");
            push_str(&mut r, target);
            r
        },
        FileAction::Skip => {
            let mut r = "  [F] SKIP (nlinks=1, already restored): ".to_owned();
            push_str(&mut r, target);
            r
        },
    }
}

/// The log line after restoring a file, and whether the cleanup has to be tried again.
pub fn restore_outcome(outcome: &IoOutcome, target_is_file: bool) -> (r: (String, bool))
    ensures
        match outcome {
            IoOutcome::Done => r.0@ == "    OK"@ && !r.1,
            IoOutcome::AccessDenied(e) => r.0@ == "    PENDING (access denied, will retry): "@ + e@
                && r.1,
            IoOutcome::Failed(e) => !r.1 && r.0@ == (if target_is_file {
                "    SKIP: target already present (concurrent restore)"@
            } else {
                "    WARN: rename failed: "@ + e@
            }),
        },
{
    match outcome {
        IoOutcome::Done => ("    OK".to_owned(), false),
        IoOutcome::AccessDenied(e) => {
            let mut r = "    PENDING (access denied, will retry): ".to_owned();
            push_str(&mut r, e.as_str());
            (r, true)
        },
        IoOutcome::Failed(e) => {
            if target_is_file {
                ("    SKIP: target already present (concurrent restore)".to_owned(), false)
            } else {
                let mut r = "    WARN: rename failed: ".to_owned();
                push_str(&mut r, e.as_str());
                (r, false)
            }
        },
    }
}

/// The log line after removing a file or a junction (none where it went well), and whether
/// the cleanup has to be tried again.
pub fn remove_outcome(outcome: &IoOutcome) -> (r: (Option<String>, bool))
    ensures
        match outcome {
            IoOutcome::Done => r.0 is None && !r.1,
            IoOutcome::AccessDenied(_) => r.0 matches Some(l) && l@
                == "    PENDING (access denied, will retry)"@ && r.1,
            IoOutcome::Failed(e) => r.0 matches Some(l) && l@ == "    WARN: remove failed: "@ + e@
                && !r.1,
        },
{
    match outcome {
        IoOutcome::Done => (None, false),
        IoOutcome::AccessDenied(_) => (Some("    PENDING (access denied, will retry)".to_owned()), true),
        IoOutcome::Failed(e) => {
            let mut r = "    WARN: remove failed: ".to_owned();
            push_str(&mut r, e.as_str());
            (Some(r), false)
        },
    }
}

/// What to do with a linked directory: nothing (it is gone), remove the junction, or remove the
/// plain directory.
#[derive(Debug, PartialEq, Eq, Structural, Clone, Copy)]
pub enum DirAction {
    NotFound,
    RemoveJunction,
    RemovePlain,
}

pub fn dir_action(is_dir: bool, is_reparse_point: bool) -> (r: DirAction)
    ensures
        r == (if !(is_dir || is_reparse_point) {
            DirAction::NotFound
        } else if is_reparse_point {
            DirAction::RemoveJunction
        } else {
            DirAction::RemovePlain
        }),
{
    if !(is_dir || is_reparse_point) {
        DirAction::NotFound
    } else if is_reparse_point {
        DirAction::RemoveJunction
    } else {
        DirAction::RemovePlain
    }
}

/// The log line of a linked directory's action.
pub fn dir_action_line(action: DirAction, target: &str) -> (r: String)
    ensures
        r@ == (match action {
            DirAction::NotFound => "  [D] NOT FOUND (already cleaned): "@ + target@,
            DirAction::RemoveJunction => "  [D] REMOVE (junction): "@ + target@,
            DirAction::RemovePlain => "  [D] REMOVE (plain dir): "@ + target@,
        }),
{
    let mut r = match action {
        DirAction::NotFound => "  [D] NOT FOUND (already cleaned): ".to_owned(),
        DirAction::RemoveJunction => "  [D] REMOVE (junction): ".to_owned(),
        DirAction::RemovePlain => "  [D] REMOVE (plain dir): ".to_owned(),
    };
    push_str(&mut r, target);
    r
}

/// `true` or `false`, as `bool` displays.
pub open spec fn bool_text(b: bool) -> Seq<char> {
    if b {
        "true"@
    } else {
        "false"@
    }
}

/// The cleanup log: a header with the number of entries, the lines of each entry in order, and
/// a footer that says whether the cleanup has to be tried again; one line per row.
pub fn cleanup_log(entry_count: usize, lines: &Vec<String>, recoverable: bool) -> (r: String)
    ensures
        r@ == join_seq(
            seq!["=== clean_mods_internal start, "@ + decimal(entry_count as nat) + " entries ==="@]
                + views_of(lines@) + seq!["=== cleanup done, has_recoverable="@ + bool_text(recoverable) + " ==="@],
            "\n"@,
        ),
{
    let mut all: Vec<String> = Vec::new();
    let mut head = "=== clean_mods_internal start, ".to_owned();
    push_decimal(&mut head, entry_count as u64);
    push_str(&mut head, " entries ===");
    assert(head@ =~= "=== clean_mods_internal start, "@ + decimal(entry_count as nat) + " entries ==="@);
    proof {
        lemma_views_of_push(all@, head);
    }
    all.push(head);
    let mut i: usize = 0;
    while i < lines.len()
        invariant
            i <= lines@.len(),
            views_of(all@) == seq!["=== clean_mods_internal start, "@ + decimal(entry_count as nat) + " entries ==="@]
                + views_of(lines@).take(i as int),
        decreases lines@.len() - i,
    {
        let l = lines[i].clone();
        proof {
            lemma_views_of_push(all@, l);
            assert(views_of(lines@).take(i + 1) =~= views_of(lines@).take(i as int).push(l@));
        }
        all.push(l);
        i = i + 1;
    }
    let mut foot = "=== cleanup done, has_recoverable=".to_owned();
    push_str(&mut foot, if recoverable { "true" } else { "false" });
    push_str(&mut foot, " ===");
    assert(foot@ =~= "=== cleanup done, has_recoverable="@ + bool_text(recoverable) + " ==="@);
    proof {
        lemma_views_of_push(all@, foot);
        assert(views_of(lines@).take(lines@.len() as int) == views_of(lines@));
    }
    all.push(foot);
    assert(views_of(all@) =~= seq!["=== clean_mods_internal start, "@ + decimal(entry_count as nat) + " entries ==="@]
        + views_of(lines@) + seq!["=== cleanup done, has_recoverable="@ + bool_text(recoverable) + " ==="@]);
    join_strings(&all, "\n")
}

/// The files the game's mod manager leaves in the game's directory.
pub fn mod_artifacts() -> (r: Vec<String>)
    ensures
        views_of(r@) == seq!["lightfx.dll"@, "ModManager.dat"@, "PocoFoundation.dll"@],
{
    let r = vec!["lightfx.dll".to_owned(), "ModManager.dat".to_owned(), "PocoFoundation.dll".to_owned()];
    assert(views_of(r@) =~= seq!["lightfx.dll"@, "ModManager.dat"@, "PocoFoundation.dll"@]);
    r
}

/// Whether any of the flags is set.
pub open spec fn any_set(v: Seq<bool>) -> bool {
    exists|i: int| 0 <= i < v.len() && v[i]
}

fn any_of(v: &Vec<bool>) -> (r: bool)
    ensures
        r == any_set(v@),
{
    let mut i: usize = 0;
    while i < v.len()
        invariant
            i <= v@.len(),
            forall|j: int| 0 <= j < i ==> !v@[j],
        decreases v@.len() - i,
    {
        if v[i] {
            return true;
        }
        i = i + 1;
    }
    false
}

/// Whether a cleanup is still pending: `.links` or `modules` is still there, or one of the mod
/// manager's files.
pub fn still_pending(links_exists: bool, modules_exists: bool, artifacts_exist: &Vec<bool>) -> (r: bool)
    ensures
        r == (links_exists || modules_exists || any_set(artifacts_exist@)),
{
    links_exists || modules_exists || any_of(artifacts_exist)
}

/// `has_pending_mod_cleanup`: whether the game directory, where it exists, still holds what a
/// modded session leaves.
pub fn has_pending_mod_cleanup(
    game_exists: bool,
    links_exists: bool,
    modules_exists: bool,
    artifacts_exist: &Vec<bool>,
) -> (r: Result<bool, String>)
    ensures
        r matches Ok(b) && b == (game_exists && (links_exists || modules_exists || any_set(
            artifacts_exist@,
        ))),
{
    if !game_exists {
        return Ok(false);
    }
    Ok(still_pending(links_exists, modules_exists, artifacts_exist))
}

/// The scripts that were not there when the session started (in order).
pub open spec fn added_scripts(names: Seq<Seq<char>>, baseline: Seq<Seq<char>>) -> Seq<Seq<char>>
    decreases names.len(),
{
    if names.len() == 0 {
        Seq::empty()
    } else {
        let rest = added_scripts(names.drop_last(), baseline);
        if baseline.contains(names.last()) {
            rest
        } else {
            rest.push(names.last())
        }
    }
}

/// The scripts to remove after a modded session: those not in the baseline.
pub fn scripts_to_remove(names: &Vec<String>, baseline: &Vec<String>) -> (r: Vec<String>)
    ensures
        views_of(r@) == added_scripts(views_of(names@), views_of(baseline@)),
{
    let ghost nv = views_of(names@);
    let mut r: Vec<String> = Vec::new();
    let mut i: usize = 0;
    assert(views_of(r@) =~= Seq::<Seq<char>>::empty());
    while i < names.len()
        invariant
            i <= names@.len(),
            nv == views_of(names@),
            views_of(r@) == added_scripts(nv.take(i as int), views_of(baseline@)),
        decreases names@.len() - i,
    {
        assert(nv.take(i + 1).drop_last() == nv.take(i as int));
        assert(nv[i as int] == names@[i as int]@);
        if !contains_name(baseline, names[i].as_str()) {
            let n = names[i].clone();
            proof {
                lemma_views_of_push(r@, n);
            }
            r.push(n);
        }
        i = i + 1;
    }
    assert(nv.take(names@.len() as int) == nv);
    r
}

/// A baseline read after it was stored is what was stored.
pub proof fn law_baseline_store_then_get(m: Map<Seq<char>, Seq<Seq<char>>>, key: Seq<char>, names: Seq<Seq<char>>)
    ensures
        m.insert(key, names).contains_key(key),
        m.insert(key, names)[key] == names,
{
}

/// Storing or forgetting one directory's baseline leaves the others as they were.
pub proof fn law_baseline_other_keys(
    m: Map<Seq<char>, Seq<Seq<char>>>,
    key: Seq<char>,
    other: Seq<char>,
    names: Seq<Seq<char>>,
)
    requires
        key != other,
    ensures
        m.insert(key, names).contains_key(other) == m.contains_key(other),
        m.contains_key(other) ==> m.insert(key, names)[other] == m[other],
        m.remove(key).contains_key(other) == m.contains_key(other),
        m.contains_key(other) ==> m.remove(key)[other] == m[other],
{
}

/// A baseline forgotten is not found any more.
pub proof fn law_baseline_clear_then_get(m: Map<Seq<char>, Seq<Seq<char>>>, key: Seq<char>)
    ensures
        !m.remove(key).contains_key(key),
{
}

/// The baselines after a run of operations, each a store (`true`, key, names, as
/// `ScriptsBaselines::store` does) or a clear (`false`, key, as `ScriptsBaselines::clear` does).
pub open spec fn apply_baseline_ops(
    m: Map<Seq<char>, Seq<Seq<char>>>,
    ops: Seq<(bool, Seq<char>, Seq<Seq<char>>)>,
) -> Map<Seq<char>, Seq<Seq<char>>>
    decreases ops.len(),
{
    if ops.len() == 0 {
        m
    } else {
        let before = apply_baseline_ops(m, ops.drop_last());
        let op = ops.last();
        if op.0 {
            before.insert(op.1, op.2)
        } else {
            before.remove(op.1)
        }
    }
}

/// After any run of stores and clears, a directory's baseline is what its last operation left:
/// the names last stored for it, nothing where it was last cleared, and what was there before
/// where no operation touched it.
#[verifier::spinoff_prover]
#[verifier::rlimit(40)]
pub proof fn law_baseline_last_operation_wins(
    m: Map<Seq<char>, Seq<Seq<char>>>,
    ops: Seq<(bool, Seq<char>, Seq<Seq<char>>)>,
    key: Seq<char>,
)
    ensures
        (forall|i: int| 0 <= i < ops.len() ==> (#[trigger] ops[i]).1 != key) ==> (apply_baseline_ops(
            m,
            ops,
        ).contains_key(key) == m.contains_key(key) && (m.contains_key(key) ==> apply_baseline_ops(
            m,
            ops,
        )[key] == m[key])),
        forall|j: int|
            0 <= j < ops.len() && (#[trigger] ops[j]).1 == key && (forall|i: int|
                j < i < ops.len() ==> (#[trigger] ops[i]).1 != key) ==> if ops[j].0 {
                apply_baseline_ops(m, ops).contains_key(key) && apply_baseline_ops(m, ops)[key]
                    == ops[j].2
            } else {
                !apply_baseline_ops(m, ops).contains_key(key)
            },
    decreases ops.len(),
{
    if ops.len() > 0 {
        let init = ops.drop_last();
        law_baseline_last_operation_wins(m, init, key);
        assert forall|i: int| 0 <= i < init.len() implies init[i] == ops[i] by {}
        assert forall|j: int|
            0 <= j < ops.len() && (#[trigger] ops[j]).1 == key && (forall|i: int|
                j < i < ops.len() ==> (#[trigger] ops[i]).1 != key) implies if ops[j].0 {
                apply_baseline_ops(m, ops).contains_key(key) && apply_baseline_ops(m, ops)[key]
                    == ops[j].2
            } else {
                !apply_baseline_ops(m, ops).contains_key(key)
            } by {
            if j < ops.len() - 1 {
                assert(ops[ops.len() - 1].1 != key);
                assert(init[j] == ops[j]);
                assert forall|i: int| j < i < init.len() implies (#[trigger] init[i]).1 != key by {
                    assert(init[i] == ops[i]);
                }
            }
        }
    }
}

/// Every script of the folder that is not in the baseline is removed, and only scripts of the
/// folder are.
pub proof fn law_added_scripts_removed(names: Seq<Seq<char>>, baseline: Seq<Seq<char>>)
    ensures
        forall|i: int| 0 <= i < names.len() && !baseline.contains(#[trigger] names[i]) ==> added_scripts(
            names,
            baseline,
        ).contains(names[i]),
        forall|i: int| 0 <= i < added_scripts(names, baseline).len() ==> names.contains(
            #[trigger] added_scripts(names, baseline)[i],
        ),
    decreases names.len(),
{
    if names.len() > 0 {
        let init = names.drop_last();
        law_added_scripts_removed(init, baseline);
        let rest = added_scripts(init, baseline);
        let r = added_scripts(names, baseline);
        assert forall|i: int| 0 <= i < names.len() && !baseline.contains(#[trigger] names[i]) implies r.contains(names[i]) by {
            if i < init.len() {
                assert(init[i] == names[i]);
                let j = choose|j: int| 0 <= j < rest.len() && rest[j] == init[i];
                if !baseline.contains(names.last()) {
                    assert(r[j] == rest[j]);
                }
            } else {
                assert(r.last() == names.last());
            }
        }
        assert forall|i: int| 0 <= i < r.len() implies names.contains(#[trigger] r[i]) by {
            if i < rest.len() {
                assert(r[i] == rest[i]);
                let j = choose|j: int| 0 <= j < init.len() && init[j] == rest[i];
                assert(names[j] == init[j]);
            } else {
                assert(names[names.len() - 1] == names.last());
            }
        }
    }
}

/// The scripts removed after a session are never ones of the baseline.
pub proof fn law_baseline_scripts_kept(names: Seq<Seq<char>>, baseline: Seq<Seq<char>>)
    ensures
        forall|i: int| 0 <= i < added_scripts(names, baseline).len() ==> !baseline.contains(
            #[trigger] added_scripts(names, baseline)[i],
        ),
    decreases names.len(),
{
    if names.len() > 0 {
        law_baseline_scripts_kept(names.drop_last(), baseline);
        let rest = added_scripts(names.drop_last(), baseline);
        if !baseline.contains(names.last()) {
            assert forall|i: int| 0 <= i < rest.push(names.last()).len() implies !baseline.contains(
                #[trigger] rest.push(names.last())[i],
            ) by {
                if i < rest.len() {
                    assert(rest.push(names.last())[i] == rest[i]);
                }
            }
        }
    }
}

} // verus!
