use vstd::prelude::*;
use crate::digest::hash_string_md5;
use vstd::string::StringSliceAdditionalSpecFns;
use crate::download::trim_slashes;
use crate::num::decimal;
use crate::text::{
    chars_of, eq_ignore_ascii_case, eq_ignore_case_chars, push_str, replace_char,
    replace_char_str, str_eq, trim_end_char_str, views_of,
};

verus! {

broadcast use vstd::string::group_string_axioms;

// ---------------------------------------------------------------------------
// Server mods and ModNet modules
// ---------------------------------------------------------------------------

/// What a server says of its mods (`/Modding/GetModInfo`); each feature is kept as its JSON
/// text.
#[derive(Debug)]
pub struct ModInfo {
    pub base_path: Option<String>,
    pub server_id: Option<String>,
    pub features: Option<Vec<String>>,
}

/// One mod of a server's mod list.
#[derive(Debug)]
pub struct ModListEntry {
    pub name: Option<String>,
    pub checksum: Option<String>,
}

/// A server's mod list (`index.json`).
#[derive(Debug)]
pub struct ModList {
    pub built_at: Option<String>,
    pub entries: Option<Vec<ModListEntry>>,
}

pub open spec fn opt_view(o: Option<String>) -> Option<Seq<char>> {
    match o {
        Some(s) => Some(s@),
        None => None,
    }
}

/// A mod's name as a path of this system: on systems other than Windows, `\` becomes `/`.
pub open spec fn local_name(name: Seq<char>, is_windows: bool) -> Seq<char> {
    if is_windows {
        name
    } else {
        replace_char(name, '\\', seq!['/'])
    }
}

/// `normalize_entry_name`: a mod's name as a path of this system.
pub fn normalize_entry_name(name: &str, is_windows: bool) -> (r: String)
    ensures
        r@ == local_name(name@, is_windows),
{
    if is_windows {
        name.to_owned()
    } else {
        replace_char_str(name, '\\', '/')
    }
}

/// `text.trim_end_matches('/')` followed by `suffix`.
fn trimmed_then(base: &str, suffix: &str) -> (r: String)
    ensures
        r@ == trim_slashes(base@) + suffix@,
{
    let mut r = trim_end_char_str(base, '/');
    push_str(&mut r, suffix);
    r
}

/// The address of a server's mod list.
pub fn mods_index_url(base_path: &str) -> (r: String)
    ensures
        r@ == trim_slashes(base_path@) + "/index.json"@,
{
    trimmed_then(base_path, "/index.json")
}

/// The address of a mod (by its name as the server gives it).
pub fn mod_url(base_path: &str, original_name: &str) -> (r: String)
    ensures
        r@ == trim_slashes(base_path@) + "/"@ + original_name@,
{
    let mut r = trimmed_then(base_path, "/");
    push_str(&mut r, original_name);
    r
}

/// The address of the ModNet module list.
pub fn modules_url(modnet_cdn: &str) -> (r: String)
    ensures
        r@ == trim_slashes(modnet_cdn@) + "/launcher-modules/modules.json"@,
{
    trimmed_then(modnet_cdn, "/launcher-modules/modules.json")
}

/// The address of a ModNet module.
pub fn module_url(modnet_cdn: &str, name: &str) -> (r: String)
    ensures
        r@ == trim_slashes(modnet_cdn@) + "/launcher-modules/"@ + name@,
{
    let mut r = trimmed_then(modnet_cdn, "/launcher-modules/");
    push_str(&mut r, name);
    r
}

/// The name of the temporary file a download is written to: `.{name}.tmp`.
pub fn temp_name(name: &str) -> (r: String)
    ensures
        r@ == "."@ + name@ + ".tmp"@,
{
    let mut r = ".".to_owned();
    push_str(&mut r, name);
    push_str(&mut r, ".tmp");
    r
}

/// The directory name of a server's mod cache: the MD5 of its id, in lower-case hex.
pub fn server_hash(server_id: &str) -> (r: String)
    ensures
        r@ == crate::digest::hex_of(crate::digest::md5_digest(server_id.spec_bytes()), false),
{
    hash_string_md5(server_id)
}

/// What JSON text holds as an object of strings, read by serde_json; where it does not read as
/// one, the text of serde_json's error.
pub uninterp spec fn json_string_map(text: Seq<char>) -> Result<Map<Seq<char>, Seq<char>>, Seq<char>>;

/// Whether the pairs have distinct keys and are exactly the map's entries.
pub open spec fn pairs_are_map(v: Seq<(String, String)>, m: Map<Seq<char>, Seq<char>>) -> bool {
    &&& forall|i: int, j: int| 0 <= i < j < v.len() ==> v[i].0@ != v[j].0@
    &&& forall|i: int| 0 <= i < v.len() ==> m.contains_key(#[trigger] v[i].0@) && m[v[i].0@] == v[i].1@
    &&& forall|k: Seq<char>| #[trigger] m.contains_key(k) ==> exists|i: int| 0 <= i < v.len() && v[i].0@ == k
}

/// `serde_json::from_str::<HashMap<String, String>>` with its entries listed (in the map's own
/// order, which is not stated); the error's text where it fails.
#[verifier::external_body]
fn parse_string_map(text: &str) -> (r: Result<Vec<(String, String)>, String>)
    ensures
        match r {
            Ok(v) => json_string_map(text@) matches Ok(m) && pairs_are_map(v@, m),
            Err(e) => json_string_map(text@) == Err::<Map<Seq<char>, Seq<char>>, Seq<char>>(e@),
        },
{
    match serde_json::from_str::<std::collections::HashMap<String, String>>(text) {
        Ok(m) => Ok(m.into_iter().collect()),
        Err(e) => Err(e.to_string()),
    }
}

/// The ModNet modules (file name, SHA-256) that `modules.json` lists, in no stated order; the
/// error `Failed to parse modules.json: ` and serde_json's message where it is no object of
/// strings.
pub fn parse_modules_json(body: &str) -> (r: Result<Vec<(String, String)>, String>)
    ensures
        match json_string_map(body@) {
            Ok(m) => r matches Ok(v) && pairs_are_map(v@, m),
            Err(e) => r matches Err(t) && t@ == "Failed to parse modules.json: "@ + e,
        },
{
    match parse_string_map(body) {
        Ok(v) => Ok(v),
        Err(e) => {
            let mut m = "Failed to parse modules.json: ".to_owned();
            push_str(&mut m, e.as_str());
            Err(m)
        },
    }
}

/// Whether a module has to be downloaded: it is missing, could not be hashed, or its SHA-256
/// differs from the expected one (letter case aside).
pub open spec fn module_needs(exists: bool, actual: Option<Seq<char>>, expected: Seq<char>) -> bool {
    if !exists {
        true
    } else {
        match actual {
            Some(a) => !eq_ignore_ascii_case(a, expected),
            None => true,
        }
    }
}

pub fn module_needs_update(exists: bool, actual: &Option<String>, expected: &str) -> (r: bool)
    ensures
        r == module_needs(exists, opt_view(*actual), expected@),
{
    if !exists {
        return true;
    }
    match actual {
        Some(a) => {
            let ac = chars_of(a.as_str());
            let ec = chars_of(expected);
            !eq_ignore_case_chars(ac.as_slice(), ec.as_slice())
        },
        None => true,
    }
}

/// The names of the pairs whose flag is set, in order (pairs without a flag are not kept).
pub open spec fn flagged_names(pairs: Seq<(String, String)>, flags: Seq<bool>) -> Seq<Seq<char>>
    decreases pairs.len(),
{
    if pairs.len() == 0 {
        Seq::empty()
    } else {
        let rest = flagged_names(pairs.drop_last(), flags);
        let i = pairs.len() - 1;
        if i < flags.len() && flags[i] {
            rest.push(pairs.last().0@)
        } else {
            rest
        }
    }
}

/// The modules to download: the names of those whose flag says so.
pub fn modules_to_download(modules: &Vec<(String, String)>, needs: &Vec<bool>) -> (r: Vec<String>)
    ensures
        views_of(r@) == flagged_names(modules@, needs@),
{
    let mut r: Vec<String> = Vec::new();
    let mut i: usize = 0;
    assert(views_of(r@) =~= Seq::<Seq<char>>::empty());
    while i < modules.len()
        invariant
            i <= modules@.len(),
            views_of(r@) == flagged_names(modules@.take(i as int), needs@),
        decreases modules@.len() - i,
    {
        assert(modules@.take(i + 1).drop_last() == modules@.take(i as int));
        if i < needs.len() && needs[i] {
            let name = modules[i].0.clone();
            proof {
                crate::text::lemma_views_of_push(r@, name);
            }
            r.push(name);
        }
        i = i + 1;
    }
    assert(modules@.take(modules@.len() as int) == modules@);
    r
}

/// The check of a cached mod: whether to download it, and whether it is a changed one (its
/// SHA-1 differs, letter case aside, or could not be computed). A missing mod is downloaded
/// but not changed; one without a checksum is kept.
pub open spec fn mod_check_spec(exists: bool, expected: Option<Seq<char>>, actual: Option<Seq<char>>) -> (
    bool,
    bool,
) {
    if !exists {
        (true, false)
    } else {
        match expected {
            Some(e) => {
                let mismatch = match actual {
                    Some(a) => !eq_ignore_ascii_case(a, e),
                    None => true,
                };
                (mismatch, mismatch)
            },
            None => (false, false),
        }
    }
}

pub fn mod_check(exists: bool, expected: &Option<String>, actual: &Option<String>) -> (r: (bool, bool))
    ensures
        r == mod_check_spec(exists, opt_view(*expected), opt_view(*actual)),
{
    if !exists {
        return (true, false);
    }
    match expected {
        Some(e) => {
            let mismatch = match actual {
                Some(a) => {
                    let ac = chars_of(a.as_str());
                    let ec = chars_of(e.as_str());
                    !eq_ignore_case_chars(ac.as_slice(), ec.as_slice())
                },
                None => true,
            };
            (mismatch, mismatch)
        },
        None => (false, false),
    }
}

/// A mod's name, empty where the list gives none.
pub open spec fn name_or_empty(e: ModListEntry) -> Seq<char> {
    match e.name {
        Some(n) => n@,
        None => Seq::empty(),
    }
}

/// The mods to download, as (name given by the server, name on this system), for the entries
/// whose check says so, in order; and whether any cached mod changed.
pub open spec fn mods_plan_spec(entries: Seq<ModListEntry>, checks: Seq<(bool, bool)>, is_windows: bool) -> (
    Seq<(Seq<char>, Seq<char>)>,
    bool,
)
    decreases checks.len(),
{
    if checks.len() == 0 {
        (Seq::empty(), false)
    } else {
        let (rest, any) = mods_plan_spec(entries, checks.drop_last(), is_windows);
        let i = checks.len() - 1;
        let (dl, mismatch) = checks.last();
        let original = name_or_empty(entries[i]);
        (
            if dl {
                rest.push((original, local_name(original, is_windows)))
            } else {
                rest
            },
            any || mismatch,
        )
    }
}

pub open spec fn pairs_view(v: Seq<(String, String)>) -> Seq<(Seq<char>, Seq<char>)> {
    Seq::new(v.len(), |i: int| (v[i].0@, v[i].1@))
}

/// The mods to download and whether any cached mod changed, from the checks of the entries.
pub fn mods_plan(entries: &Vec<ModListEntry>, checks: &Vec<(bool, bool)>, is_windows: bool) -> (r: (
    Vec<(String, String)>,
    bool,
))
    requires
        checks@.len() <= entries@.len(),
    ensures
        (pairs_view(r.0@), r.1) == mods_plan_spec(entries@, checks@, is_windows),
{
    let mut out: Vec<(String, String)> = Vec::new();
    let mut any = false;
    let mut i: usize = 0;
    assert(pairs_view(out@) =~= Seq::<(Seq<char>, Seq<char>)>::empty());
    while i < checks.len()
        invariant
            i <= checks@.len(),
            checks@.len() <= entries@.len(),
            (pairs_view(out@), any) == mods_plan_spec(entries@, checks@.take(i as int), is_windows),
        decreases checks@.len() - i,
    {
        assert(checks@.take(i + 1).drop_last() == checks@.take(i as int));
        let (dl, mismatch) = checks[i];
        if dl {
            let original = match &entries[i].name {
                Some(n) => n.clone(),
                None => String::new(),
            };
            let local = normalize_entry_name(original.as_str(), is_windows);
            proof {
                assert(pairs_view(out@.push((original, local))) =~= pairs_view(out@).push(
                    (original@, local@),
                ));
            }
            out.push((original, local));
        }
        if mismatch {
            any = true;
        }
        i = i + 1;
    }
    assert(checks@.take(checks@.len() as int) == checks@);
    (out, any)
}

/// The names (on this system) that the mod list gives, in order; entries without a name are
/// left out.
pub open spec fn expected_names_spec(entries: Seq<ModListEntry>, is_windows: bool) -> Seq<Seq<char>>
    decreases entries.len(),
{
    if entries.len() == 0 {
        Seq::empty()
    } else {
        let rest = expected_names_spec(entries.drop_last(), is_windows);
        match entries.last().name {
            Some(n) => rest.push(local_name(n@, is_windows)),
            None => rest,
        }
    }
}

pub fn expected_mod_names(entries: &Vec<ModListEntry>, is_windows: bool) -> (r: Vec<String>)
    ensures
        views_of(r@) == expected_names_spec(entries@, is_windows),
{
    let mut r: Vec<String> = Vec::new();
    let mut i: usize = 0;
    assert(views_of(r@) =~= Seq::<Seq<char>>::empty());
    while i < entries.len()
        invariant
            i <= entries@.len(),
            views_of(r@) == expected_names_spec(entries@.take(i as int), is_windows),
        decreases entries@.len() - i,
    {
        assert(entries@.take(i + 1).drop_last() == entries@.take(i as int));
        match &entries[i].name {
            Some(n) => {
                let l = normalize_entry_name(n.as_str(), is_windows);
                proof {
                    crate::text::lemma_views_of_push(r@, l);
                }
                r.push(l);
            },
            None => {},
        }
        i = i + 1;
    }
    assert(entries@.take(entries@.len() as int) == entries@);
    r
}

/// Whether `name` is one of `names`.
pub fn contains_name(names: &Vec<String>, name: &str) -> (r: bool)
    ensures
        r == views_of(names@).contains(name@),
{
    let mut i: usize = 0;
    while i < names.len()
        invariant
            i <= names@.len(),
            forall|j: int| 0 <= j < i ==> names@[j]@ != name@,
        decreases names@.len() - i,
    {
        if str_eq(names[i].as_str(), name) {
            assert(views_of(names@)[i as int] == name@);
            return true;
        }
        i = i + 1;
    }
    proof {
        if views_of(names@).contains(name@) {
            let k = choose|k: int| 0 <= k < views_of(names@).len() && #[trigger] views_of(names@)[k] == name@;
            assert(names@[k]@ == name@);
        }
    }
    false
}

/// The error of a mod whose download failed three times.
pub fn mod_failed_text(name: &str, last_err: &str) -> (r: String)
    ensures
        r@ == "mod "@ + name@ + " failed after 3 attempts: "@ + last_err@,
{
    let mut r = "mod ".to_owned();
    push_str(&mut r, name);
    push_str(&mut r, " failed after 3 attempts: ");
    push_str(&mut r, last_err);
    r
}

/// The error of a module whose download failed three times.
pub fn module_failed_text(name: &str, last_err: &str) -> (r: String)
    ensures
        r@ == name@ + " failed after 3 attempts: "@ + last_err@,
{
    let mut r = name.to_owned();
    push_str(&mut r, " failed after 3 attempts: ");
    push_str(&mut r, last_err);
    r
}

/// How long to wait before a retry: nothing before the first attempt, `step_ms` times the
/// attempt's number before the others.
pub fn retry_delay_ms(attempt: u32, step_ms: u64) -> (r: u64)
    requires
        step_ms * attempt <= u64::MAX,
    ensures
        r == step_ms * attempt,
{
    step_ms * (attempt as u64)
}

/// How many times a download is tried before it is given up.
pub const DOWNLOAD_ATTEMPTS: u32 = 3;

/// How many seconds a download may go without data before the attempt counts as stalled.
pub const STALL_SECONDS: u64 = 30;

/// What follows a failed attempt `attempt` (counted from 0) of a download whose retries wait
/// `step_ms` more each time: the wait before the next attempt, or none where the attempts are
/// used up.
pub fn after_failed_attempt(attempt: u32, step_ms: u64) -> (r: Option<u64>)
    requires
        step_ms * DOWNLOAD_ATTEMPTS <= u64::MAX,
    ensures
        attempt + 1 < DOWNLOAD_ATTEMPTS ==> r == Some((step_ms * (attempt + 1)) as u64),
        attempt + 1 >= DOWNLOAD_ATTEMPTS ==> r is None,
{
    if attempt >= DOWNLOAD_ATTEMPTS - 1 {
        None
    } else {
        assert(step_ms * (attempt + 1) <= step_ms * DOWNLOAD_ATTEMPTS) by (nonlinear_arith)
            requires
                attempt + 1 <= DOWNLOAD_ATTEMPTS,
        ;
        Some(retry_delay_ms(attempt + 1, step_ms))
    }
}

/// On systems other than Windows, a mod's local name holds no `\`.
pub proof fn law_local_name_has_no_backslash(name: Seq<char>)
    ensures
        !local_name(name, false).contains('\\'),
{
    assert(!seq!['/'].contains('\\')) by {
        if seq!['/'].contains('\\') {
            assert(seq!['/'][0] == '/');
        }
    }
    crate::text::lemma_replace_char_removes(name, '\\', seq!['/']);
}

} // verus!
