use vstd::prelude::*;
use crate::digest::{hex_of, sha1_digest, sha1_hex_upper};
use crate::num::{decimal, push_decimal, u64_to_string};
use crate::text::{
    contains_seq, join_seq, join_strings, lemma_views_of_push, lines_of, lines_str, push_str,
    replace_char, split_char, split_chars, str_contains, str_eq, string_of, to_lower, trim_set,
    trim_set_chars, trim_str, trim_ws, unicode_lower, views_of,
};

verus! {

broadcast use vstd::string::group_string_axioms;

// ---------------------------------------------------------------------------
// Identifying the machine
// ---------------------------------------------------------------------------

/// What the launcher reads of the machine (with sysinfo) to identify it: the first processor's
/// brand (none where no processor is listed), the number of processors, the host name, the
/// memory, the first disk's name and size, and the system's version, kernel and name.
#[derive(Debug)]
pub struct MachineFacts {
    pub cpu_brand: Option<String>,
    pub cpu_count: usize,
    pub host_name: Option<String>,
    pub total_memory: u64,
    pub first_disk: Option<(String, u64)>,
    pub os_version: Option<String>,
    pub kernel_version: Option<String>,
    pub os_name: Option<String>,
}

pub open spec fn opt_piece(o: Option<String>) -> Seq<Seq<char>> {
    match o {
        Some(s) => seq![s@],
        None => Seq::empty(),
    }
}

pub open spec fn cpu_pieces(f: MachineFacts) -> Seq<Seq<char>> {
    match f.cpu_brand {
        Some(b) => seq![b@, decimal(f.cpu_count as nat)],
        None => Seq::empty(),
    }
}

/// The facts the machine id is made of: processor and number of processors, host name, memory,
/// first disk's name and size, system version (each where known).
pub open spec fn hwid_pieces(f: MachineFacts) -> Seq<Seq<char>> {
    cpu_pieces(f) + opt_piece(f.host_name) + seq![decimal(f.total_memory as nat)] + match f.first_disk {
        Some(d) => seq![d.0@, decimal(d.1 as nat)],
        None => Seq::empty(),
    } + opt_piece(f.os_version)
}

/// The facts the hidden machine id is made of: processor and number of processors, host name,
/// memory, kernel version, system name and version (each where known).
pub open spec fn hidden_hwid_pieces(f: MachineFacts) -> Seq<Seq<char>> {
    cpu_pieces(f) + opt_piece(f.host_name) + seq![decimal(f.total_memory as nat)] + opt_piece(
        f.kernel_version,
    ) + opt_piece(f.os_name) + opt_piece(f.os_version)
}

/// An id: the upper-case hex SHA-1 of the pieces joined by `|`.
pub open spec fn id_of(pieces: Seq<Seq<char>>) -> Seq<char> {
    hex_of(sha1_digest(vstd::utf8::encode_utf8(join_seq(pieces, "|"@))), true)
}

fn push_piece(v: &mut Vec<String>, s: String)
    ensures
        views_of(final(v)@) == views_of(old(v)@).push(s@),
{
    proof {
        lemma_views_of_push(v@, s);
    }
    v.push(s);
}

fn push_opt(v: &mut Vec<String>, o: &Option<String>)
    ensures
        views_of(final(v)@) == views_of(old(v)@) + opt_piece(*o),
{
    match o {
        Some(s) => {
            push_piece(v, s.clone());
            assert(views_of(final(v)@) =~= views_of(old(v)@) + opt_piece(*o));
        },
        None => {
            assert(views_of(v@) =~= views_of(v@) + opt_piece(*o));
        },
    }
}

fn push_cpu(v: &mut Vec<String>, f: &MachineFacts)
    ensures
        views_of(final(v)@) == views_of(old(v)@) + cpu_pieces(*f),
{
    match &f.cpu_brand {
        Some(b) => {
            push_piece(v, b.clone());
            push_piece(v, u64_to_string(f.cpu_count as u64));
            assert(views_of(final(v)@) =~= views_of(old(v)@) + cpu_pieces(*f));
        },
        None => {
            assert(views_of(v@) =~= views_of(v@) + cpu_pieces(*f));
        },
    }
}

fn id_from(v: &Vec<String>) -> (r: String)
    ensures
        r@ == id_of(views_of(v@)),
        is_id_text(r@),
{
    let combined = join_strings(v, "|");
    sha1_hex_upper(combined.as_str().as_bytes())
}

/// An id's text: 40 digits, each `0`-`9` or `A`-`F`.
pub open spec fn is_id_text(s: Seq<char>) -> bool {
    s.len() == 40 && forall|i: int| 0 <= i < s.len() ==> crate::digest::is_upper_hex(#[trigger] s[i])
}

/// `generate_hwid`: the machine id.
pub fn generate_hwid(f: &MachineFacts) -> (r: String)
    ensures
        r@ == id_of(hwid_pieces(*f)),
        is_id_text(r@),
{
    let mut v: Vec<String> = Vec::new();
    assert(views_of(v@) =~= Seq::<Seq<char>>::empty());
    push_cpu(&mut v, f);
    push_opt(&mut v, &f.host_name);
    push_piece(&mut v, u64_to_string(f.total_memory));
    match &f.first_disk {
        Some(d) => {
            push_piece(&mut v, d.0.clone());
            push_piece(&mut v, u64_to_string(d.1));
        },
        None => {},
    }
    push_opt(&mut v, &f.os_version);
    assert(views_of(v@) =~= hwid_pieces(*f));
    id_from(&v)
}

/// `generate_hidden_hwid`: the hidden machine id.
pub fn generate_hidden_hwid(f: &MachineFacts) -> (r: String)
    ensures
        r@ == id_of(hidden_hwid_pieces(*f)),
        is_id_text(r@),
{
    let mut v: Vec<String> = Vec::new();
    assert(views_of(v@) =~= Seq::<Seq<char>>::empty());
    push_cpu(&mut v, f);
    push_opt(&mut v, &f.host_name);
    push_piece(&mut v, u64_to_string(f.total_memory));
    push_opt(&mut v, &f.kernel_version);
    push_opt(&mut v, &f.os_name);
    push_opt(&mut v, &f.os_version);
    assert(views_of(v@) =~= hidden_hwid_pieces(*f));
    id_from(&v)
}

/// One call of an id computed once: the id kept in the cache where there is one, else the id
/// computed now, which the cache then keeps. Gives the id and the cache after the call.
pub open spec fn id_call(cache: Option<Seq<char>>, computed: Seq<char>) -> (Seq<char>, Option<Seq<char>>) {
    match cache {
        Some(h) => (h, cache),
        None => (computed, Some(computed)),
    }
}

/// The ids that successive calls give, from the cache `cache`, where call `i` would compute
/// `computed[i]` (the machine may be described differently at each call).
pub open spec fn id_results(cache: Option<Seq<char>>, computed: Seq<Seq<char>>) -> Seq<Seq<char>>
    decreases computed.len(),
{
    if computed.len() == 0 {
        Seq::empty()
    } else {
        let (r, after) = id_call(cache, computed[0]);
        seq![r] + id_results(after, computed.drop_first())
    }
}

proof fn lemma_id_results_kept(h: Seq<char>, computed: Seq<Seq<char>>)
    ensures
        id_results(Some(h), computed).len() == computed.len(),
        forall|i: int| 0 <= i < computed.len() ==> #[trigger] id_results(Some(h), computed)[i] == h,
    decreases computed.len(),
{
    if computed.len() > 0 {
        lemma_id_results_kept(h, computed.drop_first());
    }
}

/// An id is computed once: from an empty cache, every call gives what the first call computed.
pub proof fn law_id_computed_once(computed: Seq<Seq<char>>)
    ensures
        id_results(None, computed).len() == computed.len(),
        forall|i: int| 0 <= i < computed.len() ==> #[trigger] id_results(None, computed)[i] == computed[0],
{
    if computed.len() > 0 {
        lemma_id_results_kept(computed[0], computed.drop_first());
        assert forall|i: int| 0 <= i < computed.len() implies #[trigger] id_results(None, computed)[i] == computed[0] by {
            if i > 0 {
                assert(id_results(None, computed)[i] == id_results(Some(computed[0]), computed.drop_first())[i - 1]);
            }
        }
    }
}

/// The text of an optional id.
pub open spec fn cache_view(c: Option<String>) -> Option<Seq<char>> {
    match c {
        Some(h) => Some(h@),
        None => None,
    }
}

/// `get_hwid`: the machine id, computed once: the first call keeps it in `cache`, later calls
/// give what is kept.
pub fn get_hwid(cache: &mut Option<String>, f: &MachineFacts) -> (r: String)
    ensures
        match *old(cache) {
            Some(h) => r == h && *final(cache) == *old(cache),
            None => r@ == id_of(hwid_pieces(*f)) && is_id_text(r@) && *final(cache) == Some(r),
        },
        (r@, cache_view(*final(cache))) == id_call(cache_view(*old(cache)), id_of(hwid_pieces(*f))),
{
    match cache {
        Some(h) => h.clone(),
        None => {
            let h = generate_hwid(f);
            *cache = Some(h.clone());
            h
        },
    }
}

/// `get_hidden_hwid`: the hidden machine id, computed once.
pub fn get_hidden_hwid(cache: &mut Option<String>, f: &MachineFacts) -> (r: String)
    ensures
        match *old(cache) {
            Some(h) => r == h && *final(cache) == *old(cache),
            None => r@ == id_of(hidden_hwid_pieces(*f)) && is_id_text(r@) && *final(cache) == Some(r),
        },
        (r@, cache_view(*final(cache))) == id_call(
            cache_view(*old(cache)),
            id_of(hidden_hwid_pieces(*f)),
        ),
{
    match cache {
        Some(h) => h.clone(),
        None => {
            let h = generate_hidden_hwid(f);
            *cache = Some(h.clone());
            h
        },
    }
}

// ---------------------------------------------------------------------------
// The system's description
// ---------------------------------------------------------------------------

/// The first line containing `key`, if any.
pub open spec fn first_line_with(lines: Seq<Seq<char>>, key: Seq<char>) -> Option<Seq<char>>
    decreases lines.len(),
{
    if lines.len() == 0 {
        None
    } else if contains_seq(lines[0], key) {
        Some(lines[0])
    } else {
        first_line_with(lines.drop_first(), key)
    }
}

/// The value of a `"key": value,` line of PowerShell's JSON: what follows the first `:` up to
/// the next, trimmed of whitespace and then of `"`, `,` and spaces.
pub open spec fn json_line_value(line: Seq<char>) -> Option<Seq<char>> {
    let pieces = split_char(line, ':');
    if pieces.len() > 1 {
        Some(trim_set(trim_ws(pieces[1]), seq!['"', ',', ' ']))
    } else {
        None
    }
}

/// The value of the first line with `key`, else `Unknown`.
pub open spec fn gpu_field(lines: Seq<Seq<char>>, key: Seq<char>) -> Seq<char> {
    match first_line_with(lines, key) {
        Some(l) => match json_line_value(l) {
            Some(v) => v,
            None => "Unknown"@,
        },
        None => "Unknown"@,
    }
}

fn gpu_field_exec(lines: &Vec<String>, key: &str) -> (r: String)
    ensures
        r@ == gpu_field(views_of(lines@), key@),
{
    let ghost lv = views_of(lines@);
    let mut i: usize = 0;
    assert(lv.skip(0) == lv);
    while i < lines.len()
        invariant
            i <= lines@.len(),
            lv == views_of(lines@),
            first_line_with(lv, key@) == first_line_with(lv.skip(i as int), key@),
        decreases lines@.len() - i,
    {
        assert(lv.skip(i as int)[0] == lines@[i as int]@);
        assert(lv.skip(i as int).drop_first() == lv.skip(i + 1));
        if str_contains(lines[i].as_str(), key) {
            let cs = crate::text::chars_of(lines[i].as_str());
            let pieces = split_chars(cs.as_slice(), ':');
            if pieces.len() > 1 {
                let t = trim_str(string_of(pieces[1].as_slice()).as_str());
                let tc = crate::text::chars_of(t.as_str());
                let set = vec!['"', ',', ' '];
                assert(set@ == seq!['"', ',', ' ']);
                let v = trim_set_chars(tc.as_slice(), set.as_slice());
                return string_of(v.as_slice());
            }
            return "Unknown".to_owned();
        }
        i = i + 1;
    }
    assert(lv.skip(lines@.len() as int) =~= Seq::<Seq<char>>::empty());
    "Unknown".to_owned()
}

/// `get_gpu_info`: the graphics card's name and driver version, read from the JSON that
/// PowerShell printed (`output`, none where it could not run or failed); `N/A` off Windows.
pub fn get_gpu_info(is_windows: bool, output: &Option<String>) -> (r: (String, String))
    ensures
        !is_windows ==> r.0@ == "N/A"@ && r.1@ == "N/A"@,
        is_windows && output is None ==> r.0@ == "Unknown"@ && r.1@ == "Unknown"@,
        is_windows && output is Some ==> r.0@ == gpu_field(lines_of(output->0@), "\"Name\""@)
            && r.1@ == gpu_field(lines_of(output->0@), "\"DriverVersion\""@),
{
    if !is_windows {
        return ("N/A".to_owned(), "N/A".to_owned());
    }
    match output {
        None => ("Unknown".to_owned(), "Unknown".to_owned()),
        Some(out) => {
            let lines = lines_str(out.as_str());
            let name = gpu_field_exec(&lines, "\"Name\"");
            let driver = gpu_field_exec(&lines, "\"DriverVersion\"");
            (name, driver)
        },
    }
}

/// A description of the system.
#[derive(Debug)]
pub struct SystemInfo {
    pub os_name: String,
    pub os_version: String,
    pub kernel_version: String,
    pub hostname: String,
    pub cpu_brand: String,
    pub cpu_cores: usize,
    pub total_memory: u64,
    pub used_memory: u64,
    pub total_swap: u64,
    pub used_swap: u64,
    pub gpu_name: String,
    pub gpu_driver: String,
    pub disk_free: u64,
    pub disk_total: u64,
    pub disk_kind: String,
}

/// Whether a mount point is the system's: `C:\`, `C:/` or `/`.
pub open spec fn is_system_mount(m: Seq<char>) -> bool {
    m == "C:\\"@ || m == "C:/"@ || m == "/"@
}

/// The disk described: the first whose mount point is the system's, else the first (none
/// where there is no disk).
pub fn choose_disk(mounts: &Vec<String>) -> (r: Option<usize>)
    ensures
        match r {
            Some(i) => i < mounts@.len() && (if exists|k: int| 0 <= k < mounts@.len() && is_system_mount(#[trigger] views_of(mounts@)[k]) {
                is_system_mount(mounts@[i as int]@) && forall|j: int| 0 <= j < i ==> !is_system_mount(#[trigger] views_of(mounts@)[j])
            } else {
                i == 0
            }),
            None => mounts@.len() == 0,
        },
{
    let mut i: usize = 0;
    while i < mounts.len()
        invariant
            i <= mounts@.len(),
            forall|j: int| 0 <= j < i ==> !is_system_mount(#[trigger] views_of(mounts@)[j]),
        decreases mounts@.len() - i,
    {
        let m = mounts[i].as_str();
        if str_eq(m, "C:\\") || str_eq(m, "C:/") || str_eq(m, "/") {
            assert(is_system_mount(views_of(mounts@)[i as int]));
            return Some(i);
        }
        assert(!is_system_mount(views_of(mounts@)[i as int]));
        i = i + 1;
    }
    if mounts.len() > 0 {
        Some(0)
    } else {
        None
    }
}

/// `value`, or `Unknown` where it is not known.
pub fn or_unknown(value: Option<String>) -> (r: String)
    ensures
        r@ == (match value {
            Some(v) => v@,
            None => "Unknown"@,
        }),
{
    match value {
        Some(v) => v,
        None => "Unknown".to_owned(),
    }
}

// ---------------------------------------------------------------------------
// PowerShell, the firewall and Windows Defender
// ---------------------------------------------------------------------------

/// `ps_escape`: a text quoted for PowerShell's single quotes (each `'` doubled).
pub fn ps_escape(s: &str) -> (r: String)
    ensures
        r@ == replace_char(s@, '\'', "''"@),
{
    let cs = crate::text::chars_of(s);
    let q = crate::text::chars_of("''");
    let out = crate::text::replace_char_chars(cs.as_slice(), '\'', q.as_slice());
    string_of(out.as_slice())
}

/// What a PowerShell command gives: its output, trimmed, where it succeeded; else its error
/// output, trimmed, or its output where there was no error output.
pub fn powershell_result(success: bool, stdout: &str, stderr: &str) -> (r: Result<String, String>)
    ensures
        success ==> (r matches Ok(o) && o@ == trim_ws(stdout@)),
        !success ==> (r matches Err(e) && e@ == (if trim_ws(stderr@).len() > 0 {
            trim_ws(stderr@)
        } else {
            trim_ws(stdout@)
        })),
{
    if success {
        Ok(trim_str(stdout))
    } else {
        let err = trim_str(stderr);
        let out = trim_str(stdout);
        Err(
            if !err.as_str().is_empty() {
                err
            } else {
                out
            },
        )
    }
}

/// Whether the launcher's and the game's firewall rules exist.
#[derive(Debug)]
pub struct FirewallRulesStatus {
    pub has_launcher: bool,
    pub has_game: bool,
}

/// Whether Windows Defender leaves the launcher's and the game's directories alone.
#[derive(Debug)]
pub struct DefenderExclusionsStatus {
    pub has_launcher: bool,
    pub has_game: bool,
}

/// Whether the launcher may write in its own and in the game's directory.
#[derive(Debug)]
pub struct FolderPermissionsStatus {
    pub launcher_ok: bool,
    pub game_ok: bool,
}

pub const FW_RULE_LAUNCHER: &'static str = "SBRW Launcher";

pub const FW_RULE_GAME: &'static str = "SBRW Game";

/// The `name=` argument of netsh for a rule.
pub fn rule_name_arg(rule_name: &str) -> (r: String)
    ensures
        r@ == "name="@ + rule_name@,
{
    let mut r = "name=".to_owned();
    push_str(&mut r, rule_name);
    r
}

/// `fw_rule_exists`: whether netsh showed the rule: it succeeded and did not say that no rule
/// matches (`outcome` is its success and output; none where it could not run).
pub fn fw_rule_exists(outcome: &Option<(bool, String)>) -> (r: bool)
    ensures
        r == (match outcome {
            Some(o) => o.0 && !contains_seq(o.1@, "No rules match"@),
            None => false,
        }),
{
    match outcome {
        Some(o) => o.0 && !str_contains(o.1.as_str(), "No rules match"),
        None => false,
    }
}

/// The arguments of netsh that add a rule for `program`, for the direction `dir`.
pub fn fw_add_rule_args(rule_name: &str, program: &str, dir: &str) -> (r: Vec<String>)
    ensures
        views_of(r@) == seq![
            "advfirewall"@,
            "firewall"@,
            "add"@,
            "rule"@,
            "name="@ + rule_name@,
            "dir="@ + dir@,
            "action=allow"@,
            "program="@ + program@,
            "protocol=any"@,
            "enable=yes"@,
            "profile=any"@,
        ],
{
    let mut d = "dir=".to_owned();
    push_str(&mut d, dir);
    let mut p = "program=".to_owned();
    push_str(&mut p, program);
    let r = vec![
        "advfirewall".to_owned(),
        "firewall".to_owned(),
        "add".to_owned(),
        "rule".to_owned(),
        rule_name_arg(rule_name),
        d,
        "action=allow".to_owned(),
        p,
        "protocol=any".to_owned(),
        "enable=yes".to_owned(),
        "profile=any".to_owned(),
    ];
    assert(views_of(r@) =~= seq![
        "advfirewall"@,
        "firewall"@,
        "add"@,
        "rule"@,
        "name="@ + rule_name@,
        "dir="@ + dir@,
        "action=allow"@,
        "program="@ + program@,
        "protocol=any"@,
        "enable=yes"@,
        "profile=any"@,
    ]);
    r
}

/// What adding a rule in one direction gave: success, also where netsh failed but said the
/// rule is already there; else `netsh add rule failed: ` and its output, trimmed.
pub fn fw_add_rule_result(success: bool, stdout: &str) -> (r: Result<(), String>)
    ensures
        (success || contains_seq(unicode_lower(stdout@), "already"@)) ==> r is Ok,
        !(success || contains_seq(unicode_lower(stdout@), "already"@)) ==> (r matches Err(e) && e@
            == "netsh add rule failed: "@ + trim_ws(stdout@)),
{
    if success {
        return Ok(());
    }
    let lower = to_lower(stdout);
    if str_contains(lower.as_str(), "already") {
        Ok(())
    } else {
        let mut e = "netsh add rule failed: ".to_owned();
        let t = trim_str(stdout);
        push_str(&mut e, t.as_str());
        Err(e)
    }
}

/// Which of the launcher and the game a request is about: `launcher`, `game`, or both.
pub open spec fn targets(which: Seq<char>) -> (bool, bool) {
    if which == "launcher"@ {
        (true, false)
    } else if which == "game"@ {
        (false, true)
    } else {
        (true, true)
    }
}

pub fn which_targets(which: &str) -> (r: (bool, bool))
    ensures
        r == targets(which@),
{
    if str_eq(which, "launcher") {
        (true, false)
    } else if str_eq(which, "game") {
        (false, true)
    } else {
        (true, true)
    }
}

/// The directories a Defender request is about, in order: the launcher's, then the game's.
pub fn defender_paths(which: &str, launcher_dir: &str, game_path: &str) -> (r: Vec<String>)
    ensures
        views_of(r@) == (if which@ == "launcher"@ {
            seq![launcher_dir@]
        } else if which@ == "game"@ {
            seq![game_path@]
        } else {
            seq![launcher_dir@, game_path@]
        }),
{
    let r = if str_eq(which, "launcher") {
        vec![launcher_dir.to_owned()]
    } else if str_eq(which, "game") {
        vec![game_path.to_owned()]
    } else {
        vec![launcher_dir.to_owned(), game_path.to_owned()]
    };
    assert(views_of(r@) =~= (if which@ == "launcher"@ {
        seq![launcher_dir@]
    } else if which@ == "game"@ {
        seq![game_path@]
    } else {
        seq![launcher_dir@, game_path@]
    }));
    r
}

/// The PowerShell command that adds (or removes) a Defender exclusion for `path`.
pub fn defender_command(add: bool, path: &str) -> (r: String)
    ensures
        r@ == (if add {
            "Add-MpPreference"@
        } else {
            "Remove-MpPreference"@
        }) + " -ExclusionPath '"@ + replace_char(path@, '\'', "''"@) + "' -Force"@,
{
    let mut r = if add {
        "Add-MpPreference".to_owned()
    } else {
        "Remove-MpPreference".to_owned()
    };
    push_str(&mut r, " -ExclusionPath '");
    let e = ps_escape(path);
    push_str(&mut r, e.as_str());
    push_str(&mut r, "' -Force");
    r
}

/// Whether Defender's exclusions (`output`, one per line) name the launcher's and the game's
/// directories, letter case aside (an empty directory is never named).
pub fn defender_status(launcher_dir: &str, game_path: &str, output: &str) -> (r: DefenderExclusionsStatus)
    ensures
        r.has_launcher == (unicode_lower(launcher_dir@).len() > 0 && contains_seq(
            unicode_lower(output@),
            unicode_lower(launcher_dir@),
        )),
        r.has_game == (unicode_lower(game_path@).len() > 0 && contains_seq(
            unicode_lower(output@),
            unicode_lower(game_path@),
        )),
{
    let ld = to_lower(launcher_dir);
    let gl = to_lower(game_path);
    let out = to_lower(output);
    DefenderExclusionsStatus {
        has_launcher: !ld.as_str().is_empty() && str_contains(out.as_str(), ld.as_str()),
        has_game: !gl.as_str().is_empty() && str_contains(out.as_str(), gl.as_str()),
    }
}

/// The `icacls` grant for the user: full control, inherited by files and directories.
pub fn icacls_grant(username: &str) -> (r: String)
    ensures
        r@ == username@ + ":(OI)(CI)F"@,
{
    let mut r = username.to_owned();
    push_str(&mut r, ":(OI)(CI)F");
    r
}

// ---------------------------------------------------------------------------
// DXVK
// ---------------------------------------------------------------------------

/// Whether DXVK is installed (its marker file is there) and which version the marker names.
#[derive(Debug)]
pub struct DxvkStatus {
    pub installed: bool,
    pub version: Option<String>,
}

/// The status from the marker: absent (`None`), or present with its text where it could be
/// read (the version is that text, trimmed).
pub fn dxvk_status(marker: &Option<Option<String>>) -> (r: DxvkStatus)
    ensures
        match marker {
            None => !r.installed && r.version is None,
            Some(None) => r.installed && r.version is None,
            Some(Some(t)) => r.installed && (r.version matches Some(v) && v@ == trim_ws(t@)),
        },
{
    match marker {
        None => DxvkStatus { installed: false, version: None },
        Some(None) => DxvkStatus { installed: true, version: None },
        Some(Some(t)) => DxvkStatus { installed: true, version: Some(trim_str(t.as_str())) },
    }
}

/// What removing DXVK does with `d3d9.dll`: put the backup back, remove DXVK's copy, or
/// nothing.
#[derive(Debug, PartialEq, Eq, Structural, Clone, Copy)]
pub enum DxvkRemoval {
    RestoreBackup,
    RemoveDll,
    Nothing,
}

pub fn dxvk_removal(backup_exists: bool, dll_exists: bool) -> (r: DxvkRemoval)
    ensures
        r == (if backup_exists {
            DxvkRemoval::RestoreBackup
        } else if dll_exists {
            DxvkRemoval::RemoveDll
        } else {
            DxvkRemoval::Nothing
        }),
{
    if backup_exists {
        DxvkRemoval::RestoreBackup
    } else if dll_exists {
        DxvkRemoval::RemoveDll
    } else {
        DxvkRemoval::Nothing
    }
}

/// The PowerShell script that installs DXVK into the game's directory (quoted for PowerShell).
pub fn dxvk_install_script(game_path: &str) -> (r: String)
    ensures
        r@ == DXVK_PRE@ + replace_char(game_path@, '\'', "''"@) + DXVK_POST@,
{
    let mut r = DXVK_PRE.to_owned();
    let e = ps_escape(game_path);
    push_str(&mut r, e.as_str());
    push_str(&mut r, DXVK_POST);
    r
}

pub const DXVK_PRE: &'static str = "\n$ErrorActionPreference = 'Stop'\n$version = '2.4'\n$url = 'https://github.com/doitsujin/dxvk/releases/download/v2.4/dxvk-2.4.tar.gz'\n$tmp  = $env:TEMP\n$tar  = Join-Path $tmp 'dxvk_install.tar.gz'\n$dir  = Join-Path $tmp 'dxvk_extract'\n$game = '";

pub const DXVK_POST: &'static str = "'\n\n[Net.ServicePointManager]::SecurityProtocol = [Net.SecurityProtocolType]::Tls12\nWrite-Host \"[DXVK] Downloading...\"\nInvoke-WebRequest -Uri $url -OutFile $tar -UseBasicParsing\n\nif (Test-Path $dir) { Remove-Item $dir -Recurse -Force }\nNew-Item -ItemType Directory -Path $dir | Out-Null\n\nWrite-Host \"[DXVK] Extracting...\"\n$tarExe = \"$env:SystemRoot\\System32\\tar.exe\"\nif (-not (Test-Path $tarExe)) { throw \"tar.exe not found (requires Windows 10 1803+)\" }\n& $tarExe -xzf $tar -C $dir\nif ($LASTEXITCODE -ne 0) { throw \"tar extraction failed (code $LASTEXITCODE)\" }\n\n$dllSrc = Join-Path $dir \"dxvk-$version\\x32\\d3d9.dll\"\nif (-not (Test-Path $dllSrc)) { throw \"x32/d3d9.dll not found in archive at $dllSrc\" }\n\n$dllDst = Join-Path $game 'd3d9.dll'\n$dllBak = Join-Path $game 'd3d9.dll.bak'\n\nif ((Test-Path $dllDst) -and -not (Test-Path $dllBak)) {\n    try {\n        # Force OneDrive Files-on-Demand hydration by reading the file first\n        $null = [System.IO.File]::ReadAllBytes($dllDst)\n        Copy-Item $dllDst $dllBak -Force\n        Write-Host \"[DXVK] Backed up original d3d9.dll\"\n    } catch {\n        Write-Host \"[DXVK] Warning: could not back up original d3d9.dll (skipping): $_\"\n    }\n}\n\nCopy-Item $dllSrc $dllDst -Force\nWrite-Host \"[DXVK] Installed d3d9.dll\"\n\n\"$version\" | Out-File -FilePath (Join-Path $game '.dxvk_installed') -Encoding utf8 -NoNewline\n\nRemove-Item $tar  -Force -ErrorAction SilentlyContinue\nRemove-Item $dir  -Recurse -Force -ErrorAction SilentlyContinue\nWrite-Host \"[DXVK] Done\"\n";

// ---------------------------------------------------------------------------
// Updates of the launcher
// ---------------------------------------------------------------------------

/// What the update server says of the latest launcher.
#[derive(Debug)]
pub struct UpdateInfo {
    pub version: String,
    pub exe: String,
    pub publish_date: String,
    pub product_name: String,
}

/// A version part as a number, 0 where it is none.
pub open spec fn part_value(p: Seq<char>) -> u32 {
    match crate::num::parse_unsigned_spec(p, u32::MAX as int) {
        Some(v) => v as u32,
        None => 0,
    }
}

/// `parse_semver`: the first three parts of a dotted version, each 0 where missing or no
/// number.
pub open spec fn semver(v: Seq<char>) -> (u32, u32, u32) {
    let parts = split_char(v, '.');
    (
        part_value(parts[0]),
        if parts.len() > 1 {
            part_value(parts[1])
        } else {
            0
        },
        if parts.len() > 2 {
            part_value(parts[2])
        } else {
            0
        },
    )
}

fn part_value_exec(p: &Vec<char>) -> (r: u32)
    ensures
        r == part_value(p@),
{
    match crate::num::parse_unsigned(p.as_slice(), 4294967295) {
        Some(v) => v as u32,
        None => 0,
    }
}

pub fn parse_semver(v: &str) -> (r: (u32, u32, u32))
    ensures
        r == semver(v@),
{
    let cs = crate::text::chars_of(v);
    let parts = split_chars(cs.as_slice(), '.');
    proof {
        crate::text::lemma_split_nonempty(cs@, '.');
    }
    let a = part_value_exec(&parts[0]);
    let b = if parts.len() > 1 {
        part_value_exec(&parts[1])
    } else {
        0
    };
    let c = if parts.len() > 2 {
        part_value_exec(&parts[2])
    } else {
        0
    };
    (a, b, c)
}

/// A version written as `major.minor.patch` reads as those three numbers, in that order.
pub proof fn law_semver_reads_parts(x: u32, y: u32, z: u32)
    ensures
        semver(decimal(x as nat) + "."@ + decimal(y as nat) + "."@ + decimal(z as nat)) == (x, y, z),
{
    reveal_strlit(".");
    let a = decimal(x as nat);
    let b = decimal(y as nat);
    let c = decimal(z as nat);
    crate::num::lemma_decimal_digits(x as nat);
    crate::num::lemma_decimal_digits(y as nat);
    crate::num::lemma_decimal_digits(z as nat);
    assert forall|i: int| 0 <= i < a.len() implies a[i] != '.' by { assert(crate::num::is_digit(a[i])); }
    assert forall|i: int| 0 <= i < b.len() implies b[i] != '.' by { assert(crate::num::is_digit(b[i])); }
    assert forall|i: int| 0 <= i < c.len() implies c[i] != '.' by { assert(crate::num::is_digit(c[i])); }
    crate::text::lemma_split_no_sep(a, '.');
    crate::text::lemma_split_no_sep(b, '.');
    crate::text::lemma_split_no_sep(c, '.');
    let bc = b + seq!['.'] + c;
    crate::text::lemma_split_joined(b, c, '.');
    crate::text::lemma_split_joined(a, bc, '.');
    assert(a + "."@ + b + "."@ + c =~= a + seq!['.'] + bc);
    let parts = split_char(a + seq!['.'] + bc, '.');
    assert(parts =~= seq![a, b, c]);
    crate::num::law_unsigned_text_roundtrip(x as u64, u32::MAX as int);
    crate::num::law_unsigned_text_roundtrip(y as u64, u32::MAX as int);
    crate::num::law_unsigned_text_roundtrip(z as u64, u32::MAX as int);
}

/// Whether version `a` comes after `b` (part by part).
pub open spec fn newer(a: (u32, u32, u32), b: (u32, u32, u32)) -> bool {
    a.0 > b.0 || (a.0 == b.0 && (a.1 > b.1 || (a.1 == b.1 && a.2 > b.2)))
}

/// `check_for_updates`: the update, where its version is newer than `current`.
pub fn update_if_newer(info: UpdateInfo, current: &str) -> (r: Option<UpdateInfo>)
    ensures
        newer(semver(info.version@), semver(current@)) ==> r == Some(info),
        !newer(semver(info.version@), semver(current@)) ==> r is None,
{
    let remote = parse_semver(info.version.as_str());
    let local = parse_semver(current);
    if remote.0 > local.0 || (remote.0 == local.0 && (remote.1 > local.1 || (remote.1 == local.1
        && remote.2 > local.2))) {
        Some(info)
    } else {
        None
    }
}

// ---------------------------------------------------------------------------
// Requests to the servers
// ---------------------------------------------------------------------------

/// A server's answer: its status and body.
#[derive(Debug)]
pub struct FetchResponse {
    pub status: u16,
    pub body: String,
}

/// The methods a request of the interface can use.
#[derive(Debug, PartialEq, Eq, Structural, Clone, Copy)]
pub enum FetchMethod {
    Get,
    Post,
    Put,
    Delete,
    Head,
}

/// The method of a request: the one named (letter case aside), `GET` where none or another is
/// named.
pub fn fetch_method(method: &Option<String>) -> (r: FetchMethod)
    ensures
        ({
            let m = match method {
                Some(m) => unicode_upper_of(m@),
                None => "GET"@,
            };
            r == (if m == "POST"@ {
                FetchMethod::Post
            } else if m == "PUT"@ {
                FetchMethod::Put
            } else if m == "DELETE"@ {
                FetchMethod::Delete
            } else if m == "HEAD"@ {
                FetchMethod::Head
            } else {
                FetchMethod::Get
            })
        }),
{
    let m = match method {
        Some(m) => crate::text::to_upper(m.as_str()),
        None => "GET".to_owned(),
    };
    let ms = m.as_str();
    if str_eq(ms, "POST") {
        FetchMethod::Post
    } else if str_eq(ms, "PUT") {
        FetchMethod::Put
    } else if str_eq(ms, "DELETE") {
        FetchMethod::Delete
    } else if str_eq(ms, "HEAD") {
        FetchMethod::Head
    } else {
        FetchMethod::Get
    }
}

pub open spec fn unicode_upper_of(s: Seq<char>) -> Seq<char> {
    crate::text::unicode_upper(s)
}

/// The headers every request of the interface carries: the launcher's names, its hash, the
/// machine ids, and empty certificate and Discord id.
pub fn launcher_headers(hwid: &str, hidden_hwid: &str) -> (r: Vec<(String, String)>)
    ensures
        r@.len() == 6,
        r@[0].0@ == "X-UserAgent"@ && r@[0].1@ == "GameLauncherReborn 2.2.4"@,
        r@[1].0@ == "X-GameLauncherHash"@ && r@[1].1@ == "1DF8911B158CD1DF88BF95AE21ABA20AA84B4AE6"@,
        r@[2].0@ == "X-HWID"@ && r@[2].1@ == hwid@,
        r@[3].0@ == "X-HiddenHWID"@ && r@[3].1@ == hidden_hwid@,
        r@[4].0@ == "X-GameLauncherCertificate"@ && r@[4].1@ == ""@,
        r@[5].0@ == "X-DiscordID"@ && r@[5].1@ == ""@,
{
    vec![
        ("X-UserAgent".to_owned(), "GameLauncherReborn 2.2.4".to_owned()),
        ("X-GameLauncherHash".to_owned(), "1DF8911B158CD1DF88BF95AE21ABA20AA84B4AE6".to_owned()),
        ("X-HWID".to_owned(), hwid.to_owned()),
        ("X-HiddenHWID".to_owned(), hidden_hwid.to_owned()),
        ("X-GameLauncherCertificate".to_owned(), "".to_owned()),
        ("X-DiscordID".to_owned(), "".to_owned()),
    ]
}

/// The address of the server list.
pub fn server_list_url(api_url: &str) -> (r: String)
    ensures
        r@ == api_url@ + "/serverlist.json"@,
{
    let mut r = api_url.to_owned();
    push_str(&mut r, "/serverlist.json");
    r
}

/// The address a server is pinged at.
pub fn ping_url(server_ip: &str) -> (r: String)
    ensures
        r@ == crate::text::trim_end_set(server_ip@, seq!['/']) + "/GetServerInformation"@,
{
    let mut r = crate::text::trim_end_char_str(server_ip, '/');
    push_str(&mut r, "/GetServerInformation");
    r
}

/// `ping_server`'s answer: 1 where the server answered with success, else -1.
pub fn ping_result(answered_with_success: bool) -> (r: Result<i64, String>)
    ensures
        r matches Ok(v) && v == (if answered_with_success {
            1i64
        } else {
            -1i64
        }),
{
    if answered_with_success {
        Ok(1)
    } else {
        Ok(-1)
    }
}

/// The address of the CDN list.
pub fn cdn_list_url(api_url: &str) -> (r: String)
    ensures
        r@ == crate::text::trim_end_set(api_url@, seq!['/']) + "/cdn_list.json"@,
{
    let mut r = crate::text::trim_end_char_str(api_url, '/');
    push_str(&mut r, "/cdn_list.json");
    r
}

/// The address an installer is downloaded from.
pub fn update_download_url(exe_name: &str) -> (r: String)
    ensures
        r@ == "https://rocket.nightriderz.world/"@ + exe_name@,
{
    let mut r = "https://rocket.nightriderz.world/".to_owned();
    push_str(&mut r, exe_name);
    r
}

/// The address of a server's mod information.
pub fn mod_info_url(server_ip: &str) -> (r: String)
    ensures
        r@ == server_ip@ + "/Modding/GetModInfo"@,
{
    let mut r = server_ip.to_owned();
    push_str(&mut r, "/Modding/GetModInfo");
    r
}

/// A version is never newer than itself, so the running version is never offered as an
/// update.
pub proof fn law_version_not_newer_than_itself(v: Seq<char>)
    ensures
        !newer(semver(v), semver(v)),
{
}

/// Versions are compared part by part, major first: a higher major is newer; with the same
/// major, a higher minor is newer; with the same major and minor, a higher patch is newer (so a
/// patch release is offered); of two different versions exactly one is newer than the other.
pub proof fn law_newer_by_parts(a: (u32, u32, u32), b: (u32, u32, u32))
    ensures
        a.0 > b.0 ==> newer(a, b),
        a.0 == b.0 && a.1 > b.1 ==> newer(a, b),
        a.0 == b.0 && a.1 == b.1 && a.2 > b.2 ==> newer(a, b),
        newer(a, b) ==> !newer(b, a),
        a != b ==> newer(a, b) || newer(b, a),
{
}

/// Being newer is transitive.
pub proof fn law_newer_transitive(a: (u32, u32, u32), b: (u32, u32, u32), c: (u32, u32, u32))
    requires
        newer(a, b),
        newer(b, c),
    ensures
        newer(a, c),
{
}

/// Whether a process of the given name runs: one of the running processes' names equals it,
/// both in lower case.
pub fn process_running(process_names: &Vec<String>, target: &str) -> (r: bool)
    ensures
        r == exists|i: int| 0 <= i < process_names@.len() && unicode_lower(
            #[trigger] process_names@[i]@,
        ) == unicode_lower(target@),
{
    let t = to_lower(target);
    let mut i: usize = 0;
    while i < process_names.len()
        invariant
            i <= process_names@.len(),
            t@ == unicode_lower(target@),
            forall|j: int| 0 <= j < i ==> unicode_lower(#[trigger] process_names@[j]@) != unicode_lower(
                target@,
            ),
        decreases process_names@.len() - i,
    {
        let n = to_lower(process_names[i].as_str());
        if str_eq(n.as_str(), t.as_str()) {
            return true;
        }
        i = i + 1;
    }
    false
}

} // verus!
