use vstd::prelude::*;
use crate::digest::{gunzip_text, gunzip_to_string, utf8_to_string};
use crate::game_state::{activity_view, handle_game_response, respond, GameSession, ResolvedNames, RpcActivity};
use crate::num::decimal;
use crate::text::{
    chars_of, contains_seq, find_chars, find_from, has_prefix, push_str, slice_to_vec,
    split_char, starts_with_chars, str_contains, str_eq, string_of, strip_prefix_seq, to_upper,
    trim_end_char_str, trim_end_set, trim_str, trim_ws, unicode_upper,
};

verus! {

broadcast use vstd::string::group_string_axioms;

// ---------------------------------------------------------------------------
// Launching the game
// ---------------------------------------------------------------------------

/// The user id must be known: not empty and not `undefined`.
pub fn validate_user_id(user_id: &str) -> (r: Result<(), String>)
    ensures
        (user_id@ == "undefined"@ || user_id@.len() == 0) ==> (r matches Err(m) && m@
            == "Invalid user_id: '"@ + user_id@ + "'. Please re-login."@),
        !(user_id@ == "undefined"@ || user_id@.len() == 0) ==> r is Ok,
{
    if str_eq(user_id, "undefined") || user_id.is_empty() {
        let mut m = "Invalid user_id: '".to_owned();
        push_str(&mut m, user_id);
        push_str(&mut m, "'. Please re-login.");
        Err(m)
    } else {
        Ok(())
    }
}

/// `s` with `p` dropped from its front where it starts with `p`.
pub open spec fn after_prefix(s: Seq<char>, p: Seq<char>) -> Option<Seq<char>> {
    strip_prefix_seq(s, p)
}

/// The server's address without its scheme (`https://` or else `http://`, where present).
pub open spec fn without_scheme(ip: Seq<char>) -> Seq<char> {
    match after_prefix(ip, "https://"@) {
        Some(r) => r,
        None => match after_prefix(ip, "http://"@) {
            Some(r) => r,
            None => ip,
        },
    }
}

/// Where the local proxy sends the game's requests, and the path the game is given: the
/// server's scheme (`https` where its address starts with `https:`, else `http`) and host, and
/// the path from the first `/` after the host (`/` where there is none).
pub open spec fn proxy_target_spec(ip: Seq<char>) -> (Seq<char>, Seq<char>) {
    let scheme = if has_prefix(ip, "https://"@) || has_prefix(ip, "https:"@) {
        "https"@
    } else {
        "http"@
    };
    let w = without_scheme(ip);
    let (authority, path) = match find_from(w, seq!['/'], 0) {
        Some(i) => (w.take(i), w.skip(i)),
        None => (w, "/"@),
    };
    (scheme + "://"@ + authority, path)
}

fn strip_prefix_str(s: &str, p: &str) -> (r: Option<String>)
    ensures
        match strip_prefix_seq(s@, p@) {
            Some(x) => r matches Some(y) && y@ == x,
            None => r is None,
        },
{
    let sc = chars_of(s);
    let pc = chars_of(p);
    if starts_with_chars(sc.as_slice(), pc.as_slice()) {
        let rest = slice_to_vec(sc.as_slice(), pc.len(), sc.len());
        assert(rest@ == sc@.skip(pc@.len() as int));
        Some(string_of(rest.as_slice()))
    } else {
        None
    }
}

/// The proxy's target and the path the game is given.
pub fn proxy_target(server_ip: &str) -> (r: (String, String))
    ensures
        (r.0@, r.1@) == proxy_target_spec(server_ip@),
{
    let ic = chars_of(server_ip);
    let https_full = chars_of("https://");
    let https_short = chars_of("https:");
    let secure = starts_with_chars(ic.as_slice(), https_full.as_slice()) || starts_with_chars(
        ic.as_slice(),
        https_short.as_slice(),
    );
    let without = match strip_prefix_str(server_ip, "https://") {
        Some(r) => r,
        None => match strip_prefix_str(server_ip, "http://") {
            Some(r) => r,
            None => server_ip.to_owned(),
        },
    };
    let wc = chars_of(without.as_str());
    let slash = vec!['/'];
    assert(slash@ == seq!['/']);
    let (authority, path) = match find_chars(wc.as_slice(), slash.as_slice(), 0) {
        Some(i) => {
            proof {
                crate::text::lemma_find_from(wc@, seq!['/'], 0);
                assert(crate::text::matches_at(wc@, seq!['/'], i as int));
                assert(seq!['/'].len() == 1);
            }
            let n = wc.len();
            let a = slice_to_vec(wc.as_slice(), 0, i);
            let b = slice_to_vec(wc.as_slice(), i, n);
            assert(a@ == wc@.take(i as int));
            assert(b@ == wc@.skip(i as int));
            (string_of(a.as_slice()), string_of(b.as_slice()))
        },
        None => (without.clone(), "/".to_owned()),
    };
    let mut base = if secure {
        "https".to_owned()
    } else {
        "http".to_owned()
    };
    push_str(&mut base, "://");
    push_str(&mut base, authority.as_str());
    (base, path)
}

/// The address the game is given when it goes through the local proxy on `port`.
pub fn proxied_address(port: u16, path: &str) -> (r: String)
    ensures
        r@ == "http://127.0.0.1:"@ + decimal(port as nat) + path@,
{
    let mut r = "http://127.0.0.1:".to_owned();
    crate::num::push_decimal(&mut r, port as u64);
    push_str(&mut r, path);
    r
}

/// The name shown for the server: its name, or its id where the name is blank.
pub fn display_name(server_name: &str, server_id: &str) -> (r: String)
    ensures
        r@ == (if trim_ws(server_name@).len() == 0 {
            server_id@
        } else {
            server_name@
        }),
{
    let t = trim_str(server_name);
    if t.as_str().is_empty() {
        server_id.to_owned()
    } else {
        server_name.to_owned()
    }
}

/// Whether `s` is a Discord application id: at least 15 characters, all ASCII digits.
pub open spec fn is_app_id(s: Seq<char>) -> bool {
    s.len() >= 15 && forall|i: int| 0 <= i < s.len() ==> '0' <= #[trigger] s[i] <= '9'
}

/// The Discord application the server names for the game, where it names a valid one.
pub fn game_discord_app_id(app_id: &Option<String>) -> (r: Option<String>)
    ensures
        match app_id {
            Some(s) => if is_app_id(s@) {
                r matches Some(t) && t@ == s@
            } else {
                r is None
            },
            None => r is None,
        },
{
    match app_id {
        Some(s) => {
            let cs = chars_of(s.as_str());
            if cs.len() < 15 {
                return None;
            }
            let mut i: usize = 0;
            while i < cs.len()
                invariant
                    cs@ == s@,
                    *app_id == Some(*s),
                    i <= cs@.len(),
                    forall|j: int| 0 <= j < i ==> '0' <= #[trigger] cs@[j] <= '9',
                decreases cs@.len() - i,
            {
                if !('0' <= cs[i] && cs[i] <= '9') {
                    assert(!('0' <= s@[i as int] <= '9'));
                    return None;
                }
                i = i + 1;
            }
            Some(s.clone())
        },
        None => None,
    }
}

/// The processors the game may run on: the first `min(cpus, 8)` (at least one), as a mask.
pub open spec fn affinity_mask_spec(cpus: usize) -> int {
    let capped: int = if cpus == 0 {
        1
    } else if cpus > 8 {
        8
    } else {
        cpus as int
    };
    vstd::arithmetic::power2::pow2(capped as nat) - 1
}

pub fn affinity_mask(cpus: usize) -> (r: usize)
    ensures
        r == affinity_mask_spec(cpus),
{
    let capped: usize = if cpus == 0 {
        1
    } else if cpus > 8 {
        8
    } else {
        cpus
    };
    let mut mask: usize = 0;
    let mut i: usize = 0;
    proof {
        vstd::arithmetic::power2::lemma2_to64();
    }
    while i < capped
        invariant
            1 <= capped <= 8,
            i <= capped,
            mask == vstd::arithmetic::power2::pow2(i as nat) - 1,
        decreases capped - i,
    {
        proof {
            vstd::arithmetic::power2::lemma_pow2_unfold((i + 1) as nat);
            vstd::arithmetic::power2::lemma_pow2_strictly_increases(i as nat, 8);
            vstd::arithmetic::power2::lemma2_to64();
        }
        mask = mask + mask + 1;
        i = i + 1;
    }
    mask
}

/// The exit code of the game: its status code (as an unsigned number), or 1 where it has none.
pub fn exit_code_of(code: Option<i32>) -> (r: u32)
    ensures
        r == (match code {
            Some(c) => c as u32,
            None => 1u32,
        }),
{
    match code {
        Some(c) => c as u32,
        None => 1,
    }
}

/// The arguments the game is started with: the server's id in upper case, its address, the
/// login token and the user id.
pub fn game_arguments(server_id: &str, address: &str, login_token: &str, user_id: &str) -> (r: Vec<
    String,
>)
    ensures
        r@.len() == 4,
        r@[0]@ == unicode_upper(server_id@),
        r@[1]@ == address@,
        r@[2]@ == login_token@,
        r@[3]@ == user_id@,
{
    vec![to_upper(server_id), address.to_owned(), login_token.to_owned(), user_id.to_owned()]
}

// ---------------------------------------------------------------------------
// The local proxy between the game and its server
// ---------------------------------------------------------------------------

/// A request's path split at its first `?`: the path, and what follows up to the next `?`.
pub open spec fn split_request(path: Seq<char>) -> (Seq<char>, Seq<char>) {
    let pieces = split_char(path, '?');
    (pieces[0], if pieces.len() > 1 {
        pieces[1]
    } else {
        Seq::empty()
    })
}

pub fn split_request_path(path: &str) -> (r: (String, String))
    ensures
        (r.0@, r.1@) == split_request(path@),
{
    let cs = chars_of(path);
    let pieces = crate::text::split_chars(cs.as_slice(), '?');
    proof {
        crate::text::lemma_split_nonempty(cs@, '?');
    }
    let p = string_of(pieces[0].as_slice());
    let q = if pieces.len() > 1 {
        string_of(pieces[1].as_slice())
    } else {
        String::new()
    };
    (p, q)
}

/// Whether the game asks for its session (it is then running; the launcher gets out of the
/// way).
pub fn is_session_request(uri_path: &str) -> (r: bool)
    ensures
        r == contains_seq(uri_path@, "/User/GetPermanentSession"@),
{
    str_contains(uri_path, "/User/GetPermanentSession")
}

/// The HTTP methods the proxy passes on.
#[derive(Debug, PartialEq, Eq, Structural, Clone, Copy)]
pub enum ProxyMethod {
    Get,
    Post,
    Put,
    Delete,
    Head,
    Options,
    Patch,
}

/// The method a request is passed on with: its own where the proxy knows it, else `GET`.
pub fn proxy_method(method: &str) -> (r: ProxyMethod)
    ensures
        r == (if method@ == "GET"@ {
            ProxyMethod::Get
        } else if method@ == "POST"@ {
            ProxyMethod::Post
        } else if method@ == "PUT"@ {
            ProxyMethod::Put
        } else if method@ == "DELETE"@ {
            ProxyMethod::Delete
        } else if method@ == "HEAD"@ {
            ProxyMethod::Head
        } else if method@ == "OPTIONS"@ {
            ProxyMethod::Options
        } else if method@ == "PATCH"@ {
            ProxyMethod::Patch
        } else {
            ProxyMethod::Get
        }),
{
    if str_eq(method, "GET") {
        ProxyMethod::Get
    } else if str_eq(method, "POST") {
        ProxyMethod::Post
    } else if str_eq(method, "PUT") {
        ProxyMethod::Put
    } else if str_eq(method, "DELETE") {
        ProxyMethod::Delete
    } else if str_eq(method, "HEAD") {
        ProxyMethod::Head
    } else if str_eq(method, "OPTIONS") {
        ProxyMethod::Options
    } else if str_eq(method, "PATCH") {
        ProxyMethod::Patch
    } else {
        ProxyMethod::Get
    }
}

/// Whether a response is gzip-compressed: its `content-encoding` mentions `gzip`.
pub fn content_is_gzip(content_encoding: &Option<String>) -> (r: bool)
    ensures
        r == (match content_encoding {
            Some(e) => contains_seq(e@, "gzip"@),
            None => false,
        }),
{
    match content_encoding {
        Some(e) => str_contains(e.as_str(), "gzip"),
        None => false,
    }
}

/// The text of a response body: gunzipped where it is compressed, else read as UTF-8; none
/// where that fails.
pub open spec fn body_text(gzip: bool, body: Seq<u8>) -> Option<Seq<char>> {
    if gzip {
        gunzip_text(body)
    } else if vstd::utf8::valid_utf8(body) {
        Some(vstd::utf8::decode_utf8(body))
    } else {
        None
    }
}

pub fn response_text(gzip: bool, body: &[u8]) -> (r: Option<String>)
    ensures
        match body_text(gzip, body@) {
            Some(t) => r matches Some(s) && s@ == t,
            None => r is None,
        },
{
    if gzip {
        gunzip_to_string(body)
    } else {
        utf8_to_string(body)
    }
}

/// What the proxy does with a server's answer to the game before passing it back: it reads
/// the answer (see [`body_text`]) and, where that succeeds, lets the game's state follow it
/// (`handle_game_response` on the request's path and query). Gives the presence to show, if
/// the answer changes it.
pub fn observe_response(
    session: &mut GameSession,
    path_and_query: &str,
    content_encoding: &Option<String>,
    body: &[u8],
    names: &ResolvedNames,
) -> (r: Option<RpcActivity>)
    ensures
        final(session).rpc_enabled == old(session).rpc_enabled,
        ({
            let (uri_path, query) = split_request(path_and_query@);
            let gzip = match content_encoding {
                Some(e) => contains_seq(e@, "gzip"@),
                None => false,
            };
            match body_text(gzip, body@) {
                None => *final(session) == *old(session) && r is None,
                Some(text) => match old(session).state {
                    None => final(session).state is None && r is None,
                    Some(st) => final(session).state is Some && ((final(session).state->0)@,
                        activity_view(r)) == respond(
                        st@,
                        old(session).rpc_enabled,
                        uri_path,
                        query,
                        text,
                        names.car_name@,
                        names.event_name@,
                        names.event_type@,
                    ),
                },
            }
        }),
{
    let (uri_path, query) = split_request_path(path_and_query);
    let gzip = content_is_gzip(content_encoding);
    match response_text(gzip, body) {
        Some(text) => handle_game_response(session, uri_path.as_str(), query.as_str(), text.as_str(), names),
        None => None,
    }
}

/// The path the game is given always starts with `/`.
pub proof fn law_game_path_is_absolute(ip: Seq<char>)
    ensures
        proxy_target_spec(ip).1.len() > 0,
        proxy_target_spec(ip).1[0] == '/',
{
    reveal_strlit("/");
    let w = without_scheme(ip);
    crate::text::lemma_find_from(w, seq!['/'], 0);
    match find_from(w, seq!['/'], 0) {
        Some(i) => {
            assert(crate::text::matches_at(w, seq!['/'], i));
            assert(w.subrange(i, i + 1) == seq!['/']);
            assert(w.subrange(i, i + 1)[0] == w[i]);
            assert(w.skip(i)[0] == w[i]);
        },
        None => {},
    }
}

} // verus!
