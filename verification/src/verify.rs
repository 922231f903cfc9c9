use vstd::prelude::*;
use crate::text::{
    join_seq, join_strings, lemma_views_of_push, lines_of, lines_str, push_str, replace_char,
    replace_char_str, str_eq, to_upper, trim_end_set, trim_start_char_str, trim_start_set,
    trim_str, trim_ws, unicode_upper, views_of, words_of, words_str,
};

verus! {

broadcast use vstd::string::group_string_axioms;

// ---------------------------------------------------------------------------
// Verifying the installed game against the CDN's checksums, and repairing it
// ---------------------------------------------------------------------------

/// The address of a package's checksums (`base` without trailing `/`).
pub fn checksums_url(base: &str) -> (r: String)
    ensures
        r@ == base@ + "/unpacked/checksums.dat"@,
{
    let mut r = base.to_owned();
    push_str(&mut r, "/unpacked/checksums.dat");
    r
}

/// A path of the checksums file as a path of this system: leading `/` and then leading `\`
/// dropped, and both separators turned into `sep`.
pub open spec fn local_path(p: Seq<char>, sep: char) -> Seq<char> {
    replace_char(
        replace_char(trim_start_set(trim_start_set(p, seq!['/']), seq!['\\']), '/', seq![sep]),
        '\\',
        seq![sep],
    )
}

/// One line of the checksums file: its first word is the SHA-1 (in upper case), its second the
/// file's path; a line with fewer words says nothing.
pub open spec fn checksum_line(line: Seq<char>, sep: char) -> Option<(Seq<char>, Seq<char>)> {
    let parts = words_of(trim_ws(line));
    if parts.len() < 2 {
        None
    } else {
        Some((unicode_upper(trim_ws(parts[0])), local_path(parts[1], sep)))
    }
}

/// The (expected SHA-1, path) pairs of the lines, in order.
pub open spec fn checksum_pairs(lines: Seq<Seq<char>>, sep: char) -> Seq<(Seq<char>, Seq<char>)>
    decreases lines.len(),
{
    if lines.len() == 0 {
        Seq::empty()
    } else {
        let rest = checksum_pairs(lines.drop_last(), sep);
        match checksum_line(lines.last(), sep) {
            Some(p) => rest.push(p),
            None => rest,
        }
    }
}

pub open spec fn pairs_view(v: Seq<(String, String)>) -> Seq<(Seq<char>, Seq<char>)> {
    Seq::new(v.len(), |i: int| (v[i].0@, v[i].1@))
}

/// One line of the checksums file read.
pub fn parse_checksum_line(line: &str, sep: char) -> (r: Option<(String, String)>)
    ensures
        match checksum_line(line@, sep) {
            Some(p) => r matches Some(q) && q.0@ == p.0 && q.1@ == p.1,
            None => r is None,
        },
{
    let t = trim_str(line);
    let parts = words_str(t.as_str());
    if parts.len() < 2 {
        return None;
    }
    assert(parts@[0]@ == views_of(parts@)[0]);
    assert(parts@[1]@ == views_of(parts@)[1]);
    let h = trim_str(parts[0].as_str());
    let hash = to_upper(h.as_str());
    let a = trim_start_char_str(parts[1].as_str(), '/');
    let b = trim_start_char_str(a.as_str(), '\\');
    let c = replace_char_str(b.as_str(), '/', sep);
    let rel = replace_char_str(c.as_str(), '\\', sep);
    Some((hash, rel))
}

/// The (expected SHA-1, path) pairs of a checksums file, in order.
pub fn parse_checksums(text: &str, sep: char) -> (r: Vec<(String, String)>)
    ensures
        pairs_view(r@) == checksum_pairs(lines_of(text@), sep),
{
    let lines = lines_str(text);
    let ghost ls = lines_of(text@);
    let mut r: Vec<(String, String)> = Vec::new();
    let mut i: usize = 0;
    assert(pairs_view(r@) =~= Seq::<(Seq<char>, Seq<char>)>::empty());
    while i < lines.len()
        invariant
            i <= lines@.len(),
            views_of(lines@) == ls,
            pairs_view(r@) == checksum_pairs(ls.take(i as int), sep),
        decreases lines@.len() - i,
    {
        assert(ls.take(i + 1).drop_last() == ls.take(i as int));
        assert(lines@[i as int]@ == ls[i as int]);
        match parse_checksum_line(lines[i].as_str(), sep) {
            Some(p) => {
                proof {
                    assert(pairs_view(r@.push(p)) =~= pairs_view(r@).push((p.0@, p.1@)));
                }
                r.push(p);
            },
            None => {},
        }
        i = i + 1;
    }
    assert(ls.take(lines@.len() as int) == ls);
    r
}

/// Whether a file is corrupt: it is missing, could not be read (`actual` is `None`), or its
/// SHA-1, trimmed and in upper case, is not the expected one.
pub open spec fn is_corrupt(exists: bool, actual: Option<Seq<char>>, expected: Seq<char>) -> bool {
    if !exists {
        true
    } else {
        match actual {
            Some(a) => unicode_upper(trim_ws(a)) != expected,
            None => true,
        }
    }
}

pub fn file_is_corrupt(exists: bool, actual: &Option<String>, expected: &str) -> (r: bool)
    ensures
        r == is_corrupt(
            exists,
            match actual {
                Some(a) => Some(a@),
                None => None,
            },
            expected@,
        ),
{
    if !exists {
        return true;
    }
    match actual {
        Some(a) => {
            let t = trim_str(a.as_str());
            let u = to_upper(t.as_str());
            !str_eq(u.as_str(), expected)
        },
        None => true,
    }
}

/// The address a corrupt file is downloaded again from: the base without trailing `/`, then
/// `/unpacked/`, then the file's path with `sep` turned into `/` and leading `/` dropped.
pub fn repair_url(base: &str, file_path: &str, sep: char) -> (r: String)
    ensures
        r@ == trim_end_set(base@, seq!['/']) + "/unpacked/"@ + trim_start_set(
            replace_char(file_path@, sep, seq!['/']),
            seq!['/'],
        ),
{
    let url_path = replace_char_str(file_path, sep, '/');
    let mut r = crate::text::trim_end_char_str(base, '/');
    push_str(&mut r, "/unpacked/");
    let p = trim_start_char_str(url_path.as_str(), '/');
    push_str(&mut r, p.as_str());
    r
}

/// The outcome of a repair: success where no file failed, else `Repair errors: ` and the
/// errors joined by `; `.
pub fn repair_result(errors: &Vec<String>) -> (r: Result<(), String>)
    ensures
        errors@.len() == 0 ==> r is Ok,
        errors@.len() > 0 ==> (r matches Err(m) && m@ == "Repair errors: "@ + join_seq(
            views_of(errors@),
            "; "@,
        )),
{
    if errors.len() == 0 {
        Ok(())
    } else {
        let mut m = "Repair errors: ".to_owned();
        let j = join_strings(errors, "; ");
        push_str(&mut m, j.as_str());
        Err(m)
    }
}

/// A path of the checksums file made local holds neither separator but the system's own.
pub proof fn law_local_path_separators(p: Seq<char>, sep: char)
    ensures
        sep != '/' ==> !local_path(p, sep).contains('/'),
        sep != '\\' ==> !local_path(p, sep).contains('\\'),
{
    let t = trim_start_set(trim_start_set(p, seq!['/']), seq!['\\']);
    let a = replace_char(t, '/', seq![sep]);
    crate::text::lemma_replace_char_chars(a, '\\', seq![sep]);
    if sep != '/' {
        assert(!seq![sep].contains('/')) by {
            if seq![sep].contains('/') {
                assert(seq![sep][0] == sep);
            }
        }
        crate::text::lemma_replace_char_removes(t, '/', seq![sep]);
        if local_path(p, sep).contains('/') {
            assert(a.contains('/') || seq![sep].contains('/'));
        }
    }
    if sep != '\\' {
        assert(!seq![sep].contains('\\')) by {
            if seq![sep].contains('\\') {
                assert(seq![sep][0] == sep);
            }
        }
        crate::text::lemma_replace_char_removes(a, '\\', seq![sep]);
    }
}

} // verus!
