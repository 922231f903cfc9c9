use vstd::prelude::*;
use vstd::string::StringSliceAdditionalSpecFns;
use vstd::utf8::{encode_utf8, is_char_boundary, is_continuation_byte, valid_utf8};

verus! {

broadcast use {vstd::string::group_string_axioms, vstd::utf8::group_utf8_lib};

// ---------------------------------------------------------------------------
// A look into UserSettings.xml: the start of its `VideoConfig` section
// ---------------------------------------------------------------------------

/// `n` occurs in `h` at byte `i`.
pub open spec fn bytes_at(h: Seq<u8>, n: Seq<u8>, i: int) -> bool {
    0 <= i && i + n.len() <= h.len() && h.subrange(i, i + n.len()) == n
}

/// The first byte position at or after `from` where `n` occurs in `h`.
pub open spec fn find_bytes(h: Seq<u8>, n: Seq<u8>, from: int) -> Option<int>
    decreases h.len() + 1 - from,
{
    if from < 0 || from + n.len() > h.len() {
        None
    } else if bytes_at(h, n, from) {
        Some(from)
    } else {
        find_bytes(h, n, from + 1)
    }
}

/// The bytes of `<VideoConfig>`.
pub open spec fn open_tag() -> Seq<u8> {
    seq![60u8, 86, 105, 100, 101, 111, 67, 111, 110, 102, 105, 103, 62]
}

/// The bytes of `</VideoConfig>`.
pub open spec fn close_tag() -> Seq<u8> {
    seq![60u8, 47, 86, 105, 100, 101, 111, 67, 111, 110, 102, 105, 103, 62]
}

/// Where the excerpt that starts at `start` ends: at the closing tag (500 bytes on where there
/// is none), and 1000 bytes on at most.
pub open spec fn excerpt_end(b: Seq<u8>, start: int) -> int {
    let end = match find_bytes(b, close_tag(), start) {
        Some(i) => i,
        None => start + 500,
    };
    if end <= start + 1000 {
        end
    } else {
        start + 1000
    }
}

fn find_bytes_exec(h: &[u8], n: &Vec<u8>, from: usize) -> (r: Option<usize>)
    ensures
        r matches Some(k) ==> find_bytes(h@, n@, from as int) == Some(k as int),
        r is None ==> find_bytes(h@, n@, from as int) is None,
{
    if n.len() > h.len() {
        return None;
    }
    let last = h.len() - n.len();
    let mut i = from;
    while i <= last
        invariant
            last + n@.len() == h@.len(),
            from <= i,
            find_bytes(h@, n@, from as int) == find_bytes(h@, n@, i as int),
        decreases last + 1 - i,
    {
        let mut j: usize = 0;
        let mut same = true;
        while j < n.len()
            invariant
                i <= last,
                h.len() == h@.len(),
                last + n@.len() == h@.len(),
                j <= n@.len(),
                same == (forall|k: int| 0 <= k < j ==> h@[i + k] == n@[k]),
            decreases n@.len() - j,
        {
            if h[i + j] != n[j] {
                same = false;
            }
            j = j + 1;
        }
        if same {
            assert(h@.subrange(i as int, i + n@.len()) =~= n@);
            return Some(i);
        }
        assert(!bytes_at(h@, n@, i as int)) by {
            let k = choose|k: int| 0 <= k < n@.len() && h@[i + k] != n@[k];
            if h@.subrange(i as int, i + n@.len()) == n@ {
                assert(h@.subrange(i as int, i + n@.len())[k] == h@[i + k]);
            }
        }
        if i == last {
            assert(find_bytes(h@, n@, (i + 1) as int) is None);
            return None;
        }
        i = i + 1;
    }
    None
}

fn open_tag_bytes() -> (r: Vec<u8>)
    ensures
        r@ == open_tag(),
{
    let r: Vec<u8> = vec![60, 86, 105, 100, 101, 111, 67, 111, 110, 102, 105, 103, 62];
    assert(r@ =~= open_tag());
    r
}

fn close_tag_bytes() -> (r: Vec<u8>)
    ensures
        r@ == close_tag(),
{
    let r: Vec<u8> = vec![60, 47, 86, 105, 100, 101, 111, 67, 111, 110, 102, 105, 103, 62];
    assert(r@ =~= close_tag());
    r
}

/// The byte range of the `VideoConfig` excerpt of a settings document: from the first
/// `<VideoConfig>` to where [`excerpt_end`] puts its end; none where there is no such tag.
pub fn video_config_range(content: &str) -> (r: Option<(usize, usize)>)
    requires
        content.spec_bytes().len() <= isize::MAX,
    ensures
        match find_bytes(content.spec_bytes(), open_tag(), 0) {
            Some(s) => r matches Some(p) && p.0 == s && p.1 == excerpt_end(content.spec_bytes(), s),
            None => r is None,
        },
{
    let b = content.as_bytes();
    proof {
        lemma_find_bytes_from(b@, open_tag(), 0);
    }
    let open = open_tag_bytes();
    let close = close_tag_bytes();
    match find_bytes_exec(b, &open, 0) {
        None => None,
        Some(start) => {
            let end = match find_bytes_exec(b, &close, start) {
                Some(i) => {
                    assert(i >= start) by {
                        lemma_find_bytes_from(b@, close_tag(), start as int);
                    }
                    i
                },
                None => start + 500,
            };
            let stop = if end - start <= 1000 {
                end
            } else {
                start + 1000
            };
            Some((start, stop))
        },
    }
}

/// A found occurrence lies at or after where the search began, and is a match.
pub proof fn lemma_find_bytes_from(h: Seq<u8>, n: Seq<u8>, from: int)
    requires
        0 <= from,
    ensures
        find_bytes(h, n, from) matches Some(k) ==> from <= k && bytes_at(h, n, k),
    decreases h.len() + 1 - from,
{
    if from + n.len() > h.len() {
    } else if bytes_at(h, n, from) {
    } else {
        lemma_find_bytes_from(h, n, from + 1);
    }
}

/// The excerpt starts at an opening `<VideoConfig>` and runs for at most 1000 bytes.
pub proof fn law_excerpt_bounds(b: Seq<u8>)
    ensures
        find_bytes(b, open_tag(), 0) matches Some(s) ==> bytes_at(b, open_tag(), s) && s
            <= excerpt_end(b, s) <= s + 1000,
{
    lemma_find_bytes_from(b, open_tag(), 0);
    if let Some(s) = find_bytes(b, open_tag(), 0) {
        lemma_find_bytes_from(b, close_tag(), s);
    }
}

/// `test_xml_access`: the start of the `VideoConfig` section of the settings document
/// `content` (its first `<VideoConfig>` up to the closing tag, 1000 bytes at most, 500 where it
/// is not closed); `File not found at: {path}` where there is no document, and an error where
/// the document has no `<VideoConfig>`. The excerpt's end must fall between two characters
/// (the document is a string, so it is no longer than `isize::MAX` bytes).
pub fn test_xml_access(content: Option<&str>, path: &str) -> (r: Result<String, String>)
    requires
        content matches Some(c) ==> c.spec_bytes().len() <= isize::MAX,
        content matches Some(c) ==> (find_bytes(c.spec_bytes(), open_tag(), 0) matches Some(s)
            ==> is_char_boundary(c.spec_bytes(), excerpt_end(c.spec_bytes(), s))),
    ensures
        content is None ==> (r matches Err(m) && m@ == "File not found at: "@ + path@),
        content matches Some(c) ==> match find_bytes(c.spec_bytes(), open_tag(), 0) {
            Some(s) => r matches Ok(t) && encode_utf8(t@) == c.spec_bytes().subrange(
                s,
                excerpt_end(c.spec_bytes(), s),
            ),
            None => r matches Err(m) && m@ == "VideoConfig section not found in XML"@,
        },
{
    let c = match content {
        None => {
            let mut m = "File not found at: ".to_owned();
            crate::text::push_str(&mut m, path);
            return Err(m);
        },
        Some(c) => c,
    };
    match video_config_range(c) {
        None => Err("VideoConfig section not found in XML".to_owned()),
        Some((start, stop)) => {
            let ghost b = c.spec_bytes();
            proof {
                lemma_find_bytes_from(b, open_tag(), 0);
                lemma_find_bytes_from(b, close_tag(), start as int);
                assert(b[start as int] == open_tag()[0]) by {
                    assert(b.subrange(start as int, start + open_tag().len())[0] == b[start as int]);
                }
            }
            let (head, _) = c.split_at(stop);
            proof {
                assert(head.spec_bytes() =~= b.subrange(0, stop as int));
                let hb = head.spec_bytes();
                assert(valid_utf8(hb));
                if start < stop {
                    assert(hb[start as int] == b[start as int]);
                    assert(!is_continuation_byte(hb[start as int]));
                    assert(is_char_boundary(hb, start as int));
                } else {
                    assert(is_char_boundary(hb, hb.len() as int));
                }
            }
            let (_, tail) = head.split_at(start);
            proof {
                assert(tail.spec_bytes() =~= b.subrange(start as int, stop as int));
            }
            Ok(tail.to_owned())
        },
    }
}

} // verus!
