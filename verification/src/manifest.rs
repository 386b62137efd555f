//! HLS master-manifest handling: finding the variant entry of a quality
//! tier and resolving its URI against the master URL.
//!
//! A master manifest is a sequence of lines. A variant entry is a line
//! starting with `#EXT-X-STREAM-INF:` followed by a line holding the
//! variant's URI. The selection rule, chosen here and total by
//! construction: an entry matches a tier exactly when, in its attribute
//! line, the text between the `x` of the `RESOLUTION=` attribute and
//! the next comma (or the line's end) equals the tier's height written
//! in decimal. The first matching entry wins; if none matches, the
//! lookup fails — it never falls back to the master URL.

use vstd::prelude::*;
use vstd::string::StrSliceExecFns;
use crate::error::StreamError;
use crate::fmt::dec_seq;
use crate::text::{
    contains_at, find_char, find_char_at, find_sub, find_sub_at, lemma_find_char_at_bounds,
    lemma_find_sub_at_bounds, occurs_at, str_eq,
};
use crate::types::Quality;

verus! {

/// Where the line that starts at `pos` ends: the next newline, or the
/// end of the text.
pub open spec fn line_end(s: Seq<char>, pos: int) -> int {
    match find_char_at(s, pos, '\n') {
        None => s.len() as int,
        Some(i) => i,
    }
}

/// The line that starts at `pos` runs to `line_end` and holds no
/// newline before it.
pub proof fn lemma_line_end_bounds(s: Seq<char>, pos: int)
    requires
        0 <= pos <= s.len(),
    ensures
        pos <= line_end(s, pos) <= s.len(),
{
    lemma_find_char_at_bounds(s, pos, '\n');
}

/// A variant attribute line: one that begins `#EXT-X-STREAM-INF:`.
pub open spec fn is_inf_line(line: Seq<char>) -> bool {
    occurs_at(line, 0, "#EXT-X-STREAM-INF:"@)
}

/// Where the attribute segment that starts at `from` ends: the next
/// comma, or the line's end.
pub open spec fn seg_end(line: Seq<char>, from: int) -> int {
    match find_char_at(line, from, ',') {
        None => line.len() as int,
        Some(i) => i,
    }
}

/// Whether a variant attribute line matches a quality tier: the text
/// between the `x` of its `RESOLUTION=` attribute and the next comma
/// (or the line's end) is the tier's height in decimal.
pub open spec fn inf_matches(line: Seq<char>, q: Quality) -> bool {
    match find_sub_at(line, 0, "RESOLUTION="@) {
        None => false,
        Some(i) => match find_char_at(line, i + "RESOLUTION="@.len(), 'x') {
            None => false,
            Some(k) => line.subrange(k + 1, seg_end(line, k + 1)) == dec_seq(q.spec_height()),
        },
    }
}

/// The bounds, within the whole manifest, of the URI line of the first
/// variant entry that matches `q`, looking at lines from `pos` on.
pub open spec fn find_variant_at(s: Seq<char>, pos: int, q: Quality) -> Option<(int, int)>
    decreases s.len() - pos + 1,
    via find_variant_at_decreases
{
    if pos < 0 || pos > s.len() {
        None
    } else {
        let e = line_end(s, pos);
        if is_inf_line(s.subrange(pos, e)) && inf_matches(s.subrange(pos, e), q) {
            if e < s.len() {
                Some((e + 1, line_end(s, e + 1)))
            } else {
                None
            }
        } else {
            if e < s.len() {
                find_variant_at(s, e + 1, q)
            } else {
                None
            }
        }
    }
}

#[via_fn]
proof fn find_variant_at_decreases(s: Seq<char>, pos: int, q: Quality) {
    if 0 <= pos <= s.len() {
        lemma_line_end_bounds(s, pos);
    }
}

/// Whatever `find_variant_at` returns is a line of the manifest.
pub proof fn lemma_find_variant_at_bounds(s: Seq<char>, pos: int, q: Quality)
    requires
        0 <= pos <= s.len(),
    ensures
        match find_variant_at(s, pos, q) {
            None => true,
            Some((u0, u1)) => pos < u0 <= u1 <= s.len() && u1 == line_end(s, u0),
        },
    decreases s.len() - pos + 1,
{
    lemma_line_end_bounds(s, pos);
    let e = line_end(s, pos);
    if is_inf_line(s.subrange(pos, e)) && inf_matches(s.subrange(pos, e), q) {
        if e < s.len() {
            lemma_line_end_bounds(s, e + 1);
        }
    } else {
        if e < s.len() {
            lemma_find_variant_at_bounds(s, e + 1, q);
        }
    }
}

/// Tests whether a variant attribute line matches the quality tier.
fn variant_matches(line: &str, q: Quality) -> (r: bool)
    ensures
        r == inf_matches(line@, q),
{
    proof {
        reveal_strlit("RESOLUTION=");
    }
    let line_len = line.unicode_len();
    match find_sub(line, 0, "RESOLUTION=") {
        None => false,
        Some(i) => {
            proof {
                lemma_find_sub_at_bounds(line@, 0, "RESOLUTION="@);
            }
            match find_char(line, i + 11, 'x') {
                None => false,
                Some(k) => {
                    proof {
                        lemma_find_char_at_bounds(line@, i + 11, 'x');
                    }
                    let end = match find_char(line, k + 1, ',') {
                        None => line_len,
                        Some(c) => c,
                    };
                    proof {
                        lemma_find_char_at_bounds(line@, k + 1, ',');
                    }
                    let seg = line.substring_char(k + 1, end);
                    let height = crate::fmt::fmt_u64(q.height());
                    str_eq(seg, height.as_str())
                },
            }
        },
    }
}

/// Scans the manifest for the URI line of the first variant entry that
/// matches `q`, returning its bounds.
fn quality_variant(s: &str, q: Quality) -> (r: Option<(usize, usize)>)
    ensures
        s@.len() <= usize::MAX,
        match find_variant_at(s@, 0, q) {
            None => r is None,
            Some((u0, u1)) => r == Some((u0 as usize, u1 as usize)) && 0 <= u0 <= u1 <= s@.len(),
        },
{
    let s_len = s.unicode_len();
    proof {
        lemma_find_variant_at_bounds(s@, 0, q);
    }
    let mut pos: usize = 0;
    loop
        invariant
            0 <= pos <= s_len,
            s_len == s@.len(),
            find_variant_at(s@, 0, q) == find_variant_at(s@, pos as int, q),
        decreases s_len - pos,
    {
        let e = match find_char(s, pos, '\n') {
            None => s_len,
            Some(i) => i,
        };
        proof {
            lemma_line_end_bounds(s@, pos as int);
            assert(e == line_end(s@, pos as int));
        }
        let line = s.substring_char(pos, e);
        let matched = contains_at(line, 0, "#EXT-X-STREAM-INF:") && variant_matches(line, q);
        if matched {
            if e < s_len {
                let u_end = match find_char(s, e + 1, '\n') {
                    None => s_len,
                    Some(i) => i,
                };
                proof {
                    lemma_line_end_bounds(s@, e + 1);
                }
                return Some((e + 1, u_end));
            } else {
                return None;
            }
        } else {
            if e < s_len {
                pos = e + 1;
            } else {
                return None;
            }
        }
    }
}

/// The last position in `s` holding the character `c`.
pub open spec fn rfind_char(s: Seq<char>, c: char) -> Option<int>
    decreases s.len(),
{
    if s.len() == 0 {
        None
    } else if s[s.len() - 1] == c {
        Some(s.len() - 1)
    } else {
        rfind_char(s.drop_last(), c)
    }
}

proof fn lemma_rfind_char_at(s: Seq<char>, c: char, idx: int)
    requires
        0 <= idx < s.len(),
        s[idx] == c,
        forall|j: int| idx < j < s.len() ==> s[j] != c,
    ensures
        rfind_char(s, c) == Some(idx),
    decreases s.len(),
{
    if idx < s.len() - 1 {
        assert(s.drop_last()[idx] == c);
        lemma_rfind_char_at(s.drop_last(), c, idx);
    }
}

proof fn lemma_rfind_char_none(s: Seq<char>, c: char)
    requires
        forall|j: int| 0 <= j < s.len() ==> s[j] != c,
    ensures
        rfind_char(s, c) is None,
    decreases s.len(),
{
    if s.len() > 0 {
        lemma_rfind_char_none(s.drop_last(), c);
    }
}

/// Scans `s` backwards for the character `c`.
fn rfind(s: &str, c: char) -> (r: Option<usize>)
    ensures
        match rfind_char(s@, c) {
            None => r is None,
            Some(i) => r == Some(i as usize),
        },
{
    let len = s.unicode_len();
    let mut i: usize = len;
    while i > 0
        invariant
            0 <= i <= len,
            len == s@.len(),
            forall|j: int| i <= j < len ==> s@[j] != c,
        decreases i,
    {
        i -= 1;
        if s.get_char(i) == c {
            proof {
                lemma_rfind_char_at(s@, c, i as int);
            }
            return Some(i);
        }
    }
    proof {
        lemma_rfind_char_none(s@, c);
    }
    None
}

/// A variant URI resolved against the master URL: an absolute URI is
/// kept, a relative one replaces everything after the last `/` of the
/// master URL (or stands alone if the master URL has no `/`).
pub open spec fn resolve_uri_seq(base: Seq<char>, uri: Seq<char>) -> Seq<char> {
    if occurs_at(uri, 0, "http://"@) || occurs_at(uri, 0, "https://"@) {
        uri
    } else {
        match rfind_char(base, '/') {
            None => uri,
            Some(i) => base.take(i + 1) + uri,
        }
    }
}

/// Resolves a variant URI against the master URL's base.
pub fn resolve_uri(base: &str, uri: &str) -> (r: String)
    ensures
        r@ == resolve_uri_seq(base@, uri@),
{
    let base_len = base.unicode_len();
    let absolute = contains_at(uri, 0, "http://") || contains_at(uri, 0, "https://");
    if absolute {
        return String::from_str(uri);
    }
    match rfind(base, '/') {
        None => String::from_str(uri),
        Some(i) => {
            proof {
                lemma_rfind_char_at_in_range(base@, '/');
                assert(i < base_len);
            }
            let mut r = String::from_str(base.substring_char(0, i + 1));
            r.append(uri);
            proof {
                assert(r@ =~= resolve_uri_seq(base@, uri@));
            }
            r
        },
    }
}

proof fn lemma_rfind_char_at_in_range(s: Seq<char>, c: char)
    ensures
        match rfind_char(s, c) {
            None => true,
            Some(i) => 0 <= i < s.len() && s[i] == c,
        },
    decreases s.len(),
{
    if s.len() > 0 && s[s.len() - 1] != c {
        lemma_rfind_char_at_in_range(s.drop_last(), c);
    }
}

/// Resolves a quality tier against a fetched master manifest: the URI
/// of the first matching variant entry, made absolute against the
/// master URL. The same manifest and tier always give the same URL,
/// and a tier absent from the manifest always fails with
/// `QualityNotFound` — never a silent fall-back to the master URL.
pub fn quality_link(master_url: &str, manifest: &str, q: Quality) -> (r: Result<
    String,
    StreamError,
>)
    ensures
        match find_variant_at(manifest@, 0, q) {
            None => r == Err::<String, StreamError>(StreamError::QualityNotFound),
            Some((u0, u1)) => r matches Ok(link) && link@ == resolve_uri_seq(
                master_url@,
                manifest@.subrange(u0, u1),
            ),
        },
{
    proof {
        lemma_find_variant_at_bounds(manifest@, 0, q);
    }
    match quality_variant(manifest, q) {
        None => Err(StreamError::QualityNotFound),
        Some((u0, u1)) => {
            let uri = manifest.substring_char(u0, u1);
            Ok(resolve_uri(master_url, uri))
        },
    }
}

/// Resolves one stream, as batch generation does it: with no quality
/// requested the master URL itself is the link; with a quality
/// requested, a failed manifest fetch is a network error and the
/// manifest is otherwise searched for the tier.
pub fn resolve_link(master_url: &str, quality: &Option<Quality>, manifest: &Option<String>) -> (r:
    Result<String, StreamError>)
    ensures
        match quality {
            None => r matches Ok(link) && link@ == master_url@,
            Some(q) => match manifest {
                None => r == Err::<String, StreamError>(StreamError::NetworkError),
                Some(m) => match find_variant_at(m@, 0, *q) {
                    None => r == Err::<String, StreamError>(StreamError::QualityNotFound),
                    Some((u0, u1)) => r matches Ok(link) && link@ == resolve_uri_seq(
                        master_url@,
                        m@.subrange(u0, u1),
                    ),
                },
            },
        },
{
    match quality {
        None => Ok(String::from_str(master_url)),
        Some(q) => match manifest {
            None => Err(StreamError::NetworkError),
            Some(m) => quality_link(master_url, m.as_str(), *q),
        },
    }
}

} // verus!
