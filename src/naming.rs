//! Archival names: `<base64url(sha256(path || timestamp))>!<basename>`.
use vstd::prelude::*;
use base64ct::Encoding;
use sha2::Digest;
use vstd::utf8::encode_utf8;

verus! {

/// Start of the last `/`-free run of `p` that ends at `end`.
pub open spec fn segment_start(p: Seq<char>, end: int) -> int
    decreases end,
{
    if end <= 0 {
        0
    } else if p[end - 1] == '/' {
        end
    } else {
        segment_start(p, end - 1)
    }
}

/// Whether the component of `p` that ends at `end` is exactly `.`.
pub open spec fn is_dot_at(p: Seq<char>, end: int) -> bool {
    &&& end >= 1
    &&& p[end - 1] == '.'
    &&& (end == 1 || p[end - 2] == '/')
}

/// Whether the component of `p` that ends at `end` is exactly `..`.
pub open spec fn is_dot_dot_at(p: Seq<char>, end: int) -> bool {
    &&& end >= 2
    &&& p[end - 1] == '.'
    &&& p[end - 2] == '.'
    &&& (end == 2 || p[end - 3] == '/')
}

/// The final component of the prefix `p[0..end]`: trailing separators and `.`
/// components are skipped; there is none when nothing is left or when the
/// final component is `..`.
pub open spec fn base_name_upto(p: Seq<char>, end: int) -> Option<Seq<char>>
    decreases end,
{
    if end <= 0 {
        None
    } else if p[end - 1] == '/' || is_dot_at(p, end) {
        base_name_upto(p, end - 1)
    } else if is_dot_dot_at(p, end) {
        None
    } else {
        Some(p.subrange(segment_start(p, end), end))
    }
}

/// The final component (basename) of a path.
pub open spec fn base_name_of(p: Seq<char>) -> Option<Seq<char>> {
    base_name_upto(p, p.len() as int)
}

proof fn lemma_segment_start_bounds(p: Seq<char>, end: int)
    requires
        0 <= end <= p.len(),
    ensures
        0 <= segment_start(p, end) <= end,
        end > 0 && p[end - 1] != '/' ==> segment_start(p, end) < end,
        forall|i: int| segment_start(p, end) <= i < end ==> p[i] != '/',
    decreases end,
{
    if end > 0 && p[end - 1] != '/' {
        lemma_segment_start_bounds(p, end - 1);
    }
}

/// A basename never holds a separator and is never empty.
pub proof fn lemma_base_name_shape(p: Seq<char>, end: int)
    requires
        0 <= end <= p.len(),
    ensures
        base_name_upto(p, end) matches Some(b) ==> b.len() > 0 && forall|i: int|
            0 <= i < b.len() ==> b[i] != '/',
    decreases end,
{
    if end > 0 {
        if p[end - 1] == '/' || is_dot_at(p, end) {
            lemma_base_name_shape(p, end - 1);
        } else if !is_dot_dot_at(p, end) {
            lemma_segment_start_bounds(p, end);
            let b = p.subrange(segment_start(p, end), end);
            assert forall|i: int| 0 <= i < b.len() implies b[i] != '/' by {
                assert(b[i] == p[segment_start(p, end) + i]);
            }
        }
    }
}

/// The basename of `path`, if it has one.
pub fn base_name(path: &str) -> (r: Option<String>)
    ensures
        match base_name_of(path@) {
            None => r is None,
            Some(b) => r matches Some(s) && s@ == b,
        },
{
    let ghost p = path@;
    let n = path.unicode_len();
    let mut end: usize = n;
    while end > 0
        invariant
            p == path@,
            n == p.len(),
            end <= n,
            base_name_upto(p, end as int) == base_name_of(p),
        decreases end,
    {
        let last = path.get_char(end - 1);
        let dot = last == '.' && (end == 1 || path.get_char(end - 2) == '/');
        if last == '/' || dot {
            end = end - 1;
        } else if last == '.' && end >= 2 && path.get_char(end - 2) == '.' && (end == 2
            || path.get_char(end - 3) == '/') {
            return None;
        } else {
            let mut start: usize = end;
            while start > 0 && path.get_char(start - 1) != '/'
                invariant
                    p == path@,
                    n == p.len(),
                    start <= end <= n,
                    segment_start(p, start as int) == segment_start(p, end as int),
                decreases start,
            {
                start = start - 1;
            }
            let seg = path.substring_char(start, end);
            return Some(String::from_str(seg));
        }
    }
    None
}

/// What `Sha256::digest` returns for some bytes.
pub uninterp spec fn sha256_of(data: Seq<u8>) -> Seq<u8>;

/// What `Base64UrlUnpadded::encode_string` returns for some bytes.
pub uninterp spec fn base64url_of(data: Seq<u8>) -> Seq<char>;

/// The URL-safe base64 alphabet: `A-Z`, `a-z`, `0-9`, `-` and `_`.
pub open spec fn is_url_safe(c: char) -> bool {
    ||| ('A' <= c && c <= 'Z')
    ||| ('a' <= c && c <= 'z')
    ||| ('0' <= c && c <= '9')
    ||| c == '-'
    ||| c == '_'
}

/// Relies on `sha2::Sha256::digest`: the 32-byte SHA-256 digest of `data`.
#[verifier::external_body]
fn sha256(data: &[u8]) -> (r: Vec<u8>)
    ensures
        r@ == sha256_of(data@),
        r@.len() == 32,
{
    sha2::Sha256::digest(data).to_vec()
}

/// Relies on `base64ct::Base64UrlUnpadded::encode_string`: unpadded URL-safe
/// base64, every character from that alphabet. It panics only when four times
/// the input length overflows, which `requires` leaves out.
#[verifier::external_body]
fn base64url(data: &[u8]) -> (r: String)
    requires
        data@.len() * 4 <= usize::MAX,
    ensures
        r@ == base64url_of(data@),
        forall|i: int| 0 <= i < r@.len() ==> is_url_safe(#[trigger] r@[i]),
{
    base64ct::Base64UrlUnpadded::encode_string(data)
}

/// The separator between the digest and the basename.
pub open spec fn separator() -> char {
    '!'
}

/// The encoded digest of a path and a timestamp text, both as UTF-8 bytes.
pub open spec fn digest_text(path: Seq<char>, timestamp: Seq<char>) -> Seq<char> {
    base64url_of(sha256_of(encode_utf8(path) + encode_utf8(timestamp)))
}

/// The archival name of `path` captured at `timestamp`, when `path` has a basename.
pub open spec fn archival_name_of(path: Seq<char>, timestamp: Seq<char>) -> Option<Seq<char>> {
    match base_name_of(path) {
        None => None,
        Some(b) => Some(digest_text(path, timestamp) + seq![separator()] + b),
    }
}

/// The encoded digest of `path` and `timestamp`.
fn digest_of(path: &str, timestamp: &str) -> (r: String)
    ensures
        r@ == digest_text(path@, timestamp@),
        forall|i: int| 0 <= i < r@.len() ==> is_url_safe(#[trigger] r@[i]),
{
    let mut data: Vec<u8> = Vec::new();
    data.extend_from_slice(path.as_bytes());
    data.extend_from_slice(timestamp.as_bytes());
    assert(data@ =~= encode_utf8(path@) + encode_utf8(timestamp@));
    let hash = sha256(data.as_slice());
    base64url(hash.as_slice())
}

/// The unique on-disk name for `path` relocated at `timestamp`:
/// the encoded digest, the separator `!`, then the basename. What follows the
/// first separator is exactly the basename, and the name is a single path
/// component. There is none when the path has no basename.
pub fn archival_name(path: &str, timestamp: &str) -> (r: Option<String>)
    ensures
        match archival_name_of(path@, timestamp@) {
            None => r is None,
            Some(a) => r matches Some(s) && s@ == a,
        },
        r matches Some(s) ==> base_name_of(path@) matches Some(b) && suffix_after_separator(s@)
            == b,
        r matches Some(s) ==> forall|i: int| 0 <= i < s@.len() ==> s@[i] != '/',
{
    match base_name(path) {
        None => None,
        Some(b) => {
            let mut name = digest_of(path, timestamp);
            name.append("!");
            name.append(b.as_str());
            proof {
                reveal_strlit("!");
            }
            assert(name@ =~= digest_text(path@, timestamp@) + seq![separator()] + b@);
            proof {
                lemma_suffix_after_head(digest_text(path@, timestamp@), b@);
                lemma_base_name_shape(path@, path@.len() as int);
                let d = digest_text(path@, timestamp@);
                assert forall|i: int| 0 <= i < name@.len() implies name@[i] != '/' by {
                    if i < d.len() {
                        assert(is_url_safe(d[i]));
                    } else if i > d.len() {
                        assert(name@[i] == b@[i - d.len() - 1]);
                    }
                }
            }
            Some(name)
        },
    }
}

/// What follows the first separator in `s` (nothing if there is none).
pub open spec fn suffix_after_separator(s: Seq<char>) -> Seq<char>
    decreases s.len(),
{
    if s.len() == 0 {
        s
    } else if s[0] == separator() {
        s.drop_first()
    } else {
        suffix_after_separator(s.drop_first())
    }
}

/// A head free of separators is skipped whole.
proof fn lemma_suffix_after_head(head: Seq<char>, tail: Seq<char>)
    requires
        forall|i: int| 0 <= i < head.len() ==> head[i] != separator(),
    ensures
        suffix_after_separator(head + seq![separator()] + tail) == tail,
    decreases head.len(),
{
    let s = head + seq![separator()] + tail;
    if head.len() == 0 {
        assert(s.drop_first() =~= tail);
    } else {
        lemma_suffix_after_head(head.drop_first(), tail);
        assert(s.drop_first() =~= head.drop_first() + seq![separator()] + tail);
    }
}

} // verus!
