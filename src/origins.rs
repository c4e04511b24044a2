//! The cross-origin policy's allowed origins, parsed from a comma-separated
//! configuration value.

use vstd::prelude::*;
use vstd::utf8::encode_utf8;

verus! {

/// The characters with the Unicode `White_Space` property.
pub open spec fn is_white_space(c: char) -> bool {
    ||| '\t' <= c <= '\r'
    ||| c == ' '
    ||| c == '\u{85}'
    ||| c == '\u{a0}'
    ||| c == '\u{1680}'
    ||| '\u{2000}' <= c <= '\u{200a}'
    ||| c == '\u{2028}'
    ||| c == '\u{2029}'
    ||| c == '\u{202f}'
    ||| c == '\u{205f}'
    ||| c == '\u{3000}'
}

/// Relies on `char::is_whitespace`: true iff the character has the
/// Unicode `White_Space` property.
#[verifier::external_body]
fn white_space(c: char) -> (r: bool)
    ensures
        r == is_white_space(c),
{
    c.is_whitespace()
}

/// A byte that may appear in an HTTP header value: visible ASCII, obs-text or tab.
pub open spec fn is_header_byte(b: u8) -> bool {
    (b >= 32 && b != 127) || b == 9
}

/// Whether the UTF-8 encoding of `s` is a valid header value.
pub open spec fn is_header_value(s: Seq<char>) -> bool {
    forall|i: int| 0 <= i < encode_utf8(s).len() ==> is_header_byte(#[trigger] encode_utf8(s)[i])
}

/// Relies on `http::HeaderValue::from_str` (re-exported by axum): it fails iff
/// some byte of the string is not a valid header byte.
#[verifier::external_body]
fn header_value_accepts(s: &str) -> (r: bool)
    ensures
        r == is_header_value(s@),
{
    axum::http::HeaderValue::from_str(s).is_ok()
}

/// `s` without its leading white space.
pub open spec fn trim_start(s: Seq<char>) -> Seq<char>
    decreases s.len(),
{
    if s.len() > 0 && is_white_space(s[0]) {
        trim_start(s.drop_first())
    } else {
        s
    }
}

/// `s` without its trailing white space.
pub open spec fn trim_end(s: Seq<char>) -> Seq<char>
    decreases s.len(),
{
    if s.len() > 0 && is_white_space(s.last()) {
        trim_end(s.drop_last())
    } else {
        s
    }
}

/// `s` without leading and trailing white space.
pub open spec fn trimmed(s: Seq<char>) -> Seq<char> {
    trim_end(trim_start(s))
}

/// Removes leading and trailing white space.
pub fn trim(s: &str) -> (r: String)
    ensures
        r@ == trimmed(s@),
{
    let n = s.unicode_len();
    let mut a: usize = 0;
    assert(s@.subrange(0, n as int) =~= s@);
    while a < n && white_space(s.get_char(a))
        invariant
            n == s@.len(),
            0 <= a <= n,
            trim_start(s@) == trim_start(s@.subrange(a as int, n as int)),
        decreases n - a,
    {
        assert(s@.subrange(a as int, n as int).drop_first() =~= s@.subrange(a + 1, n as int));
        a = a + 1;
    }
    assert(trim_start(s@) == s@.subrange(a as int, n as int));
    let mut b: usize = n;
    while b > a && white_space(s.get_char(b - 1))
        invariant
            n == s@.len(),
            0 <= a <= b <= n,
            trim_end(s@.subrange(a as int, n as int)) == trim_end(s@.subrange(a as int, b as int)),
        decreases b - a,
    {
        assert(s@.subrange(a as int, b as int).drop_last() =~= s@.subrange(a as int, b - 1));
        b = b - 1;
    }
    String::from_str(s.substring_char(a, b))
}

/// The pieces between commas, in order; an input without commas is one piece.
pub open spec fn split_commas(s: Seq<char>) -> Seq<Seq<char>>
    decreases s.len(),
{
    if s.len() == 0 {
        seq![Seq::empty()]
    } else {
        let p = split_commas(s.drop_last());
        if s.last() == ',' {
            p.push(Seq::empty())
        } else {
            p.update(p.len() - 1, p.last().push(s.last()))
        }
    }
}

/// Splitting always yields at least one piece.
proof fn lemma_split_nonempty(s: Seq<char>)
    ensures
        split_commas(s).len() > 0,
    decreases s.len(),
{
    if s.len() > 0 {
        lemma_split_nonempty(s.drop_last());
    }
}

/// The trimmed, non-empty pieces that are valid header values, in order.
pub open spec fn accepted_origins(pieces: Seq<Seq<char>>) -> Seq<Seq<char>>
    decreases pieces.len(),
{
    if pieces.len() == 0 {
        Seq::empty()
    } else {
        let rest = accepted_origins(pieces.drop_last());
        let t = trimmed(pieces.last());
        if t.len() > 0 && is_header_value(t) {
            rest.push(t)
        } else {
            rest
        }
    }
}

/// The trimmed, non-empty pieces that are not valid header values, in order.
pub open spec fn rejected_origins(pieces: Seq<Seq<char>>) -> Seq<Seq<char>>
    decreases pieces.len(),
{
    if pieces.len() == 0 {
        Seq::empty()
    } else {
        let rest = rejected_origins(pieces.drop_last());
        let t = trimmed(pieces.last());
        if t.len() > 0 && !is_header_value(t) {
            rest.push(t)
        } else {
            rest
        }
    }
}

/// The origin list used when none is configured.
pub open spec fn default_origins() -> Seq<char> {
    "http://localhost:3000,http://127.0.0.1:3000,https://dca.btc.sv"@
}

/// The text the policy is read from: the configured value, else the default list.
pub open spec fn origin_source(configured: Option<&str>) -> Seq<char> {
    match configured {
        Some(s) => s@,
        None => default_origins(),
    }
}

/// The character sequences of a sequence of strings.
pub open spec fn strings_view(v: Seq<String>) -> Seq<Seq<char>> {
    v.map_values(|s: String| s@)
}

/// The parsed origin policy: the entries kept and the entries skipped as invalid.
pub struct OriginList {
    pub allowed: Vec<String>,
    pub rejected: Vec<String>,
}

/// Files one raw entry: trimmed, then dropped when empty, else kept or
/// rejected by the header-value check.
fn file_entry(piece: &str, allowed: &mut Vec<String>, rejected: &mut Vec<String>)
    ensures
        forall|pieces: Seq<Seq<char>>|
            strings_view(old(allowed)@) == accepted_origins(pieces) && strings_view(old(rejected)@)
                == rejected_origins(pieces) ==> strings_view(final(allowed)@) == accepted_origins(
                #[trigger] pieces.push(piece@),
            ) && strings_view(final(rejected)@) == rejected_origins(pieces.push(piece@)),
{
    let t = trim(piece);
    let ghost old_allowed = allowed@;
    let ghost old_rejected = rejected@;
    if t.unicode_len() > 0 {
        if header_value_accepts(t.as_str()) {
            allowed.push(t);
            assert(strings_view(allowed@) =~= strings_view(old_allowed).push(trimmed(piece@)));
        } else {
            rejected.push(t);
            assert(strings_view(rejected@) =~= strings_view(old_rejected).push(trimmed(piece@)));
        }
    }
    assert forall|pieces: Seq<Seq<char>>| #[trigger] pieces.push(piece@).drop_last() == pieces by {
        assert(pieces.push(piece@).drop_last() =~= pieces);
    }
}

/// Splits `raw` on commas, trims each entry and drops empty ones; an entry
/// that is not a valid header value is skipped and reported in `rejected`.
pub fn parse_origin_list(raw: &str) -> (r: OriginList)
    ensures
        strings_view(r.allowed@) == accepted_origins(split_commas(raw@)),
        strings_view(r.rejected@) == rejected_origins(split_commas(raw@)),
{
    let n = raw.unicode_len();
    let mut allowed: Vec<String> = Vec::new();
    let mut rejected: Vec<String> = Vec::new();
    let mut start: usize = 0;
    let mut i: usize = 0;
    let ghost mut pieces: Seq<Seq<char>> = Seq::empty();
    assert(raw@.subrange(0, 0) =~= Seq::<char>::empty());
    assert(split_commas(Seq::<char>::empty()) =~= pieces.push(raw@.subrange(0, 0)));
    assert(strings_view(allowed@) =~= Seq::<Seq<char>>::empty());
    assert(strings_view(rejected@) =~= Seq::<Seq<char>>::empty());
    while i < n
        invariant
            n == raw@.len(),
            0 <= start <= i <= n,
            split_commas(raw@.subrange(0, i as int)) == pieces.push(
                raw@.subrange(start as int, i as int),
            ),
            strings_view(allowed@) == accepted_origins(pieces),
            strings_view(rejected@) == rejected_origins(pieces),
        decreases n - i,
    {
        let ghost pre = raw@.subrange(0, i + 1);
        assert(pre.drop_last() =~= raw@.subrange(0, i as int));
        if raw.get_char(i) == ',' {
            let piece = raw.substring_char(start, i);
            file_entry(piece, &mut allowed, &mut rejected);
            assert(raw@.subrange(i + 1, i + 1) =~= Seq::<char>::empty());
            proof {
                pieces = pieces.push(piece@);
            }
            start = i + 1;
        } else {
            proof {
                lemma_split_nonempty(raw@.subrange(0, i as int));
                assert(raw@.subrange(start as int, i as int).push(raw@[i as int])
                    =~= raw@.subrange(start as int, i + 1));
                assert(split_commas(pre) =~= pieces.push(raw@.subrange(start as int, i + 1)));
            }
        }
        i = i + 1;
    }
    let piece = raw.substring_char(start, n);
    file_entry(piece, &mut allowed, &mut rejected);
    assert(raw@.subrange(0, n as int) =~= raw@);
    OriginList { allowed, rejected }
}

/// Parses the configured origin list, or the default list when none is
/// configured. Never fails: an empty result is a valid, degraded policy.
pub fn parse_allowed_origins(configured: Option<&str>) -> (r: OriginList)
    ensures
        strings_view(r.allowed@) == accepted_origins(
            split_commas(origin_source(configured)),
        ),
        strings_view(r.rejected@) == rejected_origins(
            split_commas(origin_source(configured)),
        ),
{
    match configured {
        Some(s) => parse_origin_list(s),
        None => parse_origin_list("http://localhost:3000,http://127.0.0.1:3000,https://dca.btc.sv"),
    }
}

} // verus!
