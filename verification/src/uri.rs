//! Link detection in free text: finds the first link-like token, validates a
//! bare domain against the public suffix list, normalizes the result.
//!
//! A candidate token starts at the beginning of the text, after whitespace,
//! or after an opening parenthesis. It is either an `http://` / `https://`
//! token, or a bare lowercase domain (labels of `[a-z0-9]`, at least one dot)
//! with an arbitrary non-whitespace tail. A bare domain must carry a suffix
//! that the public suffix list knows; an unknown suffix is a hard error. The
//! accepted token is normalized: bare domains get an `https://` prefix, and
//! one trailing punctuation character is stripped.

use vstd::prelude::*;

verus! {

use vstd::slice::{slice_subrange, slice_to_vec};

/// Error from link detection.
#[derive(Clone, Copy, Debug, PartialEq, Eq, Structural)]
pub enum DetectError {
    /// A bare-domain candidate whose suffix the public suffix list does not know.
    UnknownDomainSuffix,
}

/// ASCII whitespace: space, tab, line feed, vertical tab, form feed, carriage return.
pub open spec fn is_space(b: u8) -> bool {
    b == 32 || b == 9 || b == 10 || b == 11 || b == 12 || b == 13
}

/// `a` to `z`.
pub open spec fn is_lower(b: u8) -> bool {
    97 <= b <= 122
}

/// `a` to `z` or `0` to `9`: the characters of a domain label.
pub open spec fn is_lower_digit(b: u8) -> bool {
    is_lower(b) || (48 <= b <= 57)
}

/// A character that may immediately precede a candidate: whitespace or `(`.
pub open spec fn is_opener(b: u8) -> bool {
    is_space(b) || b == 40
}

/// Punctuation stripped from the end of a detected link.
pub open spec fn is_end_punct(b: u8) -> bool {
    b == 46 || b == 44 || b == 59 || b == 58 || b == 33 || b == 63
}

/// End of the run of non-whitespace bytes that starts at `i`.
pub open spec fn token_end(t: Seq<u8>, i: int) -> int
    decreases t.len() - i,
{
    if i < 0 || i >= t.len() || is_space(t[i]) {
        i
    } else {
        token_end(t, i + 1)
    }
}

/// End of the run of label characters (`[a-z0-9]`) that starts at `i`.
pub open spec fn label_end(t: Seq<u8>, i: int) -> int
    decreases t.len() - i,
{
    if i < 0 || i >= t.len() || !is_lower_digit(t[i]) {
        i
    } else {
        label_end(t, i + 1)
    }
}

proof fn lemma_label_end_range(t: Seq<u8>, i: int)
    requires
        0 <= i <= t.len(),
    ensures
        i <= label_end(t, i) <= t.len(),
    decreases t.len() - i,
{
    if i < t.len() && is_lower_digit(t[i]) {
        lemma_label_end_range(t, i + 1);
    }
}

/// End of the run of `.label` groups that starts at `i`; `i` itself if no
/// full group follows.
pub open spec fn dot_runs_end(t: Seq<u8>, i: int) -> int
    decreases t.len() - i,
    via dot_runs_end_decreases
{
    if 0 <= i && i + 1 < t.len() && t[i] == 46 && is_lower_digit(t[i + 1]) {
        dot_runs_end(t, label_end(t, i + 1))
    } else {
        i
    }
}

#[via_fn]
proof fn dot_runs_end_decreases(t: Seq<u8>, i: int) {
    if 0 <= i && i + 1 < t.len() && t[i] == 46 && is_lower_digit(t[i + 1]) {
        lemma_label_end_range(t, i + 1);
    }
}

/// End of the bare domain that starts at `p` (first label lowercase-initial,
/// then at least one `.label` group), or -1 if no domain starts there.
pub open spec fn domain_end(t: Seq<u8>, p: int) -> int {
    if 0 <= p < t.len() && is_lower(t[p]) {
        let a = label_end(t, p);
        let e = dot_runs_end(t, a);
        if e > a {
            e
        } else {
            -1
        }
    } else {
        -1
    }
}

/// Length of an `http://` or `https://` prefix at `p`; 0 if neither is there.
pub open spec fn scheme_len(t: Seq<u8>, p: int) -> int {
    if 0 <= p && p + 7 <= t.len() && t[p] == 104 && t[p + 1] == 116 && t[p + 2] == 116 && t[p + 3]
        == 112 {
        if t[p + 4] == 58 && t[p + 5] == 47 && t[p + 6] == 47 {
            7
        } else if p + 8 <= t.len() && t[p + 4] == 115 && t[p + 5] == 58 && t[p + 6] == 47 && t[p
            + 7] == 47 {
            8
        } else {
            0
        }
    } else {
        0
    }
}

/// A scheme-prefixed candidate at `p`: the prefix plus at least one
/// non-whitespace byte.
pub open spec fn scheme_ok(t: Seq<u8>, p: int) -> bool {
    let l = scheme_len(t, p);
    l > 0 && p + l < t.len() && !is_space(t[p + l])
}

/// `p` is at the start of the text, or right after whitespace or `(`.
pub open spec fn anchored(t: Seq<u8>, p: int) -> bool {
    p == 0 || (0 < p <= t.len() && is_opener(t[p - 1]))
}

/// A link-like candidate starts at `p`.
pub open spec fn match_at(t: Seq<u8>, p: int) -> bool {
    0 <= p < t.len() && anchored(t, p) && (scheme_ok(t, p) || domain_end(t, p) >= 0)
}

/// Position of the first candidate at or after `p`, or -1.
pub open spec fn first_match_from(t: Seq<u8>, p: int) -> int
    decreases t.len() - p,
{
    if p < 0 || p >= t.len() {
        -1
    } else if match_at(t, p) {
        p
    } else {
        first_match_from(t, p + 1)
    }
}

/// Position of the first candidate in the text, or -1 if there is none.
pub open spec fn first_match(t: Seq<u8>) -> int {
    first_match_from(t, 0)
}

proof fn lemma_first_match_from_range(t: Seq<u8>, p: int)
    requires
        0 <= p,
    ensures
        first_match_from(t, p) == -1 || p <= first_match_from(t, p) < t.len(),
    decreases t.len() - p,
{
    if p < t.len() && !match_at(t, p) {
        lemma_first_match_from_range(t, p + 1);
    }
}

/// The bytes of `https://`.
pub open spec fn https_prefix() -> Seq<u8> {
    seq![104u8, 116u8, 116u8, 112u8, 115u8, 58u8, 47u8, 47u8]
}

/// The detected link before punctuation stripping: the whole non-whitespace
/// token, with `https://` prepended for a bare domain.
pub open spec fn raw_uri(t: Seq<u8>, p: int) -> Seq<u8> {
    if scheme_ok(t, p) {
        t.subrange(p, token_end(t, p))
    } else {
        https_prefix() + t.subrange(p, token_end(t, p))
    }
}

/// The domain label of a bare-domain candidate at `p`.
pub open spec fn domain_seq(t: Seq<u8>, p: int) -> Seq<u8> {
    t.subrange(p, domain_end(t, p))
}

/// Strips one trailing punctuation byte, or a trailing `)` when the link
/// contains no `(`.
pub open spec fn strip_end(u: Seq<u8>) -> Seq<u8> {
    if u.len() > 0 && is_end_punct(u.last()) {
        u.drop_last()
    } else if u.len() > 0 && u.last() == 41 && !u.contains(40u8) {
        u.drop_last()
    } else {
        u
    }
}

/// Whether the public suffix list knows the suffix of this domain.
pub uninterp spec fn known_suffix(domain: Seq<u8>) -> bool;

/// Relies on psl::suffix and psl_types::Suffix::is_known: the suffix of the
/// domain is looked up in the public suffix list compiled into the crate, so
/// the answer depends on the domain bytes alone.
#[verifier::external_body]
fn suffix_is_known(domain: &[u8]) -> (r: bool)
    ensures
        r == known_suffix(domain@),
{
    match psl::suffix(domain) {
        Some(s) => s.is_known(),
        None => false,
    }
}

fn e_is_space(b: u8) -> (r: bool)
    ensures
        r == is_space(b),
{
    b == 32 || b == 9 || b == 10 || b == 11 || b == 12 || b == 13
}

fn e_is_lower(b: u8) -> (r: bool)
    ensures
        r == is_lower(b),
{
    97 <= b && b <= 122
}

fn e_is_lower_digit(b: u8) -> (r: bool)
    ensures
        r == is_lower_digit(b),
{
    (97 <= b && b <= 122) || (48 <= b && b <= 57)
}

fn e_is_opener(b: u8) -> (r: bool)
    ensures
        r == is_opener(b),
{
    e_is_space(b) || b == 40
}

fn e_is_end_punct(b: u8) -> (r: bool)
    ensures
        r == is_end_punct(b),
{
    b == 46 || b == 44 || b == 59 || b == 58 || b == 33 || b == 63
}

fn e_token_end(t: &[u8], i: usize) -> (r: usize)
    requires
        i <= t@.len(),
    ensures
        r as int == token_end(t@, i as int),
        i <= r <= t@.len(),
{
    let n = t.len();
    let mut j = i;
    while j < n && !e_is_space(t[j])
        invariant
            i <= j <= n == t@.len(),
            token_end(t@, i as int) == token_end(t@, j as int),
        decreases n - j,
    {
        j = j + 1;
    }
    j
}

fn e_label_end(t: &[u8], i: usize) -> (r: usize)
    requires
        i <= t@.len(),
    ensures
        r as int == label_end(t@, i as int),
        i <= r <= t@.len(),
{
    let n = t.len();
    let mut j = i;
    while j < n && e_is_lower_digit(t[j])
        invariant
            i <= j <= n == t@.len(),
            label_end(t@, i as int) == label_end(t@, j as int),
        decreases n - j,
    {
        j = j + 1;
    }
    j
}

fn e_domain_end(t: &[u8], p: usize) -> (r: Option<usize>)
    requires
        p < t@.len(),
    ensures
        match r {
            Some(e) => e as int == domain_end(t@, p as int) && p < e <= t@.len(),
            None => domain_end(t@, p as int) == -1,
        },
{
    let n = t.len();
    if !e_is_lower(t[p]) {
        return None;
    }
    let a = e_label_end(t, p);
    let mut cur = a;
    while cur < n && t[cur] == 46 && cur + 1 < n && e_is_lower_digit(t[cur + 1])
        invariant
            a <= cur <= n == t@.len(),
            dot_runs_end(t@, a as int) == dot_runs_end(t@, cur as int),
        decreases n - cur,
    {
        let next = e_label_end(t, cur + 1);
        proof {
            lemma_label_end_range(t@, cur + 2);
            assert(label_end(t@, cur as int + 1) == label_end(t@, cur as int + 2));
            assert(dot_runs_end(t@, cur as int) == dot_runs_end(t@, next as int));
        }
        cur = next;
    }
    if cur > a {
        Some(cur)
    } else {
        None
    }
}

fn e_scheme_len(t: &[u8], p: usize) -> (r: usize)
    requires
        p < t@.len(),
    ensures
        r as int == scheme_len(t@, p as int),
{
    let n = t.len();
    if n - p >= 7 && t[p] == 104 && t[p + 1] == 116 && t[p + 2] == 116 && t[p + 3] == 112 {
        if t[p + 4] == 58 && t[p + 5] == 47 && t[p + 6] == 47 {
            7
        } else if n - p >= 8 && t[p + 4] == 115 && t[p + 5] == 58 && t[p + 6] == 47 && t[p + 7]
            == 47 {
            8
        } else {
            0
        }
    } else {
        0
    }
}

fn e_scheme_ok(t: &[u8], p: usize) -> (r: bool)
    requires
        p < t@.len(),
    ensures
        r == scheme_ok(t@, p as int),
{
    let l = e_scheme_len(t, p);
    l > 0 && l < t.len() - p && !e_is_space(t[p + l])
}

fn e_match_at(t: &[u8], p: usize) -> (r: bool)
    requires
        p < t@.len(),
    ensures
        r == match_at(t@, p as int),
{
    let anch = p == 0 || e_is_opener(t[p - 1]);
    if !anch {
        return false;
    }
    if e_scheme_ok(t, p) {
        return true;
    }
    e_domain_end(t, p).is_some()
}

fn contains_byte(u: &Vec<u8>, b: u8) -> (r: bool)
    ensures
        r == u@.contains(b),
{
    let n = u.len();
    let mut i: usize = 0;
    while i < n
        invariant
            0 <= i <= n == u@.len(),
            forall|k: int| 0 <= k < i ==> u@[k] != b,
        decreases n - i,
    {
        if u[i] == b {
            return true;
        }
        i = i + 1;
    }
    false
}

/// Scans the text (UTF-8 bytes) for the first link-like candidate.
///
/// Returns `Ok(None)` exactly when no candidate exists. For a candidate with
/// an explicit scheme, returns the token with one trailing punctuation byte
/// stripped. For a bare-domain candidate, the domain's suffix must be known
/// to the public suffix list — otherwise the unknown suffix is a hard error —
/// and the accepted token is returned with `https://` prepended and trailing
/// punctuation stripped. Text after the first candidate is never scanned.
pub fn detect_uri(text: &[u8]) -> (r: Result<Option<Vec<u8>>, DetectError>)
    ensures
        ({
            let t = text@;
            let p = first_match(t);
            &&& (p == -1 || 0 <= p < t.len())
            &&& (p == -1 <==> r == Result::<Option<Vec<u8>>, DetectError>::Ok(None::<Vec<u8>>))
            &&& (p >= 0 && scheme_ok(t, p) ==> (r matches Ok(Some(u)) && u@ == strip_end(
                raw_uri(t, p),
            )))
            &&& (p >= 0 && !scheme_ok(t, p) && known_suffix(domain_seq(t, p)) ==> (r matches Ok(
                Some(u),
            ) && u@ == strip_end(raw_uri(t, p))))
            &&& (p >= 0 && !scheme_ok(t, p) && !known_suffix(domain_seq(t, p)) ==> r == Result::<
                Option<Vec<u8>>,
                DetectError,
            >::Err(DetectError::UnknownDomainSuffix))
        }),
{
    let ghost t = text@;
    proof {
        lemma_first_match_from_range(t, 0);
    }
    let n = text.len();
    let mut p: usize = 0;
    let mut found: bool = false;
    while p < n && !found
        invariant
            0 <= p <= n == t.len(),
            text@ == t,
            found ==> p < n && match_at(t, p as int) && first_match(t) == p,
            !found ==> first_match_from(t, p as int) == first_match(t),
            !found ==> forall|k: int| 0 <= k < p ==> !match_at(t, k),
        decreases n - p + (if found { 0int } else { 1int }),
    {
        if e_match_at(text, p) {
            found = true;
        } else {
            p = p + 1;
        }
    }
    if !found {
        return Ok(None);
    }
    let te = e_token_end(text, p);
    let mut u: Vec<u8>;
    if e_scheme_ok(text, p) {
        u = slice_to_vec(slice_subrange(text, p, te));
        proof {
            assert(u@ =~= raw_uri(t, p as int));
        }
    } else {
        let de = match e_domain_end(text, p) {
            Some(de) => de,
            None => {
                proof {
                    assert(false);
                }
                return Ok(None);
            },
        };
        if !suffix_is_known(slice_subrange(text, p, de)) {
            return Err(DetectError::UnknownDomainSuffix);
        }
        u = Vec::new();
        u.push(104);
        u.push(116);
        u.push(116);
        u.push(112);
        u.push(115);
        u.push(58);
        u.push(47);
        u.push(47);
        proof {
            assert(u@ =~= https_prefix());
        }
        let mut tail = slice_to_vec(slice_subrange(text, p, te));
        u.append(&mut tail);
        proof {
            assert(u@ =~= raw_uri(t, p as int));
        }
    }
    let ghost raw = u@;
    if u.len() > 0 {
        let last = u[u.len() - 1];
        if e_is_end_punct(last) {
            u.pop();
        } else if last == 41 && !contains_byte(&u, 40) {
            u.pop();
        }
    }
    proof {
        assert(u@ =~= strip_end(raw));
    }
    Ok(Some(u))
}

} // verus!
