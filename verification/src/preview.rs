//! Link-preview metadata: a best-effort scan of fetched HTML for
//! `<meta property="og:..." content="...">` tags.
//!
//! The scan walks the text once: for every `<meta` occurrence it reads the
//! attribute text up to the closing `>`, takes the double-quoted `property`
//! and `content` attribute values, and keeps the pair when the property name
//! starts with `og:`. The preview card uses the first `og:title`,
//! `og:description` and `og:image` pairs, with title and description
//! defaulting to empty when absent.

use vstd::prelude::*;

verus! {

use vstd::slice::{slice_subrange, slice_to_vec};
use crate::uri::is_space;

/// `pat` occurs in `t` at position `i`.
pub open spec fn starts_at(t: Seq<u8>, pat: Seq<u8>, i: int) -> bool {
    0 <= i && i + pat.len() <= t.len() && t.subrange(i, i + pat.len()) == pat
}

/// First occurrence of `pat` in `t` at or after `i`, or -1.
pub open spec fn find_from(t: Seq<u8>, pat: Seq<u8>, i: int) -> int
    decreases t.len() - i,
{
    if i < 0 || pat.len() == 0 || i + pat.len() > t.len() {
        -1
    } else if starts_at(t, pat, i) {
        i
    } else {
        find_from(t, pat, i + 1)
    }
}

proof fn lemma_find_from_range(t: Seq<u8>, pat: Seq<u8>, i: int)
    requires
        0 <= i,
        pat.len() > 0,
    ensures
        find_from(t, pat, i) == -1 || (i <= find_from(t, pat, i) && find_from(t, pat, i)
            + pat.len() <= t.len()),
    decreases t.len() - i,
{
    if i + pat.len() <= t.len() && !starts_at(t, pat, i) {
        lemma_find_from_range(t, pat, i + 1);
    }
}

/// First occurrence of `pat` at or after `i` that sits at an attribute
/// boundary (start of the segment or after whitespace), or -1.
pub open spec fn find_attr_from(t: Seq<u8>, pat: Seq<u8>, i: int) -> int
    decreases t.len() - i,
{
    if i < 0 || pat.len() == 0 || i + pat.len() > t.len() {
        -1
    } else if starts_at(t, pat, i) && (i == 0 || is_space(t[i - 1])) {
        i
    } else {
        find_attr_from(t, pat, i + 1)
    }
}

proof fn lemma_find_attr_from_range(t: Seq<u8>, pat: Seq<u8>, i: int)
    requires
        0 <= i,
        pat.len() > 0,
    ensures
        find_attr_from(t, pat, i) == -1 || (i <= find_attr_from(t, pat, i) && find_attr_from(
            t,
            pat,
            i,
        ) + pat.len() <= t.len()),
    decreases t.len() - i,
{
    if i + pat.len() <= t.len() && !(starts_at(t, pat, i) && (i == 0 || is_space(t[i - 1]))) {
        lemma_find_attr_from_range(t, pat, i + 1);
    }
}

/// The bytes of `name="`, the opener of a double-quoted attribute.
pub open spec fn attr_pat(name: Seq<u8>) -> Seq<u8> {
    name + seq![61u8, 34u8]
}

/// The double-quoted value of attribute `name` inside the tag text `seg`,
/// if the attribute and its closing quote are there.
pub open spec fn attr_value(seg: Seq<u8>, name: Seq<u8>) -> Option<Seq<u8>> {
    let s = find_attr_from(seg, attr_pat(name), 0);
    if s < 0 {
        None
    } else {
        let vs = s + attr_pat(name).len();
        let ve = find_from(seg, seq![34u8], vs);
        if ve < 0 {
            None
        } else {
            Some(seg.subrange(vs, ve))
        }
    }
}

/// The bytes of `<meta`.
pub open spec fn meta_open() -> Seq<u8> {
    seq![60u8, 109u8, 101u8, 116u8, 97u8]
}

/// The bytes of `property`.
pub open spec fn property_name() -> Seq<u8> {
    seq![112u8, 114u8, 111u8, 112u8, 101u8, 114u8, 116u8, 121u8]
}

/// The bytes of `content`.
pub open spec fn content_name() -> Seq<u8> {
    seq![99u8, 111u8, 110u8, 116u8, 101u8, 110u8, 116u8]
}

/// The property name starts with `og:`.
pub open spec fn is_og_name(p: Seq<u8>) -> bool {
    p.len() >= 3 && p[0] == 111 && p[1] == 103 && p[2] == 58
}

/// The `(property, content)` pairs of all open-graph meta tags at or after
/// `i`, in document order.
pub open spec fn og_pairs_from(t: Seq<u8>, i: int) -> Seq<(Seq<u8>, Seq<u8>)>
    decreases t.len() - i,
    via og_pairs_from_decreases
{
    if i < 0 {
        Seq::empty()
    } else {
        let m = find_from(t, meta_open(), i);
        if m < 0 {
            Seq::empty()
        } else {
            let g = find_from(t, seq![62u8], m + 5);
            if g < 0 {
                Seq::empty()
            } else {
                let seg = t.subrange(m + 5, g);
                let rest = og_pairs_from(t, g + 1);
                match (attr_value(seg, property_name()), attr_value(seg, content_name())) {
                    (Some(p), Some(c)) => if is_og_name(p) {
                        seq![(p, c)] + rest
                    } else {
                        rest
                    },
                    _ => rest,
                }
            }
        }
    }
}

#[via_fn]
proof fn og_pairs_from_decreases(t: Seq<u8>, i: int) {
    if i >= 0 {
        let m = find_from(t, meta_open(), i);
        lemma_find_from_range(t, meta_open(), i);
        if m >= 0 {
            let g = find_from(t, seq![62u8], m + 5);
            lemma_find_from_range(t, seq![62u8], m + 5);
        }
    }
}

/// All open-graph pairs of the document.
pub open spec fn og_pairs(t: Seq<u8>) -> Seq<(Seq<u8>, Seq<u8>)> {
    og_pairs_from(t, 0)
}

/// Content of the first pair whose property is `name`, if any.
pub open spec fn first_og(pairs: Seq<(Seq<u8>, Seq<u8>)>, name: Seq<u8>) -> Option<Seq<u8>>
    decreases pairs.len(),
{
    if pairs.len() == 0 {
        None
    } else if pairs[0].0 == name {
        Some(pairs[0].1)
    } else {
        first_og(pairs.skip(1), name)
    }
}

/// The bytes of `og:title`.
pub open spec fn title_name() -> Seq<u8> {
    seq![111u8, 103u8, 58u8, 116u8, 105u8, 116u8, 108u8, 101u8]
}

/// The bytes of `og:description`.
pub open spec fn description_name() -> Seq<u8> {
    seq![
        111u8,
        103u8,
        58u8,
        100u8,
        101u8,
        115u8,
        99u8,
        114u8,
        105u8,
        112u8,
        116u8,
        105u8,
        111u8,
        110u8,
    ]
}

/// The bytes of `og:image`.
pub open spec fn image_name() -> Seq<u8> {
    seq![111u8, 103u8, 58u8, 105u8, 109u8, 97u8, 103u8, 101u8]
}

/// The page title of the preview: the first `og:title`, or empty.
pub open spec fn og_title(t: Seq<u8>) -> Seq<u8> {
    match first_og(og_pairs(t), title_name()) {
        Some(c) => c,
        None => Seq::empty(),
    }
}

/// The description of the preview: the first `og:description`, or empty.
pub open spec fn og_description(t: Seq<u8>) -> Seq<u8> {
    match first_og(og_pairs(t), description_name()) {
        Some(c) => c,
        None => Seq::empty(),
    }
}

/// The thumbnail address of the preview: the first `og:image`, if any.
pub open spec fn og_image(t: Seq<u8>) -> Option<Seq<u8>> {
    first_og(og_pairs(t), image_name())
}

/// The byte-level views of collected pairs.
pub open spec fn pairs_view(s: Seq<(Vec<u8>, Vec<u8>)>) -> Seq<(Seq<u8>, Seq<u8>)> {
    s.map_values(|p: (Vec<u8>, Vec<u8>)| (p.0@, p.1@))
}

/// True exactly when the two byte slices hold the same bytes.
pub fn bytes_eq(a: &[u8], b: &[u8]) -> (r: bool)
    ensures
        r == (a@ == b@),
{
    let n = a.len();
    if n != b.len() {
        proof {
            assert(a@ != b@);
        }
        return false;
    }
    let mut i: usize = 0;
    while i < n
        invariant
            0 <= i <= n == a@.len() == b@.len(),
            forall|k: int| 0 <= k < i ==> a@[k] == b@[k],
        decreases n - i,
    {
        if a[i] != b[i] {
            return false;
        }
        i = i + 1;
    }
    proof {
        assert(a@ =~= b@);
    }
    true
}

fn e_starts_at(t: &[u8], pat: &[u8], i: usize) -> (r: bool)
    requires
        i + pat@.len() <= t@.len(),
    ensures
        r == starts_at(t@, pat@, i as int),
{
    let n = t.len();
    let m = pat.len();
    let mut k: usize = 0;
    while k < m
        invariant
            0 <= k <= m == pat@.len(),
            i + m <= n == t@.len(),
            forall|j: int| 0 <= j < k ==> t@[i + j] == pat@[j],
        decreases m - k,
    {
        if t[i + k] != pat[k] {
            proof {
                assert(t@.subrange(i as int, i + m) != pat@) by {
                    assert(t@.subrange(i as int, i + m)[k as int] == t@[i + k]);
                }
            }
            return false;
        }
        k = k + 1;
    }
    proof {
        assert(t@.subrange(i as int, i + m) =~= pat@);
    }
    true
}

fn e_find_from(t: &[u8], pat: &[u8], from: usize) -> (r: Option<usize>)
    requires
        pat@.len() >= 1,
        from <= t@.len(),
    ensures
        match r {
            Some(j) => j as int == find_from(t@, pat@, from as int) && from <= j && j + pat@.len()
                <= t@.len(),
            None => find_from(t@, pat@, from as int) == -1,
        },
{
    let n = t.len();
    let m = pat.len();
    if m > n || from > n - m {
        return None;
    }
    let mut i = from;
    while i <= n - m
        invariant
            from <= i <= n - m + 1,
            1 <= m <= n == t@.len(),
            m == pat@.len(),
            find_from(t@, pat@, from as int) == find_from(t@, pat@, i as int),
        decreases n - i,
    {
        if e_starts_at(t, pat, i) {
            return Some(i);
        }
        i = i + 1;
    }
    None
}

fn e_find_attr_from(t: &[u8], pat: &[u8], from: usize) -> (r: Option<usize>)
    requires
        pat@.len() >= 1,
        from <= t@.len(),
    ensures
        match r {
            Some(j) => j as int == find_attr_from(t@, pat@, from as int) && from <= j && j
                + pat@.len() <= t@.len(),
            None => find_attr_from(t@, pat@, from as int) == -1,
        },
{
    let n = t.len();
    let m = pat.len();
    if m > n || from > n - m {
        return None;
    }
    let mut i = from;
    while i <= n - m
        invariant
            from <= i <= n - m + 1,
            1 <= m <= n == t@.len(),
            m == pat@.len(),
            find_attr_from(t@, pat@, from as int) == find_attr_from(t@, pat@, i as int),
        decreases n - i,
    {
        let boundary = i == 0 || {
            let b = t[i - 1];
            b == 32 || b == 9 || b == 10 || b == 11 || b == 12 || b == 13
        };
        if boundary && e_starts_at(t, pat, i) {
            return Some(i);
        }
        i = i + 1;
    }
    None
}

fn e_attr_value(seg: &[u8], name: &[u8]) -> (r: Option<Vec<u8>>)
    requires
        name@.len() >= 1,
    ensures
        match r {
            Some(v) => attr_value(seg@, name@) == Some(v@),
            None => attr_value(seg@, name@) is None,
        },
{
    let mut pat = slice_to_vec(name);
    pat.push(61);
    pat.push(34);
    proof {
        assert(pat@ =~= attr_pat(name@));
    }
    let s = match e_find_attr_from(seg, pat.as_slice(), 0) {
        Some(s) => s,
        None => {
            return None;
        },
    };
    let seg_len = seg.len();
    proof {
        assert(s + pat@.len() <= seg_len);
    }
    let vs = s + pat.len();
    let quote: Vec<u8> = vec![34u8];
    proof {
        assert(quote@ =~= seq![34u8]);
    }
    let ve = match e_find_from(seg, quote.as_slice(), vs) {
        Some(ve) => ve,
        None => {
            return None;
        },
    };
    Some(slice_to_vec(slice_subrange(seg, vs, ve)))
}

/// Collects the open-graph `(property, content)` pairs of the document at or
/// after byte `i`, in document order.
fn e_og_pairs(t: &[u8], i: usize) -> (r: Vec<(Vec<u8>, Vec<u8>)>)
    requires
        i <= t@.len(),
    ensures
        pairs_view(r@) == og_pairs_from(t@, i as int),
    decreases t@.len() - i,
{
    let meta: Vec<u8> = vec![60u8, 109u8, 101u8, 116u8, 97u8];
    proof {
        assert(meta@ =~= meta_open());
    }
    let t_len = t.len();
    let m = match e_find_from(t, meta.as_slice(), i) {
        Some(m) => m,
        None => {
            let r: Vec<(Vec<u8>, Vec<u8>)> = Vec::new();
            proof {
                assert(pairs_view(r@) =~= og_pairs_from(t@, i as int));
            }
            return r;
        },
    };
    let gt: Vec<u8> = vec![62u8];
    proof {
        assert(gt@ =~= seq![62u8]);
        assert(m + meta@.len() <= t_len);
    }
    let g = match e_find_from(t, gt.as_slice(), m + 5) {
        Some(g) => g,
        None => {
            let r: Vec<(Vec<u8>, Vec<u8>)> = Vec::new();
            proof {
                assert(pairs_view(r@) =~= og_pairs_from(t@, i as int));
            }
            return r;
        },
    };
    let seg = slice_subrange(t, m + 5, g);
    let prop: Vec<u8> = vec![112u8, 114u8, 111u8, 112u8, 101u8, 114u8, 116u8, 121u8];
    let cont: Vec<u8> = vec![99u8, 111u8, 110u8, 116u8, 101u8, 110u8, 116u8];
    proof {
        assert(prop@ =~= property_name());
        assert(cont@ =~= content_name());
    }
    let pv = e_attr_value(seg, prop.as_slice());
    let cv = e_attr_value(seg, cont.as_slice());
    proof {
        assert(g + 1 <= t_len);
    }
    let mut rest = e_og_pairs(t, g + 1);
    match (pv, cv) {
        (Some(p), Some(c)) => {
            let og = p.len() >= 3 && p[0] == 111 && p[1] == 103 && p[2] == 58;
            if og {
                let mut out: Vec<(Vec<u8>, Vec<u8>)> = Vec::new();
                let ghost pv_g = p@;
                let ghost cv_g = c@;
                out.push((p, c));
                out.append(&mut rest);
                proof {
                    assert(pairs_view(out@) =~= seq![(pv_g, cv_g)] + og_pairs_from(
                        t@,
                        g + 1 as int,
                    ));
                }
                out
            } else {
                rest
            }
        },
        _ => rest,
    }
}

/// Scans fetched HTML (UTF-8 bytes) for the preview metadata: the first
/// `og:title` and `og:description` (empty when absent) and the first
/// `og:image` address (absent when no tag names one).
pub fn extract_og_meta(html: &[u8]) -> (r: (Vec<u8>, Vec<u8>, Option<Vec<u8>>))
    ensures
        r.0@ == og_title(html@),
        r.1@ == og_description(html@),
        match r.2 {
            Some(v) => og_image(html@) == Some(v@),
            None => og_image(html@) is None,
        },
{
    let pairs = e_og_pairs(html, 0);
    let title_n: Vec<u8> = vec![111u8, 103u8, 58u8, 116u8, 105u8, 116u8, 108u8, 101u8];
    let desc_n: Vec<u8> = vec![
        111u8,
        103u8,
        58u8,
        100u8,
        101u8,
        115u8,
        99u8,
        114u8,
        105u8,
        112u8,
        116u8,
        105u8,
        111u8,
        110u8,
    ];
    let image_n: Vec<u8> = vec![111u8, 103u8, 58u8, 105u8, 109u8, 97u8, 103u8, 101u8];
    proof {
        assert(title_n@ =~= title_name());
        assert(desc_n@ =~= description_name());
        assert(image_n@ =~= image_name());
    }
    let title = match find_pair(&pairs, title_n.as_slice()) {
        Some(v) => v,
        None => Vec::new(),
    };
    let description = match find_pair(&pairs, desc_n.as_slice()) {
        Some(v) => v,
        None => Vec::new(),
    };
    let image = find_pair(&pairs, image_n.as_slice());
    proof {
        if first_og(og_pairs(html@), title_name()) is None {
            assert(Seq::<u8>::empty() =~= og_title(html@));
        }
        if first_og(og_pairs(html@), description_name()) is None {
            assert(Seq::<u8>::empty() =~= og_description(html@));
        }
    }
    (title, description, image)
}

/// Content of the first collected pair whose property is `name`.
fn find_pair(pairs: &Vec<(Vec<u8>, Vec<u8>)>, name: &[u8]) -> (r: Option<Vec<u8>>)
    ensures
        match r {
            Some(v) => first_og(pairs_view(pairs@), name@) == Some(v@),
            None => first_og(pairs_view(pairs@), name@) is None,
        },
{
    let n = pairs.len();
    let mut i: usize = 0;
    proof {
        assert(pairs_view(pairs@).skip(0) =~= pairs_view(pairs@));
    }
    while i < n
        invariant
            0 <= i <= n == pairs@.len(),
            first_og(pairs_view(pairs@), name@) == first_og(
                pairs_view(pairs@).skip(i as int),
                name@,
            ),
        decreases n - i,
    {
        let ghost pre = pairs_view(pairs@).skip(i as int);
        if bytes_eq(pairs[i].0.as_slice(), name) {
            proof {
                assert(pre[0] == pairs_view(pairs@)[i as int]);
            }
            return Some(slice_to_vec(pairs[i].1.as_slice()));
        }
        proof {
            assert(pre[0] == pairs_view(pairs@)[i as int]);
            assert(pre.skip(1) =~= pairs_view(pairs@).skip(i + 1));
        }
        i = i + 1;
    }
    proof {
        assert(pairs_view(pairs@).skip(n as int) =~= Seq::<(Seq<u8>, Seq<u8>)>::empty());
    }
    None
}

} // verus!
