//! MIME validation: sniffs raw bytes and accepts only the image types the
//! gallery supports (JPEG, PNG, WEBP, BMP).

use vstd::prelude::*;

verus! {

use crate::str_eq;

/// Error from MIME validation.
#[derive(Clone, Copy, Debug, PartialEq, Eq, Structural)]
pub enum MimeError {
    /// The sniffed content type is not in the allow-list.
    UnsupportedMimeType,
}

/// The allow-list: the content types a gallery image may have.
pub open spec fn accepted_mime(m: Seq<char>) -> bool {
    m == "image/jpeg"@ || m == "image/png"@ || m == "image/webp"@ || m == "image/bmp"@
}

/// True exactly when `m` is in the allow-list.
pub fn mime_accepted(m: &str) -> (r: bool)
    ensures
        r == accepted_mime(m@),
{
    str_eq(m, "image/jpeg") || str_eq(m, "image/png") || str_eq(m, "image/webp") || str_eq(
        m,
        "image/bmp",
    )
}

/// Relies on tree_magic_mini::from_u8: sniffs a content-type name from the
/// bytes using the system's shared MIME database, so the result may differ
/// between machines and nothing is claimed about it.
#[verifier::external_body]
fn sniff_mime(bytes: &[u8]) -> (r: &'static str) {
    tree_magic_mini::from_u8(bytes)
}

/// Sniffs the content type of `bytes` (never the file name) and accepts
/// exactly the allow-listed image types; every other sniffed type is
/// rejected.
pub fn validate(bytes: &[u8]) -> (r: Result<String, MimeError>)
    ensures
        r matches Ok(m) ==> accepted_mime(m@),
        r matches Err(e) ==> e == MimeError::UnsupportedMimeType,
{
    let m = sniff_mime(bytes);
    if mime_accepted(m) {
        Ok(m.to_owned())
    } else {
        Err(MimeError::UnsupportedMimeType)
    }
}

/// The clipboard allow-list order: the first of these offered wins.
pub open spec fn accepted_order() -> Seq<Seq<char>> {
    seq!["image/jpeg"@, "image/png"@, "image/webp"@, "image/bmp"@]
}

/// The clipboard offers content type `m`.
pub open spec fn offered_has(offered: Seq<String>, m: Seq<char>) -> bool {
    exists|i: int| 0 <= i < offered.len() && offered[i]@ == m
}

fn offers(offered: &Vec<String>, m: &str) -> (r: bool)
    ensures
        r == offered_has(offered@, m@),
{
    let n = offered.len();
    let mut i: usize = 0;
    while i < n
        invariant
            0 <= i <= n == offered@.len(),
            forall|k: int| 0 <= k < i ==> offered@[k]@ != m@,
        decreases n - i,
    {
        if str_eq(offered[i].as_str(), m) {
            return true;
        }
        i = i + 1;
    }
    false
}

/// Picks the content type to read from the clipboard: the first type of the
/// allow-list (in allow-list order, regardless of the clipboard's order)
/// that the clipboard offers, or `None` when it offers no accepted type.
pub fn pick_clipboard_mime(offered: &Vec<String>) -> (r: Option<String>)
    ensures
        r matches Some(m) ==> (exists|j: int|
            0 <= j < accepted_order().len() && accepted_order()[j] == m@ && offered_has(
                offered@,
                m@,
            ) && (forall|k: int| 0 <= k < j ==> !offered_has(offered@, accepted_order()[k]))),
        r is None ==> (forall|j: int|
            0 <= j < accepted_order().len() ==> !offered_has(offered@, accepted_order()[j])),
{
    if offers(offered, "image/jpeg") {
        proof {
            assert(accepted_order()[0] == "image/jpeg"@);
        }
        return Some("image/jpeg".to_owned());
    }
    if offers(offered, "image/png") {
        proof {
            assert(accepted_order()[1] == "image/png"@);
        }
        return Some("image/png".to_owned());
    }
    if offers(offered, "image/webp") {
        proof {
            assert(accepted_order()[2] == "image/webp"@);
        }
        return Some("image/webp".to_owned());
    }
    if offers(offered, "image/bmp") {
        proof {
            assert(accepted_order()[3] == "image/bmp"@);
        }
        return Some("image/bmp".to_owned());
    }
    proof {
        assert forall|j: int| 0 <= j < accepted_order().len() implies !offered_has(
            offered@,
            accepted_order()[j],
        ) by {
            if j == 0 {
                assert(accepted_order()[0] == "image/jpeg"@);
            } else if j == 1 {
                assert(accepted_order()[1] == "image/png"@);
            } else if j == 2 {
                assert(accepted_order()[2] == "image/webp"@);
            } else {
                assert(accepted_order()[3] == "image/bmp"@);
            }
        }
    }
    None
}

} // verus!
