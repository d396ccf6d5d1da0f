//! Attachment-section handling: splitting a post's lines into body text and
//! attachment lines at the `---` separator.

use vstd::prelude::*;

verus! {

use crate::separator_chars;
use crate::str_eq;

/// First index of the separator line in `ls` at or after `i`, or -1.
pub open spec fn sep_pos_from(ls: Seq<String>, i: int) -> int
    decreases ls.len() - i,
{
    if i < 0 || i >= ls.len() {
        -1
    } else if ls[i]@ == separator_chars() {
        i
    } else {
        sep_pos_from(ls, i + 1)
    }
}

/// First index of the separator line, or -1 if there is none.
pub open spec fn sep_pos(ls: Seq<String>) -> int {
    sep_pos_from(ls, 0)
}

proof fn lemma_sep_pos_from_range(ls: Seq<String>, i: int)
    requires
        0 <= i <= ls.len(),
    ensures
        sep_pos_from(ls, i) == -1 || i <= sep_pos_from(ls, i) < ls.len(),
        sep_pos_from(ls, i) >= 0 ==> ls[sep_pos_from(ls, i)]@ == separator_chars(),
    decreases ls.len() - i,
{
    if i < ls.len() && ls[i]@ != separator_chars() {
        lemma_sep_pos_from_range(ls, i + 1);
    }
}

/// Splits an ordered list of lines at the first separator line `---`: lines
/// before it are the post body, lines after it are the attachment list, and
/// the separator itself is discarded. Without a separator the whole input is
/// body and the attachment list is empty.
pub fn split_section(lines: Vec<String>) -> (r: (Vec<String>, Vec<String>))
    ensures
        sep_pos(lines@) == -1 || 0 <= sep_pos(lines@) < lines@.len(),
        sep_pos(lines@) == -1 ==> r.0@ == lines@ && r.1@.len() == 0,
        sep_pos(lines@) >= 0 ==> r.0@ == lines@.take(sep_pos(lines@)) && r.1@ == lines@.skip(
            sep_pos(lines@) + 1,
        ),
{
    let mut lines = lines;
    let ghost ls = lines@;
    proof {
        lemma_sep_pos_from_range(ls, 0);
    }
    let n = lines.len();
    let mut i: usize = 0;
    let mut found: bool = false;
    while i < n && !found
        invariant
            0 <= i <= n == ls.len(),
            lines@ == ls,
            found ==> i < n && ls[i as int]@ == separator_chars(),
            found ==> sep_pos(ls) == i,
            !found ==> sep_pos_from(ls, i as int) == sep_pos(ls),
            !found ==> forall|k: int| 0 <= k < i ==> ls[k]@ != separator_chars(),
        decreases n - i + (if found { 0int } else { 1int }),
    {
        let is_sep = str_eq(lines[i].as_str(), "---");
        if is_sep {
            found = true;
        } else {
            i = i + 1;
        }
    }
    if !found {
        let r1: Vec<String> = Vec::new();
        return (lines, r1);
    }
    let mut rest = lines.split_off(i);
    rest.remove(0);
    proof {
        assert(lines@ =~= ls.take(sep_pos(ls)));
        assert(rest@ =~= ls.skip(sep_pos(ls) + 1));
    }
    (lines, rest)
}

/// The body of the post: every line before the separator, or all lines when
/// there is none.
pub open spec fn body_lines(ls: Seq<String>) -> Seq<String> {
    if sep_pos(ls) == -1 {
        ls
    } else {
        ls.take(sep_pos(ls))
    }
}

/// The attachment list: every line after the separator, or nothing when
/// there is none.
pub open spec fn attach_lines(ls: Seq<String>) -> Seq<String> {
    if sep_pos(ls) == -1 {
        Seq::empty()
    } else {
        ls.skip(sep_pos(ls) + 1)
    }
}

/// The literal line that asks for the clipboard image.
pub open spec fn clipboard_marker() -> Seq<char> {
    "[clipboard]"@
}

/// The most images a gallery may carry; excess tokens are dropped silently.
pub const MAX_GALLERY_IMAGES: usize = 4;

/// Error from attachment-token classification.
#[derive(Clone, Copy, Debug, PartialEq, Eq, Structural)]
pub enum TokenError {
    /// An attachment line that is neither the clipboard marker nor an
    /// existing file.
    InvalidEmbedToken,
}

/// A classified attachment token: an image file on disk, or the clipboard.
#[derive(Debug)]
pub enum ImageToken {
    FilePath(String),
    Clipboard,
}

impl PartialEq for ImageToken {
    fn eq(&self, other: &ImageToken) -> (r: bool) {
        match (self, other) {
            (ImageToken::Clipboard, ImageToken::Clipboard) => true,
            (ImageToken::FilePath(a), ImageToken::FilePath(b)) => str_eq(
                a.as_str(),
                b.as_str(),
            ),
            _ => false,
        }
    }
}

impl vstd::std_specs::cmp::PartialEqSpecImpl for ImageToken {
    open spec fn obeys_eq_spec() -> bool {
        true
    }

    open spec fn eq_spec(&self, other: &ImageToken) -> bool {
        match (self, other) {
            (ImageToken::Clipboard, ImageToken::Clipboard) => true,
            (ImageToken::FilePath(a), ImageToken::FilePath(b)) => a@ == b@,
            _ => false,
        }
    }
}

/// An attachment line is valid when it is the clipboard marker or names an
/// existing regular file (`ok` reports the file-system probe for the line).
pub open spec fn line_valid(line: String, ok: bool) -> bool {
    line@ == clipboard_marker() || ok
}

/// The token that a valid attachment line stands for.
pub open spec fn token_for(tok: ImageToken, line: String) -> bool {
    if line@ == clipboard_marker() {
        tok is Clipboard
    } else {
        tok matches ImageToken::FilePath(p) && p@ == line@
    }
}

/// Turns attachment lines into image tokens. `file_ok[i]` reports whether
/// line `i` names an existing regular file; the caller probes the file
/// system. A line that is neither the clipboard marker nor an existing file
/// fails the whole batch. After validation only the first
/// `MAX_GALLERY_IMAGES` tokens are kept; the rest are dropped without error.
pub fn resolve_tokens(lines: &Vec<String>, file_ok: &Vec<bool>) -> (r: Result<
    Vec<ImageToken>,
    TokenError,
>)
    requires
        lines@.len() == file_ok@.len(),
    ensures
        (r is Ok) <==> (forall|i: int|
            0 <= i < lines@.len() ==> line_valid(lines@[i], file_ok@[i])),
        (r matches Err(e) ==> e == TokenError::InvalidEmbedToken),
        (r matches Ok(toks) ==> toks@.len() == vstd::math::min(
            lines@.len() as int,
            MAX_GALLERY_IMAGES as int,
        ) && (forall|i: int| 0 <= i < toks@.len() ==> token_for(toks@[i], lines@[i]))),
{
    let n = lines.len();
    let mut i: usize = 0;
    while i < n
        invariant
            0 <= i <= n == lines@.len() == file_ok@.len(),
            forall|k: int| 0 <= k < i ==> line_valid(lines@[k], file_ok@[k]),
        decreases n - i,
    {
        let is_marker = str_eq(lines[i].as_str(), "[clipboard]");
        if !is_marker && !file_ok[i] {
            return Err(TokenError::InvalidEmbedToken);
        }
        i = i + 1;
    }
    let mut toks: Vec<ImageToken> = Vec::new();
    let kept = if n < MAX_GALLERY_IMAGES {
        n
    } else {
        MAX_GALLERY_IMAGES
    };
    let mut j: usize = 0;
    while j < kept
        invariant
            0 <= j <= kept <= n == lines@.len(),
            kept == vstd::math::min(lines@.len() as int, MAX_GALLERY_IMAGES as int),
            toks@.len() == j,
            forall|k: int| 0 <= k < j ==> token_for(toks@[k], lines@[k]),
        decreases kept - j,
    {
        let is_marker = str_eq(lines[j].as_str(), "[clipboard]");
        if is_marker {
            toks.push(ImageToken::Clipboard);
        } else {
            toks.push(ImageToken::FilePath(lines[j].clone()));
        }
        j = j + 1;
    }
    Ok(toks)
}

} // verus!

