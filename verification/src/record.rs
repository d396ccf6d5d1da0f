//! The composing pipeline and the final post record: choosing the embed
//! intent, joining the body text, aggregating resolved images, and
//! assembling the transmission-ready record.

use vstd::prelude::*;

verus! {

use vstd::string::StringExecFns;
use vstd::utf8::encode_utf8;
use crate::attach::{
    attach_lines,
    body_lines,
    line_valid,
    resolve_tokens,
    split_section,
    token_for,
    ImageToken,
    TokenError,
    MAX_GALLERY_IMAGES,
};
use crate::image::{BlobRef, ImageError, ResolvedImage};
use crate::uri::{
    detect_uri,
    domain_seq,
    first_match,
    known_suffix,
    raw_uri,
    scheme_ok,
    strip_end,
    DetectError,
};

/// Error from composing a post out of editor lines.
#[derive(Clone, Copy, Debug, PartialEq, Eq, Structural)]
pub enum ComposeError {
    /// An attachment line that is neither the clipboard marker nor an
    /// existing file.
    InvalidEmbedToken,
    /// A bare-domain link whose suffix the public suffix list does not know.
    UnknownDomainSuffix,
}

/// What the post intends to embed: a gallery of image tokens, or one
/// external link. Images take priority over an auto-detected link.
#[derive(Debug)]
pub enum EmbedIntent {
    Images(Vec<ImageToken>),
    ExternalLink(Vec<u8>),
}

/// A composed post: the body text and the embed intent, if any.
#[derive(Debug)]
pub struct ComposedPost {
    pub text: String,
    pub embed_intent: Option<EmbedIntent>,
}

/// A rich-text annotation over a byte range of the post text, as the facet
/// collaborator reports it.
#[derive(Debug, Clone)]
pub struct Facet {
    pub byte_start: u64,
    pub byte_end: u64,
    pub feature: FacetFeature,
}

/// What a facet marks: a mention of an account, a link, or a hashtag.
#[derive(Debug, Clone)]
pub enum FacetFeature {
    Mention(String),
    Link(String),
    Tag(String),
}

/// A link-preview card: the page address, its open-graph title and
/// description, and the uploaded thumbnail blob, if the page named one.
#[derive(Debug)]
pub struct ExternalCard {
    pub uri: Vec<u8>,
    pub title: Vec<u8>,
    pub description: Vec<u8>,
    pub thumb: Option<BlobRef>,
}

/// The resolved embed of a post: an image gallery (at most
/// `MAX_GALLERY_IMAGES` entries) or an external card.
#[derive(Debug)]
pub enum ResolvedEmbed {
    ImageGallery(Vec<ResolvedImage>),
    ExternalCard(ExternalCard),
}

/// The transmission-ready post record.
#[derive(Debug)]
pub struct PostRecord {
    pub text: String,
    pub created_at_millis: u64,
    pub facets: Option<Vec<Facet>>,
    pub embed: Option<ResolvedEmbed>,
}

/// The line separator of the joined body text.
pub open spec fn newline() -> Seq<char> {
    seq!['\n']
}

/// The body lines joined with single newlines.
pub open spec fn join_text(ls: Seq<String>) -> Seq<char>
    decreases ls.len(),
{
    if ls.len() == 0 {
        Seq::empty()
    } else if ls.len() == 1 {
        ls[0]@
    } else {
        join_text(ls.drop_last()) + newline() + ls.last()@
    }
}

/// Joins lines into one text with `\n` between them.
pub fn join_lines(lines: &Vec<String>) -> (r: String)
    ensures
        r@ == join_text(lines@),
{
    let mut out = String::new();
    let n = lines.len();
    let mut i: usize = 0;
    proof {
        assert(lines@.take(0) =~= Seq::<String>::empty());
    }
    while i < n
        invariant
            0 <= i <= n == lines@.len(),
            out@ == join_text(lines@.take(i as int)),
        decreases n - i,
    {
        if i > 0 {
            out.append("\n");
            proof {
                reveal_strlit("\n");
                assert("\n"@ =~= newline());
            }
        }
        out.append(lines[i].as_str());
        proof {
            assert(lines@.take(i + 1).drop_last() =~= lines@.take(i as int));
            assert(lines@.take(i + 1).last() == lines@[i as int]);
        }
        i = i + 1;
    }
    proof {
        assert(lines@.take(n as int) =~= lines@);
    }
    out
}

/// Chooses the embed intent: any images win; otherwise the detected link,
/// if there is one; otherwise no embed.
pub fn select_embed(images: Vec<ImageToken>, uri: Option<Vec<u8>>) -> (r: Option<EmbedIntent>)
    ensures
        r == (if images@.len() > 0 {
            Some(EmbedIntent::Images(images))
        } else {
            match uri {
                Some(u) => Some(EmbedIntent::ExternalLink(u)),
                None => None,
            }
        }),
{
    if images.len() > 0 {
        Some(EmbedIntent::Images(images))
    } else {
        match uri {
            Some(u) => Some(EmbedIntent::ExternalLink(u)),
            None => None,
        }
    }
}

/// Joins per-image results into one gallery result: every image must have
/// resolved, and the first failure fails the whole gallery.
pub fn collect_images(results: Vec<Result<ResolvedImage, ImageError>>) -> (r: Result<
    Vec<ResolvedImage>,
    ImageError,
>)
    ensures
        (r is Ok) <==> (forall|i: int| 0 <= i < results@.len() ==> results@[i] is Ok),
        r matches Ok(v) ==> v@.len() == results@.len() && (forall|i: int|
            #![trigger v@[i]]
            0 <= i < results@.len() ==> (results@[i] matches Ok(img) && v@[i] == img)),
        r matches Err(e) ==> (exists|i: int|
            #![trigger results@[i]]
            0 <= i < results@.len() && (results@[i] matches Err(e2) && e2 == e) && (forall|k: int|
                #![trigger results@[k]]
                0 <= k < i ==> results@[k] is Ok)),
{
    let mut rest = results;
    let ghost orig = rest@;
    let n0 = rest.len();
    let mut out: Vec<ResolvedImage> = Vec::new();
    let mut i: usize = 0;
    proof {
        assert(orig.skip(0) =~= orig);
    }
    while rest.len() > 0
        invariant
            orig == results@,
            out@.len() == i,
            i + rest@.len() == orig.len(),
            n0 == orig.len(),
            i <= n0,
            rest@ == orig.skip(i as int),
            forall|k: int|
                #![trigger orig[k]]
                #![trigger out@[k]]
                0 <= k < i ==> (orig[k] matches Ok(img) && out@[k] == img),
        decreases rest@.len(),
    {
        let first = rest.remove(0);
        proof {
            assert(orig.skip(i as int)[0] == orig[i as int]);
            assert(orig.skip(i as int).remove(0) =~= orig.skip(i + 1));
        }
        match first {
            Ok(img) => {
                out.push(img);
            },
            Err(e) => {
                proof {
                    assert(results@ == orig);
                    assert(0 <= i < orig.len() && (orig[i as int] matches Err(e2) && e2 == e));
                    assert(!(results@[i as int] is Ok));
                }
                return Err(e);
            },
        }
        i = i + 1;
    }
    proof {
        assert(rest@.len() == 0);
        assert(i == orig.len());
        assert(forall|k: int| #![trigger results@[k]] 0 <= k < orig.len() ==> results@[k] is Ok);
        assert(forall|k: int|
            #![trigger out@[k]]
            0 <= k < orig.len() ==> (results@[k] matches Ok(img) && out@[k] == img));
    }
    Ok(out)
}

/// Wraps resolved images as the gallery embed; the gallery cap was enforced
/// when the tokens were classified.
pub fn make_gallery(images: Vec<ResolvedImage>) -> (r: ResolvedEmbed)
    requires
        images@.len() <= MAX_GALLERY_IMAGES,
    ensures
        r matches ResolvedEmbed::ImageGallery(v) && v == images,
{
    ResolvedEmbed::ImageGallery(images)
}

/// Relies on std::time::SystemTime::now: the clock reading is converted to
/// whole milliseconds since the Unix epoch; nothing is claimed about it.
#[verifier::external_body]
fn now_millis() -> u64 {
    match std::time::SystemTime::now().duration_since(std::time::UNIX_EPOCH) {
        Ok(d) => d.as_millis() as u64,
        Err(_) => 0,
    }
}

/// Assembles the final record: stamps the creation time at call time and
/// copies the text, the collaborator's facets, and the resolved embed
/// through unchanged. No embed is ever invented: the record's embed is
/// absent exactly when none was handed in.
pub fn assemble(text: String, facets: Option<Vec<Facet>>, embed: Option<ResolvedEmbed>) -> (r:
    PostRecord)
    ensures
        r.text == text,
        r.facets == facets,
        r.embed == embed,
        embed is None ==> r.embed is None,
{
    PostRecord { text, created_at_millis: now_millis(), facets, embed }
}

/// Composes a post from the editor's lines: splits body from attachments,
/// classifies the attachment tokens (`attach_ok[i]` reports the caller's
/// file probe for attachment line `i`), joins the body text, detects a link
/// in it, and picks the embed intent — images first, else the link, else
/// none. A bad attachment line fails first; an unknown domain suffix fails
/// next, even when images are present.
pub fn compose(lines: Vec<String>, attach_ok: &Vec<bool>) -> (r: Result<ComposedPost, ComposeError>)
    requires
        attach_ok@.len() == attach_lines(lines@).len(),
    ensures
        ({
            let att = attach_lines(lines@);
            let tokens_ok = forall|i: int| 0 <= i < att.len() ==> line_valid(att[i], attach_ok@[i]);
            let tb = encode_utf8(join_text(body_lines(lines@)));
            let p = first_match(tb);
            let uri_err = p >= 0 && !scheme_ok(tb, p) && !known_suffix(domain_seq(tb, p));
            &&& (!tokens_ok ==> r == Result::<ComposedPost, ComposeError>::Err(
                ComposeError::InvalidEmbedToken,
            ))
            &&& (tokens_ok && uri_err ==> r == Result::<ComposedPost, ComposeError>::Err(
                ComposeError::UnknownDomainSuffix,
            ))
            &&& (tokens_ok && !uri_err ==> (r matches Ok(post) && post.text@ == join_text(
                body_lines(lines@),
            ) && (att.len() > 0 ==> (post.embed_intent matches Some(EmbedIntent::Images(toks))
                && toks@.len() == vstd::math::min(att.len() as int, MAX_GALLERY_IMAGES as int) && (
            forall|i: int| 0 <= i < toks@.len() ==> token_for(toks@[i], att[i])))) && (att.len()
                == 0 && p >= 0 ==> (post.embed_intent matches Some(EmbedIntent::ExternalLink(u))
                && u@ == strip_end(raw_uri(tb, p)))) && (att.len() == 0 && p == -1
                ==> post.embed_intent is None)))
        }),
{
    let ghost ls = lines@;
    let (body, att) = split_section(lines);
    proof {
        if crate::attach::sep_pos(ls) == -1 {
            assert(att@ =~= attach_lines(ls));
        }
        assert(body@ == body_lines(ls));
        assert(att@ == attach_lines(ls));
    }
    let toks = match resolve_tokens(&att, attach_ok) {
        Ok(t) => t,
        Err(TokenError::InvalidEmbedToken) => {
            return Err(ComposeError::InvalidEmbedToken);
        },
    };
    let text = join_lines(&body);
    let text_slice = text.as_str();
    let text_bytes = text_slice.as_bytes();
    proof {
        assert(text_slice@ == text@);
        assert(text_bytes@ == encode_utf8(text@));
        assert(text@ == join_text(body_lines(ls)));
    }
    let uri = match detect_uri(text_bytes) {
        Ok(u) => u,
        Err(DetectError::UnknownDomainSuffix) => {
            return Err(ComposeError::UnknownDomainSuffix);
        },
    };
    let intent = select_embed(toks, uri);
    Ok(ComposedPost { text, embed_intent: intent })
}

} // verus!
