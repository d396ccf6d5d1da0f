//! Gallery images: dimension probing for aspect-ratio metadata, and the
//! per-image steps around the remote blob upload.

use vstd::prelude::*;

verus! {

use crate::mime::{accepted_mime, validate, MimeError};

/// Error from resolving one gallery image.
#[derive(Clone, Copy, Debug, PartialEq, Eq, Structural)]
pub enum ImageError {
    /// The sniffed content type is not an accepted image type.
    UnsupportedMimeType,
    /// The bytes carry no readable image header, so no aspect ratio exists.
    UnknownDimensions,
}

/// An opaque reference to a stored blob, as the remote upload collaborator
/// returns it: its content id, declared content type, and declared size.
#[derive(Debug, Clone)]
pub struct BlobRef {
    pub cid: String,
    pub mime_type: String,
    pub size: u64,
}

/// Image bytes that passed validation, with the dimensions read from their
/// header; ready to upload.
#[derive(Debug)]
pub struct PreparedImage {
    pub bytes: Vec<u8>,
    pub mime: String,
    pub width: u64,
    pub height: u64,
}

/// A gallery entry after its blob was uploaded: the reference plus the
/// aspect-ratio metadata viewers reserve layout space with.
#[derive(Debug, Clone)]
pub struct ResolvedImage {
    pub blob: BlobRef,
    pub width: u64,
    pub height: u64,
}

/// The dimensions that an image header declares, if the bytes carry a
/// readable one.
pub uninterp spec fn image_dims_of(b: Seq<u8>) -> Option<(u64, u64)>;

/// Relies on imagesize::blob_size: the dimensions parsed from the image
/// header depend on the bytes alone.
#[verifier::external_body]
fn blob_dimensions(b: &[u8]) -> (r: Option<(u64, u64)>)
    ensures
        r == image_dims_of(b@),
{
    match imagesize::blob_size(b) {
        Ok(s) => Some((s.width as u64, s.height as u64)),
        Err(_) => None,
    }
}

/// Reads the width and height from the image header, for the aspect-ratio
/// metadata; bytes without a readable header have no aspect ratio and are
/// an error.
pub fn image_dimensions(bytes: &[u8]) -> (r: Result<(u64, u64), ImageError>)
    ensures
        r matches Ok(d) ==> image_dims_of(bytes@) == Some(d),
        r matches Err(e) ==> e == ImageError::UnknownDimensions && image_dims_of(
            bytes@,
        ) is None,
{
    match blob_dimensions(bytes) {
        Some(d) => Ok(d),
        None => Err(ImageError::UnknownDimensions),
    }
}

/// Validates bytes read from a file and measures them: the sniffed content
/// type must be in the allow-list and the header must declare dimensions.
pub fn prepare_file_image(bytes: Vec<u8>) -> (r: Result<PreparedImage, ImageError>)
    ensures
        r matches Ok(p) ==> p.bytes@ == bytes@ && accepted_mime(p.mime@) && image_dims_of(
            bytes@,
        ) == Some((p.width, p.height)),
        r matches Err(e) ==> (e == ImageError::UnsupportedMimeType || (e
            == ImageError::UnknownDimensions && image_dims_of(bytes@) is None)),
{
    let mime = match validate(bytes.as_slice()) {
        Ok(m) => m,
        Err(MimeError::UnsupportedMimeType) => {
            return Err(ImageError::UnsupportedMimeType);
        },
    };
    let (width, height) = match image_dimensions(bytes.as_slice()) {
        Ok(d) => d,
        Err(e) => {
            return Err(e);
        },
    };
    Ok(PreparedImage { bytes, mime, width, height })
}

/// Measures bytes read from the clipboard. The clipboard already told the
/// caller an accepted content type for them, so only the header is checked.
pub fn prepare_clipboard_image(bytes: Vec<u8>, mime: String) -> (r: Result<
    PreparedImage,
    ImageError,
>)
    requires
        accepted_mime(mime@),
    ensures
        r matches Ok(p) ==> p.bytes@ == bytes@ && p.mime@ == mime@ && accepted_mime(p.mime@)
            && image_dims_of(bytes@) == Some((p.width, p.height)),
        r matches Err(e) ==> e == ImageError::UnknownDimensions && image_dims_of(
            bytes@,
        ) is None,
{
    let (width, height) = match image_dimensions(bytes.as_slice()) {
        Ok(d) => d,
        Err(e) => {
            return Err(e);
        },
    };
    Ok(PreparedImage { bytes, mime, width, height })
}

/// Error from resolving an image source token into bytes.
#[derive(Debug)]
pub enum ResolveError {
    /// The local file could not be read; the collaborator's message.
    IoError(String),
    /// The clipboard offers no accepted image type.
    UnsupportedMimeType,
    /// The clipboard has no content or seat at all.
    EmptyClipboard,
    /// The clipboard collaborator failed in another way; its message.
    ClipboardUnavailable(String),
}

/// What the clipboard collaborator reported when asked for its content.
#[derive(Debug)]
pub enum ClipboardOutcome {
    /// The content bytes, read in full.
    Content(Vec<u8>),
    /// No seat is available.
    NoSeats,
    /// The clipboard is empty.
    Empty,
    /// The clipboard offers no type at all.
    NoMimeType,
    /// Any other failure; the collaborator's message.
    Failure(String),
}

/// Classifies the clipboard collaborator's report: content passes through,
/// a missing seat, empty clipboard or missing type are all the one
/// "empty clipboard" failure, and anything else is "clipboard unavailable"
/// with the collaborator's message attached.
pub fn clipboard_bytes(outcome: ClipboardOutcome) -> (r: Result<Vec<u8>, ResolveError>)
    ensures
        r == (match outcome {
            ClipboardOutcome::Content(b) => Result::<Vec<u8>, ResolveError>::Ok(b),
            ClipboardOutcome::NoSeats => Err(ResolveError::EmptyClipboard),
            ClipboardOutcome::Empty => Err(ResolveError::EmptyClipboard),
            ClipboardOutcome::NoMimeType => Err(ResolveError::EmptyClipboard),
            ClipboardOutcome::Failure(m) => Err(ResolveError::ClipboardUnavailable(m)),
        }),
{
    match outcome {
        ClipboardOutcome::Content(b) => Ok(b),
        ClipboardOutcome::NoSeats => Err(ResolveError::EmptyClipboard),
        ClipboardOutcome::Empty => Err(ResolveError::EmptyClipboard),
        ClipboardOutcome::NoMimeType => Err(ResolveError::EmptyClipboard),
        ClipboardOutcome::Failure(m) => Err(ResolveError::ClipboardUnavailable(m)),
    }
}

/// Joins an uploaded blob reference with the measured image it stands for.
pub fn finish_image(prepared: &PreparedImage, blob: BlobRef) -> (r: ResolvedImage)
    ensures
        r.blob == blob,
        r.width == prepared.width,
        r.height == prepared.height,
{
    ResolvedImage { blob, width: prepared.width, height: prepared.height }
}

} // verus!
