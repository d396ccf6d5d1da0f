use tsky::image::{
    clipboard_bytes, finish_image, image_dimensions, prepare_file_image, BlobRef, ClipboardOutcome,
    ImageError, ResolveError, ResolvedImage,
};
use tsky::mime::{mime_accepted, pick_clipboard_mime, validate, MimeError};
use tsky::record::collect_images;

/// A minimal PNG header: signature, IHDR length and name, then width and
/// height as big-endian 32-bit values.
fn png_bytes(width: u32, height: u32) -> Vec<u8> {
    let mut v = vec![0x89, b'P', b'N', b'G', 0x0D, 0x0A, 0x1A, 0x0A];
    v.extend_from_slice(&13u32.to_be_bytes());
    v.extend_from_slice(b"IHDR");
    v.extend_from_slice(&width.to_be_bytes());
    v.extend_from_slice(&height.to_be_bytes());
    v.extend_from_slice(&[8, 6, 0, 0, 0]);
    v
}

fn gif_bytes() -> Vec<u8> {
    let mut v = b"GIF89a".to_vec();
    v.extend_from_slice(&[0x02, 0x00, 0x03, 0x00, 0x00, 0x00, 0x00]);
    v
}

#[test]
fn allow_list_exact() {
    assert!(mime_accepted("image/jpeg"));
    assert!(mime_accepted("image/png"));
    assert!(mime_accepted("image/webp"));
    assert!(mime_accepted("image/bmp"));
    assert!(!mime_accepted("image/gif"));
    assert!(!mime_accepted("text/plain"));
    assert!(!mime_accepted(""));
}

#[test]
fn gif_is_rejected() {
    assert_eq!(validate(&gif_bytes()), Err(MimeError::UnsupportedMimeType));
}

#[test]
fn png_is_accepted() {
    assert_eq!(validate(&png_bytes(2, 3)), Ok("image/png".to_string()));
}

#[test]
fn garbage_is_rejected() {
    assert_eq!(
        validate(&[0u8, 1, 2, 3, 4, 5, 6, 7, 8, 9, 10, 11, 12]),
        Err(MimeError::UnsupportedMimeType)
    );
}

#[test]
fn png_dimensions_read_from_header() {
    assert_eq!(image_dimensions(&png_bytes(640, 480)), Ok((640, 480)));
}

#[test]
fn no_header_means_no_dimensions() {
    assert_eq!(
        image_dimensions(&[0u8; 16]),
        Err(ImageError::UnknownDimensions)
    );
}

#[test]
fn prepare_file_image_validates_and_measures() {
    let p = prepare_file_image(png_bytes(2, 3)).unwrap();
    assert_eq!(p.mime, "image/png");
    assert_eq!((p.width, p.height), (2, 3));
    assert_eq!(p.bytes, png_bytes(2, 3));
}

#[test]
fn prepare_file_image_rejects_gif() {
    assert_eq!(
        prepare_file_image(gif_bytes()).unwrap_err(),
        ImageError::UnsupportedMimeType
    );
}

#[test]
fn prepare_clipboard_image_measures_bytes() {
    let p = tsky::image::prepare_clipboard_image(png_bytes(4, 5), "image/png".to_string()).unwrap();
    assert_eq!((p.width, p.height), (4, 5));
    assert_eq!(p.mime, "image/png");
    assert_eq!(
        tsky::image::prepare_clipboard_image(vec![0u8; 16], "image/png".to_string()).unwrap_err(),
        ImageError::UnknownDimensions
    );
}

#[test]
fn clipboard_pick_follows_allow_list_order() {
    let offered = vec!["text/plain".to_string(), "image/png".to_string()];
    assert_eq!(pick_clipboard_mime(&offered), Some("image/png".to_string()));

    // Allow-list order wins over the clipboard's own order.
    let offered = vec!["image/png".to_string(), "image/jpeg".to_string()];
    assert_eq!(pick_clipboard_mime(&offered), Some("image/jpeg".to_string()));

    let offered = vec!["text/html".to_string(), "image/gif".to_string()];
    assert_eq!(pick_clipboard_mime(&offered), None);

    assert_eq!(pick_clipboard_mime(&Vec::new()), None);
}

fn blob(cid: &str) -> BlobRef {
    BlobRef {
        cid: cid.to_string(),
        mime_type: "image/png".to_string(),
        size: 24,
    }
}

#[test]
fn finish_image_carries_aspect_ratio() {
    let p = prepare_file_image(png_bytes(2, 3)).unwrap();
    let img = finish_image(&p, blob("b1"));
    assert_eq!(img.blob.cid, "b1");
    assert_eq!((img.width, img.height), (2, 3));
}

fn resolved(cid: &str) -> ResolvedImage {
    ResolvedImage {
        blob: blob(cid),
        width: 2,
        height: 3,
    }
}

#[test]
fn collect_all_successes() {
    let r = collect_images(vec![Ok(resolved("a")), Ok(resolved("b"))]).unwrap();
    assert_eq!(r.len(), 2);
    assert_eq!(r[0].blob.cid, "a");
    assert_eq!(r[1].blob.cid, "b");
}

#[test]
fn collect_first_failure_wins() {
    let r = collect_images(vec![
        Ok(resolved("a")),
        Err(ImageError::UnknownDimensions),
        Err(ImageError::UnsupportedMimeType),
    ]);
    assert_eq!(r.unwrap_err(), ImageError::UnknownDimensions);
}

#[test]
fn collect_empty_is_empty_gallery() {
    assert_eq!(collect_images(Vec::new()).unwrap().len(), 0);
}

#[test]
fn clipboard_outcomes_classified() {
    let r = clipboard_bytes(ClipboardOutcome::Content(vec![1, 2, 3]));
    assert_eq!(r.unwrap(), vec![1, 2, 3]);
    assert!(matches!(
        clipboard_bytes(ClipboardOutcome::NoSeats),
        Err(ResolveError::EmptyClipboard)
    ));
    assert!(matches!(
        clipboard_bytes(ClipboardOutcome::Empty),
        Err(ResolveError::EmptyClipboard)
    ));
    assert!(matches!(
        clipboard_bytes(ClipboardOutcome::NoMimeType),
        Err(ResolveError::EmptyClipboard)
    ));
    assert!(matches!(
        clipboard_bytes(ClipboardOutcome::Failure("boom".to_string())),
        Err(ResolveError::ClipboardUnavailable(m)) if m == "boom"
    ));
}
