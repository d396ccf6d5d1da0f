use tsky::image::BlobRef;
use tsky::preview::extract_og_meta;
use tsky::record::{
    assemble, compose, join_lines, make_gallery, select_embed, ComposeError, EmbedIntent,
    ExternalCard, Facet, FacetFeature, PostRecord, ResolvedEmbed,
};
use tsky::attach::ImageToken;

fn lines(v: &[&str]) -> Vec<String> {
    v.iter().map(|s| s.to_string()).collect()
}

#[test]
fn og_meta_all_three_tags() {
    let html = "<html><head>\
        <meta property=\"og:title\" content=\"A Title\">\
        <meta property=\"og:description\" content=\"Words here\">\
        <meta property=\"og:image\" content=\"https://example.com/t.png\">\
        </head><body>hi</body></html>";
    let (title, desc, image) = extract_og_meta(html.as_bytes());
    assert_eq!(title, b"A Title".to_vec());
    assert_eq!(desc, b"Words here".to_vec());
    assert_eq!(image, Some(b"https://example.com/t.png".to_vec()));
}

#[test]
fn og_meta_missing_tags_default_empty() {
    let html = "<html><head><meta charset=\"utf-8\"><title>x</title></head></html>";
    let (title, desc, image) = extract_og_meta(html.as_bytes());
    assert_eq!(title, Vec::<u8>::new());
    assert_eq!(desc, Vec::<u8>::new());
    assert_eq!(image, None);
}

#[test]
fn og_meta_first_tag_wins() {
    let html = "<meta property=\"og:title\" content=\"first\">\
        <meta property=\"og:title\" content=\"second\">";
    let (title, _, _) = extract_og_meta(html.as_bytes());
    assert_eq!(title, b"first".to_vec());
}

#[test]
fn og_meta_non_og_properties_ignored() {
    let html = "<meta property=\"twitter:title\" content=\"no\">\
        <meta property=\"og:description\" content=\"yes\">";
    let (title, desc, _) = extract_og_meta(html.as_bytes());
    assert_eq!(title, Vec::<u8>::new());
    assert_eq!(desc, b"yes".to_vec());
}

#[test]
fn join_lines_with_newlines() {
    assert_eq!(join_lines(&lines(&["a", "b", "c"])), "a\nb\nc");
    assert_eq!(join_lines(&lines(&["a"])), "a");
    assert_eq!(join_lines(&Vec::new()), "");
}

#[test]
fn select_embed_images_win() {
    let toks = vec![ImageToken::Clipboard];
    let r = select_embed(toks, Some(b"https://example.com".to_vec()));
    assert!(matches!(r, Some(EmbedIntent::Images(v)) if v.len() == 1));
}

#[test]
fn select_embed_link_when_no_images() {
    let r = select_embed(Vec::new(), Some(b"https://example.com".to_vec()));
    assert!(matches!(r, Some(EmbedIntent::ExternalLink(u)) if u == b"https://example.com".to_vec()));
}

#[test]
fn select_embed_none() {
    assert!(select_embed(Vec::new(), None).is_none());
}

#[test]
fn assemble_never_invents_embed() {
    let r: PostRecord = assemble("hi".to_string(), None, None);
    assert_eq!(r.text, "hi");
    assert!(r.facets.is_none());
    assert!(r.embed.is_none());
}

#[test]
fn assemble_copies_facets_and_embed_through() {
    let facets = vec![Facet {
        byte_start: 0,
        byte_end: 2,
        feature: FacetFeature::Tag("hi".to_string()),
    }];
    let card = ExternalCard {
        uri: b"https://example.com".to_vec(),
        title: b"t".to_vec(),
        description: Vec::new(),
        thumb: None,
    };
    let r = assemble(
        "hi".to_string(),
        Some(facets),
        Some(ResolvedEmbed::ExternalCard(card)),
    );
    assert_eq!(r.facets.as_ref().unwrap().len(), 1);
    match r.embed {
        Some(ResolvedEmbed::ExternalCard(c)) => {
            assert_eq!(c.uri, b"https://example.com".to_vec());
            assert!(c.thumb.is_none());
        }
        _ => panic!("expected an external card"),
    }
}

#[test]
fn gallery_embed_keeps_images() {
    let e = make_gallery(Vec::new());
    assert!(matches!(e, ResolvedEmbed::ImageGallery(v) if v.is_empty()));
}

#[test]
fn compose_images_from_attachment_section() {
    let input = lines(&["hello world", "---", "/tmp/a.png", "/tmp/b.png"]);
    let post = compose(input, &vec![true, true]).unwrap();
    assert_eq!(post.text, "hello world");
    match post.embed_intent {
        Some(EmbedIntent::Images(toks)) => {
            assert_eq!(toks.len(), 2);
            assert!(toks[0] == ImageToken::FilePath("/tmp/a.png".to_string()));
            assert!(toks[1] == ImageToken::FilePath("/tmp/b.png".to_string()));
        }
        _ => panic!("expected an image gallery intent"),
    }
}

#[test]
fn compose_detects_link_without_attachments() {
    let input = lines(&["Check this out https://example.com"]);
    let post = compose(input, &Vec::new()).unwrap();
    assert_eq!(post.text, "Check this out https://example.com");
    match post.embed_intent {
        Some(EmbedIntent::ExternalLink(u)) => {
            assert_eq!(u, b"https://example.com".to_vec());
        }
        _ => panic!("expected an external link intent"),
    }
}

#[test]
fn compose_no_embed_at_all() {
    let post = compose(lines(&["just words"]), &Vec::new()).unwrap();
    assert_eq!(post.text, "just words");
    assert!(post.embed_intent.is_none());
}

#[test]
fn compose_bad_attachment_line_fails() {
    let input = lines(&["hi", "---", "nope.png"]);
    let r = compose(input, &vec![false]);
    assert_eq!(r.unwrap_err(), ComposeError::InvalidEmbedToken);
}

#[test]
fn compose_unknown_suffix_fails_even_with_images() {
    let input = lines(&["see foo.invalidtld", "---", "/tmp/a.png"]);
    let r = compose(input, &vec![true]);
    assert_eq!(r.unwrap_err(), ComposeError::UnknownDomainSuffix);
}

#[test]
fn compose_multiline_body_joined() {
    let input = lines(&["one", "two", "---"]);
    let post = compose(input, &Vec::new()).unwrap();
    assert_eq!(post.text, "one\ntwo");
    assert!(post.embed_intent.is_none());
}

#[test]
fn gallery_of_two_pngs_with_aspect_ratios() {
    // The resolution pipeline on two valid PNG byte streams: validate,
    // measure, upload (simulated by fixed blob references), aggregate.
    let mut png_a = vec![0x89, b'P', b'N', b'G', 0x0D, 0x0A, 0x1A, 0x0A];
    png_a.extend_from_slice(&13u32.to_be_bytes());
    png_a.extend_from_slice(b"IHDR");
    png_a.extend_from_slice(&2u32.to_be_bytes());
    png_a.extend_from_slice(&3u32.to_be_bytes());
    png_a.extend_from_slice(&[8, 6, 0, 0, 0]);
    let mut png_b = png_a.clone();
    png_b[19] = 7; // width 7 instead of 2

    let pa = tsky::image::prepare_file_image(png_a).unwrap();
    let pb = tsky::image::prepare_file_image(png_b).unwrap();
    let ra = tsky::image::finish_image(
        &pa,
        BlobRef { cid: "a".to_string(), mime_type: pa.mime.clone(), size: 24 },
    );
    let rb = tsky::image::finish_image(
        &pb,
        BlobRef { cid: "b".to_string(), mime_type: pb.mime.clone(), size: 24 },
    );
    let images = tsky::record::collect_images(vec![Ok(ra), Ok(rb)]).unwrap();
    match make_gallery(images) {
        ResolvedEmbed::ImageGallery(v) => {
            assert_eq!(v.len(), 2);
            assert_eq!((v[0].width, v[0].height), (2, 3));
            assert_eq!((v[1].width, v[1].height), (7, 3));
            assert_eq!(v[0].blob.cid, "a");
            assert_eq!(v[1].blob.cid, "b");
        }
        _ => panic!("expected a gallery"),
    }
}

#[test]
fn external_card_thumb_present_only_with_og_image() {
    let html = "<meta property=\"og:image\" content=\"https://example.com/t.png\">";
    let (_, _, image) = extract_og_meta(html.as_bytes());
    assert!(image.is_some());
    let card = ExternalCard {
        uri: b"https://example.com".to_vec(),
        title: Vec::new(),
        description: Vec::new(),
        thumb: Some(BlobRef {
            cid: "c".to_string(),
            mime_type: "image/png".to_string(),
            size: 1,
        }),
    };
    assert!(card.thumb.is_some());
}
