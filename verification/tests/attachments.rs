use tsky::attach::{resolve_tokens, split_section, ImageToken, TokenError};

fn lines(v: &[&str]) -> Vec<String> {
    v.iter().map(|s| s.to_string()).collect()
}

#[test]
fn split_at_separator() {
    let (body, att) = split_section(lines(&["hello", "world", "---", "/tmp/a.png"]));
    assert_eq!(body, lines(&["hello", "world"]));
    assert_eq!(att, lines(&["/tmp/a.png"]));
}

#[test]
fn split_without_separator() {
    let (body, att) = split_section(lines(&["hello", "world"]));
    assert_eq!(body, lines(&["hello", "world"]));
    assert!(att.is_empty());
}

#[test]
fn split_separator_first_line() {
    let (body, att) = split_section(lines(&["---", "a", "b"]));
    assert!(body.is_empty());
    assert_eq!(att, lines(&["a", "b"]));
}

#[test]
fn split_only_first_separator_counts() {
    let (body, att) = split_section(lines(&["a", "---", "b", "---", "c"]));
    assert_eq!(body, lines(&["a"]));
    assert_eq!(att, lines(&["b", "---", "c"]));
}

#[test]
fn six_valid_lines_keep_first_four() {
    let ls = lines(&[
        "/tmp/a.png",
        "[clipboard]",
        "/tmp/b.png",
        "/tmp/c.png",
        "[clipboard]",
        "/tmp/d.png",
    ]);
    // Every path line names an existing file.
    let ok = vec![true, false, true, true, false, true];
    let toks = resolve_tokens(&ls, &ok).unwrap();
    assert_eq!(toks.len(), 4);
    assert!(toks[0] == ImageToken::FilePath("/tmp/a.png".to_string()));
    assert!(toks[1] == ImageToken::Clipboard);
    assert!(toks[2] == ImageToken::FilePath("/tmp/b.png".to_string()));
    assert!(toks[3] == ImageToken::FilePath("/tmp/c.png".to_string()));
}

#[test]
fn one_bad_line_fails_whole_batch() {
    let ls = lines(&["/tmp/a.png", "not-a-file", "[clipboard]"]);
    let ok = vec![true, false, false];
    let r = resolve_tokens(&ls, &ok);
    assert_eq!(r, Err(TokenError::InvalidEmbedToken));
}

#[test]
fn bad_line_beyond_cap_still_fails() {
    // The whole list is validated before the cap drops the excess.
    let ls = lines(&[
        "[clipboard]",
        "[clipboard]",
        "[clipboard]",
        "[clipboard]",
        "missing.png",
    ]);
    let ok = vec![false, false, false, false, false];
    assert_eq!(resolve_tokens(&ls, &ok), Err(TokenError::InvalidEmbedToken));
}

#[test]
fn empty_attachment_list() {
    let r = resolve_tokens(&Vec::new(), &Vec::new()).unwrap();
    assert!(r.is_empty());
}
