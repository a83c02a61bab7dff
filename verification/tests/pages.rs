use pin_blog::pages::{
    accepts_post_id, asset_body, document_text, index_heading, post_document, render_document,
    Asset, FileRead, Heading, PageError, Status, ABOUT_DOCUMENT, DEFAULT_HEADING,
    ESCAPE_REJECTED, INDEX_DOCUMENT, NOT_TEXT, POSTS_FOLDER,
};

fn bytes(content: &[u8]) -> FileRead {
    FileRead::Bytes(content.to_vec())
}

fn missing() -> FileRead {
    FileRead::Unreadable(String::from("No such file or directory (os error 2)"))
}

#[test]
fn documents_have_their_names() {
    assert_eq!(POSTS_FOLDER, "posts");
    assert_eq!(INDEX_DOCUMENT, "index.md");
    assert_eq!(ABOUT_DOCUMENT, "about.md");
}

#[test]
fn statuses_have_their_numbers() {
    assert_eq!(Status::NotFound.code(), 404);
    assert_eq!(Status::NotAcceptable.code(), 406);
    assert_eq!(Status::InternalServerError.code(), 500);
}

#[test]
fn plain_identifiers_are_accepted() {
    assert!(accepts_post_id("hello"));
    assert!(accepts_post_id("hello-world_2"));
    assert!(accepts_post_id("a.b"));
    assert!(accepts_post_id("."));
    assert!(accepts_post_id(". ."));
    assert!(accepts_post_id(".a."));
    assert!(accepts_post_id(""));
    assert!(accepts_post_id("caf\u{e9}"));
    assert!(accepts_post_id("back\\slash"));
}

#[test]
fn identifiers_with_two_dots_are_rejected() {
    assert!(!accepts_post_id(".."));
    assert!(!accepts_post_id("a..b"));
    assert!(!accepts_post_id("..a"));
    assert!(!accepts_post_id("a.."));
    assert!(!accepts_post_id("..."));
    assert!(!accepts_post_id("\u{e9}.."));
}

#[test]
fn identifiers_with_a_separator_are_rejected() {
    assert!(!accepts_post_id("/"));
    assert!(!accepts_post_id("a/b"));
    assert!(!accepts_post_id("/etc/passwd"));
    assert!(!accepts_post_id("a/"));
    assert!(!accepts_post_id("../secret"));
}

#[test]
fn an_accepted_identifier_names_its_document() {
    assert_eq!(post_document("hello"), Ok(String::from("posts/hello.md")));
    assert_eq!(post_document("a.b"), Ok(String::from("posts/a.b.md")));
    assert_eq!(post_document(""), Ok(String::from("posts/.md")));
}

#[test]
fn an_escaping_identifier_is_not_acceptable() {
    let refused =
        PageError { status: Status::NotAcceptable, reason: String::from(ESCAPE_REJECTED) };
    assert_eq!(post_document("../../etc/passwd"), Err(refused.clone()));
    assert_eq!(post_document(".."), Err(refused.clone()));
    assert_eq!(post_document("a/b"), Err(refused.clone()));
    assert_eq!(post_document("hello/../hello"), Err(refused));
}

#[test]
fn readable_text_is_handed_on() {
    assert_eq!(document_text(bytes(b"# Title\n")), Ok(String::from("# Title\n")));
    assert_eq!(document_text(bytes(b"")), Ok(String::new()));
}

#[test]
fn an_unreadable_document_is_not_found() {
    assert_eq!(
        document_text(missing()),
        Err(PageError {
            status: Status::NotFound,
            reason: String::from("No such file or directory (os error 2)"),
        })
    );
}

#[test]
fn a_document_that_is_not_text_is_not_found() {
    assert_eq!(
        document_text(bytes(b"\xff\xfe")),
        Err(PageError { status: Status::NotFound, reason: String::from(NOT_TEXT) })
    );
}

#[test]
fn markdown_is_rendered_to_html() {
    assert_eq!(render_document(bytes(b"# Hi Mercury!")), Ok(String::from("<h1>Hi Mercury!</h1>")));
    assert_eq!(
        render_document(bytes(b"some *emphasis* here")),
        Ok(String::from("<p>some <em>emphasis</em> here</p>"))
    );
    assert_eq!(render_document(bytes(b"")), Ok(String::new()));
}

#[test]
fn rendering_agrees_with_the_markdown_crate() {
    let source = "# Title\n\nA [link](https://example.org) and `code`.\n\n- one\n- two\n";
    assert_eq!(render_document(bytes(source.as_bytes())), Ok(markdown::to_html(source)));
}

#[test]
fn a_missing_page_is_not_rendered() {
    assert_eq!(
        render_document(missing()),
        Err(PageError {
            status: Status::NotFound,
            reason: String::from("No such file or directory (os error 2)"),
        })
    );
    assert_eq!(
        render_document(bytes(b"\xc3")),
        Err(PageError { status: Status::NotFound, reason: String::from(NOT_TEXT) })
    );
}

#[test]
fn the_index_document_is_the_heading() {
    assert_eq!(
        index_heading(bytes(b"# Welcome")),
        Heading::Document(String::from("<h1>Welcome</h1>"))
    );
}

#[test]
fn a_missing_index_document_gives_the_default_heading() {
    assert_eq!(index_heading(missing()), Heading::Default);
    assert_eq!(index_heading(bytes(b"\xff")), Heading::Default);
    assert_eq!(DEFAULT_HEADING, "Hello World");
}

#[test]
fn assets_have_names_and_media_types() {
    assert_eq!(Asset::Stylesheet.file_name(), "style.css");
    assert_eq!(Asset::Stylesheet.content_type(), "text/css");
    assert_eq!(Asset::Favicon.file_name(), "favicon.ico");
    assert_eq!(Asset::Favicon.content_type(), "image/x-icon");
}

#[test]
fn a_readable_asset_is_served_as_it_is() {
    let sheet = b"body { margin: 0 }";
    assert_eq!(asset_body(Asset::Stylesheet, bytes(sheet)), Ok(sheet.to_vec()));
    let icon = b"\x00\x00\x01\x00\xff";
    assert_eq!(asset_body(Asset::Favicon, bytes(icon)), Ok(icon.to_vec()));
}

#[test]
fn a_missing_asset_is_not_found() {
    assert_eq!(asset_body(Asset::Stylesheet, missing()), Err(Status::NotFound));
    assert_eq!(asset_body(Asset::Favicon, missing()), Err(Status::NotFound));
}

#[test]
fn a_style_sheet_must_be_text() {
    assert_eq!(asset_body(Asset::Stylesheet, bytes(b"\xff")), Err(Status::NotFound));
}
