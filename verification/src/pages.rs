//! What a request is answered with, short of the markup around it.
//!
//! The caller routes requests, reads files and wraps text in a page. The
//! functions here decide which file a request stands for, whether it is
//! acceptable at all, and what a failed read means for the response.

use vstd::prelude::*;
use vstd::string::StringExecFns;
use crate::encoding::{chars_of, decode_text, is_utf8, text_of};

verus! {

/// Folder of the working copy that holds the posts.
pub const POSTS_FOLDER: &'static str = "posts";

/// Document shown above the post list, relative to the working copy.
pub const INDEX_DOCUMENT: &'static str = "index.md";

/// Document shown on the about page, relative to the working copy.
pub const ABOUT_DOCUMENT: &'static str = "about.md";

/// Reason given when a post identifier tries to leave the posts folder.
pub const ESCAPE_REJECTED: &'static str = "oh, so you try to escape? Though luck";

/// Reason given when a document is not text.
pub const NOT_TEXT: &'static str = "document is not valid UTF-8";

/// The status of a response that reports a failure.
#[derive(Debug, Clone, Copy, PartialEq, Eq, Structural)]
pub enum Status {
    /// The requested document does not exist or cannot be read.
    NotFound,
    /// The request asks for something that is never served.
    NotAcceptable,
    /// The server failed while answering.
    InternalServerError,
}

impl Status {
    /// The HTTP status number.
    pub open spec fn number(self) -> int {
        match self {
            Status::NotFound => 404,
            Status::NotAcceptable => 406,
            Status::InternalServerError => 500,
        }
    }

    /// The HTTP status number of this status.
    pub fn code(&self) -> (code: u16)
        ensures
            code == self.number(),
    {
        match self {
            Status::NotFound => 404,
            Status::NotAcceptable => 406,
            Status::InternalServerError => 500,
        }
    }
}

/// A failure that is shown to the user as an error page.
#[derive(Debug, Clone, PartialEq, Eq)]
pub struct PageError {
    /// Status of the response.
    pub status: Status,
    /// Explanation shown on the page.
    pub reason: String,
}

/// Whether two dots stand side by side somewhere in the identifier.
pub open spec fn has_parent_step(id: Seq<char>) -> bool {
    exists|i: int| 0 <= i && i + 1 < id.len() && #[trigger] id[i] == '.' && id[i + 1] == '.'
}

/// Whether the identifier holds a path separator.
pub open spec fn has_separator(id: Seq<char>) -> bool {
    exists|i: int| 0 <= i < id.len() && #[trigger] id[i] == '/'
}

/// Whether a post identifier stays inside the posts folder: it holds
/// neither `..` nor a path separator.
pub open spec fn is_safe_post_id(id: Seq<char>) -> bool {
    !has_parent_step(id) && !has_separator(id)
}

/// The document that holds the post with this identifier, relative to the
/// working copy.
pub open spec fn post_path(id: Seq<char>) -> Seq<char> {
    POSTS_FOLDER@ + seq!['/'] + id + seq!['.', 'm', 'd']
}

/// Tells whether a requested post identifier is acceptable.
pub fn accepts_post_id(id: &str) -> (safe: bool)
    ensures
        safe == is_safe_post_id(id@),
{
    let chars = chars_of(id);
    let n = chars.len();
    let mut i: usize = 0;
    while i < n
        invariant
            i <= n,
            n == chars@.len(),
            chars@ == id@,
            forall|j: int| 0 <= j < i ==> #[trigger] chars@[j] != '/',
            forall|j: int|
                0 <= j < i && j + 1 < n ==> !(#[trigger] chars@[j] == '.' && chars@[j + 1] == '.'),
        decreases n - i,
    {
        if chars[i] == '/' {
            return false;
        }
        if chars[i] == '.' && i + 1 < n && chars[i + 1] == '.' {
            return false;
        }
        i = i + 1;
    }
    true
}

/// Names the document that a post request stands for.
///
/// An identifier that holds `..` or a path separator is refused here, before
/// any file is looked for, whether or not a matching file exists.
pub fn post_document(id: &str) -> (document: Result<String, PageError>)
    ensures
        match document {
            Ok(path) => is_safe_post_id(id@) && path@ == post_path(id@),
            Err(error) => {
                &&& !is_safe_post_id(id@)
                &&& error.status == Status::NotAcceptable
                &&& error.reason@ == ESCAPE_REJECTED@
            },
        },
{
    if !accepts_post_id(id) {
        return Err(PageError { status: Status::NotAcceptable, reason: ESCAPE_REJECTED.to_owned() });
    }
    let mut path = POSTS_FOLDER.to_owned();
    path.append("/");
    path.append(id);
    path.append(".md");
    proof {
        reveal_strlit("/");
        reveal_strlit(".md");
    }
    Ok(path)
}

/// What reading a file of the working copy gave.
#[derive(Debug, Clone, PartialEq, Eq)]
pub enum FileRead {
    /// The file could not be read; the text is the cause.
    Unreadable(String),
    /// The file holds these bytes.
    Bytes(Vec<u8>),
}

/// The text of a document, or the error page that stands for it.
///
/// A document that cannot be read, or that is not text, is reported as not
/// found.
pub fn document_text(read: FileRead) -> (text: Result<String, PageError>)
    ensures
        match text {
            Ok(content) => read matches FileRead::Bytes(bytes) && text_of(bytes@) == Some(
                content@,
            ),
            Err(error) => {
                &&& error.status == Status::NotFound
                &&& match read {
                    FileRead::Unreadable(cause) => error.reason == cause,
                    FileRead::Bytes(bytes) => text_of(bytes@) is None && error.reason@
                        == NOT_TEXT@,
                }
            },
        },
{
    match read {
        FileRead::Unreadable(cause) => Err(PageError { status: Status::NotFound, reason: cause }),
        FileRead::Bytes(bytes) => match decode_text(bytes.as_slice()) {
            Some(content) => Ok(content),
            None => Err(PageError { status: Status::NotFound, reason: NOT_TEXT.to_owned() }),
        },
    }
}

/// What markdown text becomes in HTML: the result of `markdown::to_html`,
/// which compiles CommonMark with its default options.
pub uninterp spec fn markdown_html(source: Seq<char>) -> Seq<char>;

/// Converts markdown to HTML with `markdown::to_html`.
///
/// Trusted: the conversion never fails on plain markdown and its result is
/// a function of the source text alone, which [`markdown_html`] names.
#[verifier::external_body]
fn markdown_to_html(source: &str) -> (html: String)
    ensures
        html@ == markdown_html(source@),
{
    markdown::to_html(source)
}

/// Renders a markdown document that was read from the working copy.
///
/// A document that cannot be read, or that is not text, gives the error page
/// of [`document_text`]; any other is converted to HTML.
pub fn render_document(read: FileRead) -> (page: Result<String, PageError>)
    ensures
        match page {
            Ok(html) => read matches FileRead::Bytes(bytes) && text_of(bytes@) matches Some(
                source,
            ) && html@ == markdown_html(source),
            Err(error) => {
                &&& error.status == Status::NotFound
                &&& match read {
                    FileRead::Unreadable(cause) => error.reason == cause,
                    FileRead::Bytes(bytes) => text_of(bytes@) is None && error.reason@
                        == NOT_TEXT@,
                }
            },
        },
{
    match document_text(read) {
        Ok(source) => Ok(markdown_to_html(source.as_str())),
        Err(error) => Err(error),
    }
}

/// What stands above the post list on the index page.
#[derive(Debug, Clone, PartialEq, Eq)]
pub enum Heading {
    /// The index document, rendered to HTML.
    Document(String),
    /// The built-in heading, used when the index document cannot be shown.
    Default,
}

/// Text of the built-in heading of the index page.
pub const DEFAULT_HEADING: &'static str = "Hello World";

/// Chooses the heading of the index page: the rendered index document, or
/// the built-in heading when that document cannot be read or is not text.
pub fn index_heading(read: FileRead) -> (heading: Heading)
    ensures
        match heading {
            Heading::Document(html) => read matches FileRead::Bytes(bytes) && text_of(bytes@)
                matches Some(source) && html@ == markdown_html(source),
            Heading::Default => match read {
                FileRead::Unreadable(_) => true,
                FileRead::Bytes(bytes) => text_of(bytes@) is None,
            },
        },
{
    match render_document(read) {
        Ok(html) => Heading::Document(html),
        Err(_) => Heading::Default,
    }
}

/// A static file served beside the pages.
#[derive(Debug, Clone, Copy, PartialEq, Eq, Structural)]
pub enum Asset {
    /// The style sheet, which must be text.
    Stylesheet,
    /// The site icon, which is served as it is.
    Favicon,
}

impl Asset {
    /// Name of the file, relative to the working copy.
    pub fn file_name(&self) -> (name: &'static str)
        ensures
            name@ == match *self {
                Asset::Stylesheet => "style.css"@,
                Asset::Favicon => "favicon.ico"@,
            },
    {
        match self {
            Asset::Stylesheet => "style.css",
            Asset::Favicon => "favicon.ico",
        }
    }

    /// Media type sent with the file.
    pub fn content_type(&self) -> (media: &'static str)
        ensures
            media@ == match *self {
                Asset::Stylesheet => "text/css"@,
                Asset::Favicon => "image/x-icon"@,
            },
    {
        match self {
            Asset::Stylesheet => "text/css",
            Asset::Favicon => "image/x-icon",
        }
    }

    /// Whether the file is served only when it is text.
    pub open spec fn must_be_text(self) -> bool {
        self == Asset::Stylesheet
    }
}

/// The body with which a static file is served, or the status that reports
/// its absence: a file that cannot be read, and a style sheet that is not
/// text, are not found.
pub fn asset_body(asset: Asset, read: FileRead) -> (body: Result<Vec<u8>, Status>)
    ensures
        match read {
            FileRead::Unreadable(_) => body == Err::<Vec<u8>, Status>(Status::NotFound),
            FileRead::Bytes(bytes) => if asset.must_be_text() && text_of(bytes@) is None {
                body == Err::<Vec<u8>, Status>(Status::NotFound)
            } else {
                body == Ok::<Vec<u8>, Status>(bytes)
            },
        },
{
    match read {
        FileRead::Unreadable(_) => Err(Status::NotFound),
        FileRead::Bytes(bytes) => {
            let text_required = match asset {
                Asset::Stylesheet => true,
                Asset::Favicon => false,
            };
            if text_required && !is_utf8(bytes.as_slice()) {
                Err(Status::NotFound)
            } else {
                Ok(bytes)
            }
        },
    }
}

} // verus!
