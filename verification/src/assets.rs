//! The front end's files: what a request for a path is answered with.

use crate::text::{is_prefix, starts_with, text_of};
use vstd::prelude::*;

verus! {

/// The answer to a request for a file.
#[derive(Clone, Debug)]
pub enum FileResponse {
    /// The file, with its media type.
    Found(String, Vec<u8>),
    /// No such file, and the words to say so.
    NotFound(String),
}

/// An answer as plain values.
pub enum ResponseView {
    Found(Seq<char>, Seq<u8>),
    NotFound(Seq<char>),
}

impl View for FileResponse {
    type V = ResponseView;

    open spec fn view(&self) -> ResponseView {
        match self {
            FileResponse::Found(media_type, body) => ResponseView::Found(media_type@, body@),
            FileResponse::NotFound(words) => ResponseView::NotFound(words@),
        }
    }
}

/// The first media type that mime_guess knows for the extension of a path;
/// `None` where the path has no extension or mime_guess knows none for it.
pub uninterp spec fn guessed_media_type(path: Seq<char>) -> Option<Seq<char>>;

/// The media type under which a file at `path` is served: the guess, or a
/// stream of bytes where there is none.
pub open spec fn media_type_of(path: Seq<char>) -> Seq<char> {
    match guessed_media_type(path) {
        Some(media_type) => media_type,
        None => "application/octet-stream"@,
    }
}

/// The answer to a request for `path`, given the file of that path and the
/// front end's entry page, where they exist. A file that exists is served
/// under its media type. A missing file under `assets/` is missing. For any
/// other path the entry page is served, as the front end does its own
/// routing; without an entry page nothing is found.
pub open spec fn served(path: Seq<char>, file: Option<Seq<u8>>, index: Option<Seq<u8>>)
    -> ResponseView {
    match file {
        Some(body) => ResponseView::Found(media_type_of(path), body),
        None => if is_prefix("assets/"@, path) {
            ResponseView::NotFound("Asset not found"@)
        } else {
            match index {
                Some(body) => ResponseView::Found("text/html"@, body),
                None => ResponseView::NotFound("index.html not found"@),
            }
        },
    }
}

/// The first media type that mime_guess's `from_path` knows for the
/// extension of a path, by `MimeGuess::first_raw`. The guess is a look-up of
/// the extension in a fixed table: it reads no file, and is a function of
/// the path alone.
#[verifier::external_body]
fn guess_media_type(path: &str) -> (guess: Option<String>)
    ensures
        text_of(guess) == guessed_media_type(path@),
{
    match mime_guess::from_path(path).first_raw() {
        Some(media_type) => Some(media_type.to_owned()),
        None => None,
    }
}

/// The media type under which a file is served, given the guess for its
/// path: the guess, or a stream of bytes where there is none.
pub fn media_type_or_bytes(guess: Option<String>) -> (media: String)
    ensures
        media@ == match text_of(guess) {
            Some(m) => m,
            None => "application/octet-stream"@,
        },
{
    match guess {
        Some(media) => media,
        None => "application/octet-stream".to_owned(),
    }
}

/// The media type under which a file at `path` is served.
pub fn media_type(path: &str) -> (media: String)
    ensures
        media@ == media_type_of(path@),
{
    media_type_or_bytes(guess_media_type(path))
}

/// The answer to a request for `path`, given the file of that path and the
/// front end's entry page, where they exist.
pub fn serve_file(path: &str, file: Option<Vec<u8>>, index: Option<Vec<u8>>) -> (response:
    FileResponse)
    ensures
        response@ == served(
            path@,
            match file {
                Some(body) => Some(body@),
                None => None,
            },
            match index {
                Some(body) => Some(body@),
                None => None,
            },
        ),
{
    match file {
        Some(body) => FileResponse::Found(media_type(path), body),
        None => if starts_with(path, "assets/") {
            FileResponse::NotFound("Asset not found".to_owned())
        } else {
            match index {
                Some(body) => FileResponse::Found("text/html".to_owned(), body),
                None => FileResponse::NotFound("index.html not found".to_owned()),
            }
        },
    }
}

} // verus!
