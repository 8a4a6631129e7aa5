//! What the explorer serves: an embedded file under its content type, the
//! index page for a route of the single-page application, or nothing.

use vstd::prelude::*;
use vstd::string::*;
use crate::explorer_page::FALLBACK_EXPLORER_HTML;
use crate::text::{contains_text, occurs_in};

verus! {

/// What answers a request for a file of the explorer.
#[derive(Debug)]
pub enum Served {
    /// The embedded file, to be cached for an hour.
    Asset { content_type: String, body: Vec<u8> },
    /// The index page, standing in for a route of the application.
    Index { body: Vec<u8> },
    /// Nothing: the answer is 404.
    NotFound,
}

/// What answers a request for the explorer's entry page.
#[derive(Debug)]
pub enum EntryPage {
    /// The embedded index page.
    Built(Served),
    /// The page that stands in while no user interface has been built.
    Fallback(&'static str),
}

/// How long an embedded file may be cached.
pub const ASSET_CACHE_CONTROL: &'static str = "public, max-age=3600";

/// `mime_guess::from_path`, then `first_or_octet_stream`: the content type
/// that the path's extension stands for. Nothing is claimed of it: what an
/// extension is depends on the platform's path rules.
#[verifier::external_body]
fn guess_content_type(path: &str) -> (r: String) {
    mime_guess::from_path(path).first_or_octet_stream().as_ref().to_string()
}

/// Decides what answers a request for `path`, given the embedded file at
/// that path, the embedded index page, and the content type guessed for
/// the path.
///
/// A file that is embedded is served under `content_type`. A path without
/// a dot is a route of the application and gets the index page, if that is
/// embedded. Everything else is not found.
pub fn serve_guessed(
    path: &str,
    asset: Option<Vec<u8>>,
    index: Option<Vec<u8>>,
    content_type: String,
) -> (r: Served)
    ensures
        match asset {
            Some(body) => r == (Served::Asset { content_type: content_type, body: body }),
            None => match index {
                Some(body) => if occurs_in("."@, path@) {
                    r == Served::NotFound
                } else {
                    r == (Served::Index { body: body })
                },
                None => r == Served::NotFound,
            },
        },
{
    match asset {
        Some(body) => Served::Asset { content_type, body },
        None => {
            if !contains_text(path, ".") {
                match index {
                    Some(body) => {
                        return Served::Index { body };
                    },
                    None => {},
                }
            }
            Served::NotFound
        },
    }
}

/// Decides what answers a request for `path`, given the embedded file at
/// that path and the embedded index page. An embedded file is served under
/// the content type guessed from the path, whatever that is.
pub fn serve_file(path: &str, asset: Option<Vec<u8>>, index: Option<Vec<u8>>) -> (r: Served)
    ensures
        match asset {
            Some(body) => r matches Served::Asset { content_type: _, body: b } && b == body,
            None => match index {
                Some(body) => if occurs_in("."@, path@) {
                    r == Served::NotFound
                } else {
                    r == (Served::Index { body: body })
                },
                None => r == Served::NotFound,
            },
        },
{
    let content_type = guess_content_type(path);
    serve_guessed(path, asset, index, content_type)
}

/// Decides what answers a request for the entry page: the embedded index
/// page under the content type guessed for it, or the fallback page.
pub fn serve_index(index: Option<Vec<u8>>) -> (r: EntryPage)
    ensures
        match index {
            Some(body) => r matches EntryPage::Built(Served::Asset { content_type: _, body: b })
                && b == body,
            None => r matches EntryPage::Fallback(page) && page@ == FALLBACK_EXPLORER_HTML@,
        },
{
    match index {
        Some(body) => EntryPage::Built(serve_file("index.html", Some(body), None)),
        None => EntryPage::Fallback(fallback_explorer_html()),
    }
}

/// The page that stands in while no user interface has been built.
pub fn fallback_explorer_html() -> (r: &'static str)
    ensures
        r@ == FALLBACK_EXPLORER_HTML@,
{
    FALLBACK_EXPLORER_HTML
}

} // verus!
