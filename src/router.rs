//! The decisions taken for one request to the directory server.
//!
//! Serving a request alternates filesystem work and decisions. The decisions
//! stand here as a machine: [`begin`] takes the request path, [`advance`]
//! takes what the filesystem reported, and each hands back the next stage
//! with the work to do, until a response is due.
use vstd::prelude::*;

use crate::listing::{listing_html, render_listing, Child};
use crate::path::{all_plain, resolve_spec, resolve_url_path, views};

verus! {

/// What a resolved location turned out to be on disk.
#[derive(Clone, Copy, PartialEq, Eq, Debug, Structural)]
pub enum ResolvedTarget {
    Missing,
    Directory,
    File,
}

/// The body of a response.
pub enum Body {
    /// A directory listing page.
    Html(String),
    /// A plain-text message.
    Text(String),
    /// The bytes of a file.
    Bytes(Vec<u8>),
}

/// A status code with its body.
pub struct Response {
    pub status: u16,
    pub body: Body,
}

/// The mathematical value of a body.
pub enum BodyView {
    Html(Seq<char>),
    Text(Seq<char>),
    Bytes(Seq<u8>),
}

pub struct ResponseView {
    pub status: u16,
    pub body: BodyView,
}

impl View for Response {
    type V = ResponseView;

    open spec fn view(&self) -> ResponseView {
        ResponseView {
            status: self.status,
            body: match self.body {
                Body::Html(s) => BodyView::Html(s@),
                Body::Text(s) => BodyView::Text(s@),
                Body::Bytes(b) => BodyView::Bytes(b@),
            },
        }
    }
}

/// The work that the caller does next, with the location it concerns as
/// entry names from the root down.
pub enum Action {
    /// Find out whether the location exists and what it is.
    Inspect(Vec<String>),
    /// Read the entries of the directory at the location.
    ListDirectory(Vec<String>),
    /// Read the file at the location.
    ReadFile(Vec<String>),
    /// Send this response; the request is done.
    Respond(Response),
}

/// What the caller reports back after doing the work.
pub enum Event {
    Inspected(ResolvedTarget),
    Listed(Result<Vec<Child>, String>),
    Read(Result<Vec<u8>, String>),
}

/// Where a request stands.
pub enum Stage {
    /// Waiting to learn what the location is.
    Resolving(Vec<String>),
    /// Waiting for the entries of the directory at the location.
    Listing(Vec<String>),
    /// Waiting for the contents of the file.
    Reading,
    /// The response has been handed out.
    Done,
}

pub open spec fn not_found_view() -> ResponseView {
    ResponseView { status: 404, body: BodyView::Text("404 Not Found"@) }
}

pub open spec fn listing_failed_view(e: Seq<char>) -> ResponseView {
    ResponseView { status: 500, body: BodyView::Text("Failed to read directory: "@ + e) }
}

pub open spec fn read_failed_view(e: Seq<char>) -> ResponseView {
    ResponseView { status: 500, body: BodyView::Text(e) }
}

pub open spec fn page_view(html: Seq<char>) -> ResponseView {
    ResponseView { status: 200, body: BodyView::Html(html) }
}

pub open spec fn contents_view(bytes: Seq<u8>) -> ResponseView {
    ResponseView { status: 200, body: BodyView::Bytes(bytes) }
}

pub open spec fn out_of_turn_view() -> ResponseView {
    ResponseView { status: 500, body: BodyView::Text("Unexpected report for this request"@) }
}

/// The response for a path that names nothing under the root.
pub fn not_found() -> (r: Response)
    ensures
        r@ == not_found_view(),
{
    Response { status: 404, body: Body::Text(String::from_str("404 Not Found")) }
}

/// The request is over and `out` sends a response whose value is `v`.
pub open spec fn responds_with(out: (Stage, Action), v: ResponseView) -> bool {
    &&& out.0 is Done
    &&& out.1 matches Action::Respond(r) && r@ == v
}

/// The entry names of a location, as the contracts speak of them.
pub open spec fn location(v: Vec<String>) -> Seq<Seq<char>> {
    views(v@)
}

/// Starts a request for `url_path`, the decoded request path. A path that
/// climbs above the root is answered with 404 at once and never reaches the
/// filesystem; any other is inspected at the location it resolves to.
pub fn begin(url_path: &str) -> (out: (Stage, Action))
    ensures
        resolve_spec(url_path@) is None ==> responds_with(out, not_found_view()),
        resolve_spec(url_path@) matches Some(at) ==> {
            &&& out.0 matches Stage::Resolving(s) && location(s) == at
            &&& out.1 matches Action::Inspect(s) && location(s) == at
            &&& all_plain(at)
        },
{
    match resolve_url_path(url_path) {
        None => (Stage::Done, Action::Respond(not_found())),
        Some(at) => {
            let again = clone_names(&at);
            (Stage::Resolving(at), Action::Inspect(again))
        },
    }
}

fn clone_names(v: &Vec<String>) -> (r: Vec<String>)
    ensures
        views(r@) == views(v@),
{
    let mut r: Vec<String> = Vec::new();
    let mut i: usize = 0;
    while i < v.len()
        invariant
            i <= v.len(),
            views(r@) == views(v@).subrange(0, i as int),
        decreases v.len() - i,
    {
        let ghost prev = r@;
        r.push(v[i].clone());
        assert(views(r@) =~= views(v@).subrange(0, i + 1)) by {
            assert(views(r@) =~= views(prev).push(v@[i as int]@));
        }
        i = i + 1;
    }
    assert(views(v@).subrange(0, v.len() as int) =~= views(v@));
    r
}

/// Takes one report of the filesystem and decides what comes next: a missing
/// location is answered with 404, a directory is listed and a file is read;
/// a listing is answered with its page and the contents of a file with
/// exactly those bytes, both with 200; a failure to read is answered with
/// 500 and the error's text. A report that does not fit the stage ends the
/// request with 500.
pub fn advance(stage: Stage, event: Event) -> (out: (Stage, Action))
    ensures
        match (stage, event) {
            (Stage::Resolving(at), Event::Inspected(ResolvedTarget::Missing)) => {
                responds_with(out, not_found_view())
            },
            (Stage::Resolving(at), Event::Inspected(ResolvedTarget::Directory)) => {
                &&& out.0 matches Stage::Listing(s) && location(s) == location(at)
                &&& out.1 matches Action::ListDirectory(s) && location(s) == location(at)
            },
            (Stage::Resolving(at), Event::Inspected(ResolvedTarget::File)) => {
                &&& out.0 is Reading
                &&& out.1 matches Action::ReadFile(s) && location(s) == location(at)
            },
            (Stage::Listing(at), Event::Listed(Ok(children))) => {
                responds_with(out, page_view(listing_html(location(at), children@)))
            },
            (Stage::Listing(at), Event::Listed(Err(e))) => {
                responds_with(out, listing_failed_view(e@))
            },
            (Stage::Reading, Event::Read(Ok(bytes))) => {
                responds_with(out, contents_view(bytes@))
            },
            (Stage::Reading, Event::Read(Err(e))) => {
                responds_with(out, read_failed_view(e@))
            },
            _ => responds_with(out, out_of_turn_view()),
        },
{
    match (stage, event) {
        (Stage::Resolving(at), Event::Inspected(ResolvedTarget::Missing)) => {
            (Stage::Done, Action::Respond(not_found()))
        },
        (Stage::Resolving(at), Event::Inspected(ResolvedTarget::Directory)) => {
            let again = clone_names(&at);
            (Stage::Listing(at), Action::ListDirectory(again))
        },
        (Stage::Resolving(at), Event::Inspected(ResolvedTarget::File)) => {
            (Stage::Reading, Action::ReadFile(at))
        },
        (Stage::Listing(at), Event::Listed(Ok(children))) => {
            let html = render_listing(&at, &children);
            (Stage::Done, Action::Respond(Response { status: 200, body: Body::Html(html) }))
        },
        (Stage::Listing(at), Event::Listed(Err(e))) => {
            let mut text = String::from_str("Failed to read directory: ");
            text.append(e.as_str());
            (Stage::Done, Action::Respond(Response { status: 500, body: Body::Text(text) }))
        },
        (Stage::Reading, Event::Read(Ok(bytes))) => {
            (Stage::Done, Action::Respond(Response { status: 200, body: Body::Bytes(bytes) }))
        },
        (Stage::Reading, Event::Read(Err(e))) => {
            (Stage::Done, Action::Respond(Response { status: 500, body: Body::Text(e) }))
        },
        _ => {
            let text = String::from_str("Unexpected report for this request");
            (Stage::Done, Action::Respond(Response { status: 500, body: Body::Text(text) }))
        },
    }
}

} // verus!
