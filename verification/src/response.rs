//! Response building: turn a resolution outcome into an HTTP status, headers
//! and body. File bytes are passed through verbatim; the `Content-Type` is
//! inferred from the file name alone, never from the content.

use vstd::prelude::*;

use crate::resolve::{Outcome, ResolutionOutcome};

verus! {

/// What the MIME guess returns for a file name: a content type drawn from a
/// static extension table, `application/octet-stream` for an unrecognized
/// extension. A function of the name's characters alone.
pub uninterp spec fn mime_of(name: Seq<char>) -> Seq<char>;

/// Relies on `mime_guess::from_path` and `MimeGuess::first_or_octet_stream`:
/// the guess is a lookup of the name's extension in a static table, falling
/// back to `application/octet-stream`, so it depends on the characters of
/// the name alone.
#[verifier::external_body]
fn guess_mime(name: &str) -> (r: String)
    ensures
        r@ == mime_of(name@),
{
    mime_guess::from_path(name).first_or_octet_stream().to_string()
}

/// Spec-level model of a rendered response: status code, header pairs in
/// order, body bytes.
#[verifier::ext_equal]
pub struct ResponseModel {
    pub status: int,
    pub headers: Seq<(Seq<char>, Seq<char>)>,
    pub body: Seq<u8>,
}

/// The response owed to each outcome: a found file (direct or index) is
/// served with status 200, its bytes verbatim and a `Content-Type` inferred
/// from the name that found it; a redirect is status 301 with the canonical
/// path in `Location` and an empty body; not-found is status 404 with an
/// empty body.
pub open spec fn rendered(outcome: Outcome) -> ResponseModel {
    match outcome {
        Outcome::Direct { content, name } => ResponseModel {
            status: 200,
            headers: seq![("Content-Type"@, mime_of(name))],
            body: content,
        },
        Outcome::IndexServed { content, name } => ResponseModel {
            status: 200,
            headers: seq![("Content-Type"@, mime_of(name))],
            body: content,
        },
        Outcome::RedirectToDirectory { location } => ResponseModel {
            status: 301,
            headers: seq![("Location"@, location)],
            body: Seq::empty(),
        },
        Outcome::NotFound => ResponseModel {
            status: 404,
            headers: Seq::empty(),
            body: Seq::empty(),
        },
    }
}

/// An HTTP response as handed back to the embedding layer: status code,
/// header pairs in order, body bytes. Built once per request and never
/// mutated afterwards.
#[derive(Debug, PartialEq, Eq)]
pub struct RenderedResponse {
    /// The HTTP status code.
    pub status: u16,
    /// The header name/value pairs.
    pub headers: Vec<(String, String)>,
    /// The body bytes.
    pub body: Vec<u8>,
}

impl View for RenderedResponse {
    type V = ResponseModel;

    open spec fn view(&self) -> ResponseModel {
        ResponseModel {
            status: self.status as int,
            headers: self.headers@.map(|i: int, h: (String, String)| (h.0@, h.1@)),
            body: self.body@,
        }
    }
}

/// Serve found bytes under the content type inferred from `name`.
fn render_file(content: Vec<u8>, name: &str) -> (r: RenderedResponse)
    ensures
        r@ == (ResponseModel {
            status: 200,
            headers: seq![("Content-Type"@, mime_of(name@))],
            body: content@,
        }),
{
    let ghost body = content@;
    let mime = guess_mime(name);
    let mut headers: Vec<(String, String)> = Vec::new();
    headers.push((String::from_str("Content-Type"), mime));
    let r = RenderedResponse { status: 200, headers, body: content };
    proof {
        assert(r@.headers =~= seq![("Content-Type"@, mime_of(name@))]);
        assert(r@ =~= (ResponseModel {
            status: 200,
            headers: seq![("Content-Type"@, mime_of(name@))],
            body,
        }));
    }
    r
}

/// Build the response for a resolution outcome. The result is fixed by the
/// outcome alone: rendering the same outcome twice yields byte-identical
/// responses.
pub fn render(outcome: ResolutionOutcome) -> (r: RenderedResponse)
    ensures
        r@ == rendered(outcome@),
{
    let ghost o = outcome@;
    match outcome {
        ResolutionOutcome::Direct { content, name } => render_file(content, name.as_str()),
        ResolutionOutcome::IndexServed { content, name } => render_file(content, name.as_str()),
        ResolutionOutcome::RedirectToDirectory { location } => {
            let mut headers: Vec<(String, String)> = Vec::new();
            headers.push((String::from_str("Location"), location));
            let r = RenderedResponse { status: 301, headers, body: Vec::new() };
            proof {
                assert(r@ =~= rendered(o));
            }
            r
        },
        ResolutionOutcome::NotFound => {
            let r = RenderedResponse { status: 404, headers: Vec::new(), body: Vec::new() };
            proof {
                assert(r@ =~= rendered(o));
            }
            r
        },
    }
}

/// Rendering is deterministic: two responses rendered for one and the same
/// outcome agree byte for byte. `render`'s contract pins its result to
/// `rendered(outcome)`, so any two of its results for equal outcomes are
/// equal.
pub proof fn lemma_render_deterministic(outcome: Outcome, r1: ResponseModel, r2: ResponseModel)
    requires
        r1 == rendered(outcome),
        r2 == rendered(outcome),
    ensures
        r1 == r2,
{
}

} // verus!
