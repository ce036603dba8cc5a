//! The request builder: a URL, an optional payload, and two type-level tags.

use vstd::prelude::*;
use core::marker::PhantomData;
use crate::payload::{body_view, Payload, ScalarView};
use crate::text::{
    is_rooted, is_rooted_text, is_segment, lemma_rooted_is_ascii, lemma_with_segment_rooted,
    with_segment, URL_LIMIT,
};

verus! {

/// What a request holds: the text of its URL and, if it has one, its payload.
pub struct RequestView {
    pub url: Seq<char>,
    pub body: Option<Seq<(Seq<char>, ScalarView)>>,
}

impl RequestView {
    /// This request with `payload` in place of whatever body it had.
    pub open spec fn with_body(self, payload: Seq<(Seq<char>, ScalarView)>) -> RequestView {
        RequestView { url: self.url, body: Some(payload) }
    }

    /// This request with `segment` appended to its URL.
    pub open spec fn with_segment(self, segment: Seq<char>) -> RequestView {
        RequestView { url: with_segment(self.url, segment), body: self.body }
    }
}

/// A request under method tag `A` whose answer decodes to `V`.
///
/// The tags are never looked at while a request is built: they only select
/// which operations are offered next, and how the call is made in the end.
pub struct Request<A, V> {
    url: String,
    body: Option<Payload>,
    method: PhantomData<A>,
    value: PhantomData<V>,
}

impl<A, V> View for Request<A, V> {
    type V = RequestView;

    closed spec fn view(&self) -> RequestView {
        RequestView { url: self.url@, body: body_view(self.body) }
    }
}

/// The URL crate's `Url::parse`, `Url::path_segments_mut` and
/// `PathSegmentsMut::push`, on the URL's text. For a URL made of the root and
/// of segments, each behind one separator, and a segment made of segment
/// characters, the crate appends one separator and the segment as it stands:
/// it normalises and percent-encodes nothing in either. The bound keeps the
/// result within the length that the crate can index.
#[verifier::external_body]
fn append_segment(base: &str, segment: &str) -> (r: String)
    requires
        is_rooted(base@),
        is_segment(segment@),
        base@.len() + 1 + segment@.len() <= URL_LIMIT,
    ensures
        r@ == with_segment(base@, segment@),
{
    let mut parsed = url::Url::parse(base).unwrap();
    parsed.path_segments_mut().unwrap().push(segment);
    String::from(parsed)
}

impl<A, V> Request<A, V> {
    /// Whether the URL is made of the root followed by segments, so that
    /// further segments can be appended.
    pub open spec fn wf(&self) -> bool {
        is_rooted(self@.url)
    }

    /// Whether the URL can grow by `n` more bytes.
    pub open spec fn has_room(&self, n: nat) -> bool {
        self@.url.len() + n <= URL_LIMIT
    }

    /// The same request under tags `B` and `W`.
    pub closed spec fn retagged<B, W>(self) -> Request<B, W> {
        Request { url: self.url, body: self.body, method: PhantomData, value: PhantomData }
    }

    /// A request for `url` without a body.
    pub fn new(url: String) -> (r: Self)
        ensures
            r@ == (RequestView { url: url@, body: None }),
    {
        Request { url, body: None, method: PhantomData, value: PhantomData }
    }

    /// The text of the URL.
    pub fn url(&self) -> (r: &str)
        ensures
            r@ == self@.url,
    {
        self.url.as_str()
    }

    /// The payload, if there is one.
    pub fn body(&self) -> (r: &Option<Payload>)
        ensures
            body_view(*r) == self@.body,
    {
        &self.body
    }

    /// Takes the request apart into its URL and its payload.
    pub fn into_parts(self) -> (r: (String, Option<Payload>))
        ensures
            r.0@ == self@.url,
            body_view(r.1) == self@.body,
    {
        (self.url, self.body)
    }

    /// Tells whether the URL can take further segments of `extra` bytes in
    /// all, separators included.
    pub fn accepts(&self, extra: usize) -> (r: bool)
        ensures
            r == (self.wf() && self.has_room(extra as nat)),
    {
        let url = self.url.as_str();
        if !is_rooted_text(url) {
            return false;
        }
        proof {
            lemma_rooted_is_ascii(url@);
        }
        let n: usize = url.as_bytes().len();
        n <= URL_LIMIT && extra <= URL_LIMIT - n
    }

    /// Appends one path segment to the URL.
    pub fn push(&mut self, segment: &str)
        requires
            old(self).wf(),
            is_segment(segment@),
            old(self).has_room(1 + segment@.len()),
        ensures
            final(self)@ == old(self)@.with_segment(segment@),
            final(self).wf(),
    {
        proof {
            lemma_with_segment_rooted(self.url@, segment@);
        }
        self.url = append_segment(self.url.as_str(), segment);
    }

    /// Replaces the body, if any, with `payload`.
    pub fn set_body(&mut self, payload: Payload)
        ensures
            final(self)@ == old(self)@.with_body(payload@),
    {
        self.body = Some(payload);
    }

    /// Reinterprets the request under other tags. The URL and the body stay
    /// as they are.
    pub fn transmute<B, W>(self) -> (r: Request<B, W>)
        ensures
            r == self.retagged::<B, W>(),
            r@ == self@,
    {
        Request { url: self.url, body: self.body, method: PhantomData, value: PhantomData }
    }
}

/// Reinterpreting a request changes neither its URL nor its body, whatever
/// the tags, and however often it is done.
pub proof fn lemma_transmute_preserves<A, V, B, W, C, X>(r: Request<A, V>)
    ensures
        r.retagged::<B, W>()@.url == r@.url,
        r.retagged::<B, W>()@.body == r@.body,
        r.retagged::<B, W>().retagged::<C, X>()@ == r@,
        r.retagged::<B, W>().wf() == r.wf(),
{
}

/// The body is the payload that was set last: a second payload replaces the
/// first whole, and setting the same payload twice is setting it once.
pub proof fn lemma_set_body_last_wins(
    r: RequestView,
    p: Seq<(Seq<char>, ScalarView)>,
    q: Seq<(Seq<char>, ScalarView)>,
)
    ensures
        r.with_body(p).with_body(q) == r.with_body(q),
        r.with_body(p).with_body(q).body == Some(q),
        r.with_body(p).with_body(p) == r.with_body(p),
        r.with_body(p).url == r.url,
{
}

} // verus!
