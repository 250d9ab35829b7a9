//! Typed resource links and response classification.
//!
//! A [`Uri`] is an unresolved absolute URL annotated with the type it
//! resolves to. Fetching one is a gated HTTP GET followed by a decode;
//! the transport work happens outside this module, which owns the whole
//! decision: which decode a reply calls for ([`decode_target`]) and
//! what the fetch returns for every combination of reply and decode
//! outcome ([`resolve_response`]).

use core::marker::PhantomData;
use vstd::prelude::*;

use crate::error::Error;
use crate::error::ScryfallError;

verus! {

broadcast use vstd::string::group_string_axioms;

/// The canonical serialization of an absolute URL, or `None` for text
/// that is not one, exactly as the URL parser decides; a function of
/// the input text alone.
pub uninterp spec fn parsed_url_of(s: Seq<char>) -> Option<Seq<char>>;

/// Relies on url::Url::parse: validates and normalizes an absolute URL,
/// returning its canonical serialization, `None` exactly for text that
/// does not parse as an absolute URL.
#[verifier::external_body]
fn parse_absolute_url(s: &str) -> (r: Option<String>)
    ensures
        match r {
            Some(u) => parsed_url_of(s@) == Some(u@),
            None => parsed_url_of(s@) is None,
        },
{
    match url::Url::parse(s) {
        Ok(u) => Some(String::from(u)),
        Err(_) => None,
    }
}

/// An unresolved URL annotated with the type `T` it deserializes to.
/// Immutable once constructed and cheap to clone; its identity is the
/// URL alone.
#[derive(Debug)]
pub struct Uri<T> {
    url: String,
    _marker: PhantomData<T>,
}

impl<T> View for Uri<T> {
    type V = Seq<char>;

    closed spec fn view(&self) -> Seq<char> {
        self.url@
    }
}

impl<T> Uri<T> {
    /// A link from an already-canonical URL string.
    pub fn from_url(url: String) -> (r: Uri<T>)
        ensures
            r@ == url@,
    {
        Uri { url, _marker: PhantomData }
    }

    /// Parse a link from text: succeeds exactly when the text parses
    /// as an absolute URL, and then holds its canonical serialization.
    pub fn parse(s: &str) -> (r: Option<Uri<T>>)
        ensures
            r is Some <==> parsed_url_of(s@) is Some,
            r matches Some(u) ==> Some(u@) == parsed_url_of(s@),
    {
        match parse_absolute_url(s) {
            Some(url) => Some(Uri { url, _marker: PhantomData }),
            None => None,
        }
    }

    /// The URL this link points at.
    pub fn as_str(&self) -> (r: &str)
        ensures
            r@ == self@,
    {
        self.url.as_str()
    }

    /// An identical link.
    pub fn duplicate(&self) -> (r: Uri<T>)
        ensures
            r@ == self@,
    {
        Uri { url: self.url.clone(), _marker: PhantomData }
    }

    /// Whether two links point at the same URL — a link's identity is
    /// the URL alone, whatever its target type.
    pub fn same_url<U>(&self, other: &Uri<U>) -> (r: bool)
        ensures
            r == (self@ == other@),
    {
        self.url == other.url
    }
}

/// What the transport layer hands back for one HTTP exchange: either a
/// response (whatever its status) or a transport failure.
pub enum TransportReply {
    Response { status: u16, status_text: String, body: String },
    Failure { message: String },
}

/// Which decode a reply's body calls for.
#[derive(Debug, Clone, Copy, PartialEq, Eq, Structural)]
pub enum BodyTarget {
    /// A success status: decode the body as the fetched type.
    Item,
    /// A client-error status: decode the body as the structured API
    /// error payload.
    ErrorPayload,
    /// Any other reply: the body is not decoded at all.
    Nothing,
}

/// Classify a reply: success statuses (200–299) decode as the item,
/// client-error statuses (400–499) decode as the API error payload,
/// and everything else — other statuses and transport failures — is
/// not decoded.
pub fn decode_target(reply: &TransportReply) -> (r: BodyTarget)
    ensures
        r == BodyTarget::Item <==> (reply matches TransportReply::Response { status, .. }
            && 200 <= *status <= 299),
        r == BodyTarget::ErrorPayload <==> (reply matches TransportReply::Response {
            status,
            ..
        } && 400 <= *status <= 499),
{
    match reply {
        TransportReply::Response { status, .. } => {
            if 200 <= *status && *status <= 299 {
                BodyTarget::Item
            } else if 400 <= *status && *status <= 499 {
                BodyTarget::ErrorPayload
            } else {
                BodyTarget::Nothing
            }
        },
        TransportReply::Failure { .. } => BodyTarget::Nothing,
    }
}

/// The outcome of the decode a reply's body was submitted to.
pub enum BodyDecode<T> {
    /// The body decoded as the fetched type.
    Item(T),
    /// The body decoded as the structured API error payload.
    ErrorPayload(ScryfallError),
    /// The body did not decode as what was asked of it (or nothing was
    /// asked).
    Undecoded,
}

/// The result of one fetch, assembled from the transport's reply and
/// the outcome of the decode it called for:
///
/// - a transport failure surfaces as a transport error carrying the
///   failure message and the offending URL;
/// - a success status (200–299) yields the decoded item, or a decode
///   error when the body did not match;
/// - a client-error status (400–499) surfaces the decoded API error
///   payload, or a decode error when the payload itself did not match;
/// - any other status surfaces as an HTTP error carrying the status
///   and its text.
pub fn resolve_response<T>(url: &str, reply: TransportReply, decoded: BodyDecode<T>) -> (r: Result<
    T,
    Error,
>)
    ensures
        r is Ok <==> (reply matches TransportReply::Response { status, .. } && 200 <= status <= 299
            && decoded is Item),
        reply matches TransportReply::Failure { message } ==> (r matches Err(e) && e matches
            Error::TransportError { message: m, url: u } && m@ == message@ && u@ == url@),
        reply matches TransportReply::Response { status, status_text, .. } ==> (if 200 <= status
            && status <= 299 {
            &&& decoded matches BodyDecode::Item(v) ==> r == Ok::<T, Error>(v)
            &&& !(decoded is Item) ==> (r matches Err(e) && e matches Error::DecodeError {
                url: u,
            } && u@ == url@)
        } else if 400 <= status && status <= 499 {
            &&& decoded matches BodyDecode::ErrorPayload(p) ==> (r matches Err(e) && e matches
                Error::ScryfallError(q) && q == p)
            &&& !(decoded is ErrorPayload) ==> (r matches Err(e) && e matches Error::DecodeError {
                url: u,
            } && u@ == url@)
        } else {
            r matches Err(e) && e matches Error::HttpError { status: s, status_text: t } && s
                == status && t@ == status_text@
        }),
{
    match reply {
        TransportReply::Response { status, status_text, body: _ } => {
            if 200 <= status && status <= 299 {
                match decoded {
                    BodyDecode::Item(v) => Ok(v),
                    _ => Err(Error::DecodeError { url: url.to_string() }),
                }
            } else if 400 <= status && status <= 499 {
                match decoded {
                    BodyDecode::ErrorPayload(p) => Err(Error::ScryfallError(p)),
                    _ => Err(Error::DecodeError { url: url.to_string() }),
                }
            } else {
                Err(Error::HttpError { status, status_text })
            }
        },
        TransportReply::Failure { message } => Err(
            Error::TransportError { message, url: url.to_string() },
        ),
    }
}

} // verus!
