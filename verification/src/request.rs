//! The request builder and its terminal decoding operations.
//!
//! A [`Request`] is built by one of the method-keyed constructors, optionally
//! given headers, and then consumed by exactly one terminal operation. The
//! asynchronous transport lives outside this crate: the embedding program
//! reads the prepared URL and [`Settings`], performs the fetch, and hands the
//! boundary's [`FetchOutcome`] to the terminal operation, which decodes it.

use vstd::prelude::*;

use crate::decode;
use crate::headers::Headers;
use crate::method::Method;

verus! {

/// The settings attached to one request. Currently the bag holds only the
/// selected [`Method`], defaulting to `Get`; it is kept extensible for
/// further fetch settings.
pub struct Options {
    method: Method,
}

impl Options {
    /// The method currently selected.
    pub closed spec fn spec_method(&self) -> Method {
        self.method
    }

    /// Returns a fresh bag with the method set to `Get`.
    pub fn new() -> (r: Options)
        ensures
            r.spec_method() == Method::Get,
    {
        Options { method: Method::Get }
    }

    /// Overwrites the stored method.
    pub fn method(&mut self, method: Method)
        ensures
            final(self).spec_method() == method,
    {
        self.method = method;
    }

    /// Reads back the stored method.
    pub fn selected(&self) -> (r: Method)
        ensures
            r == self.spec_method(),
    {
        self.method
    }
}

/// The settings object handed to the fetch boundary alongside the URL.
/// Extensible; today it carries the method's canonical label under the
/// `method` key.
pub struct Settings {
    pub method: String,
}

/// What the host fetch boundary produced for one dispatched request.
pub enum FetchOutcome {
    /// The boundary resolved; its opaque result value is carried in JSON
    /// text form.
    Resolved(String),
    /// The boundary rejected; carries its opaque transport-level error.
    Rejected(String),
}

/// Why a terminal operation failed.
#[derive(Debug, PartialEq, Eq)]
pub enum FetchError {
    /// The fetch boundary itself rejected. The boundary's opaque error is
    /// passed through unaltered; it is never interpreted or retried here.
    Transport(String),
    /// The resolved payload could not be decoded into the requested shape.
    /// Carries the decoder's message.
    Deserialization(String),
}

/// An HTTP request under construction: URL, headers, and settings.
///
/// The builder is consumed by its terminal operation, so a given request can
/// be dispatched at most once; a second dispatch takes a new `Request`.
pub struct Request {
    url: String,
    headers: Headers,
    options: Options,
}

impl Request {
    /// The request's URL.
    pub closed spec fn spec_url(&self) -> Seq<char> {
        self.url@
    }

    /// The headers attached so far, as a name-to-value map.
    pub closed spec fn spec_headers(&self) -> Map<Seq<char>, Seq<char>> {
        self.headers@
    }

    /// The method the request will be dispatched with.
    pub closed spec fn spec_method(&self) -> Method {
        self.options.spec_method()
    }

    /// The `method` entry of the settings object this request sends.
    pub open spec fn spec_settings_method(&self) -> Seq<char> {
        self.spec_method().label()
    }

    /// Internal invariant: the URL is non-empty and the header names are
    /// unique.
    pub closed spec fn wf(&self) -> bool {
        &&& self.url@.len() > 0
        &&& self.headers.wf()
    }

    fn new(url: String) -> (r: Request)
        requires
            url@.len() > 0,
        ensures
            r.wf(),
            r.spec_url() == url@,
            r.spec_method() == Method::Get,
            r.spec_headers() == Map::<Seq<char>, Seq<char>>::empty(),
    {
        Request { url, headers: Headers::new(), options: Options::new() }
    }

    fn with_method(self, method: Method) -> (r: Request)
        ensures
            r.wf() == self.wf(),
            r.spec_url() == self.spec_url(),
            r.spec_headers() == self.spec_headers(),
            r.spec_method() == method,
    {
        let mut this = self;
        this.options.method(method);
        this
    }

    /// Returns a request for `url` that will be dispatched with `Get`.
    pub fn get(url: String) -> (r: Request)
        requires
            url@.len() > 0,
        ensures
            r.wf(),
            r.spec_url() == url@,
            r.spec_method() == Method::Get,
            r.spec_headers() == Map::<Seq<char>, Seq<char>>::empty(),
    {
        Self::new(url).with_method(Method::Get)
    }

    /// Returns a request for `url` that will be dispatched with `Post`.
    pub fn post(url: String) -> (r: Request)
        requires
            url@.len() > 0,
        ensures
            r.wf(),
            r.spec_url() == url@,
            r.spec_method() == Method::Post,
            r.spec_headers() == Map::<Seq<char>, Seq<char>>::empty(),
    {
        Self::new(url).with_method(Method::Post)
    }

    /// Attaches a header, overwriting the value of an already-attached name,
    /// and returns the builder for further chaining. URL and method are
    /// untouched.
    pub fn with_header(self, name: String, value: String) -> (r: Request)
        requires
            self.wf(),
        ensures
            r.wf(),
            r.spec_url() == self.spec_url(),
            r.spec_method() == self.spec_method(),
            r.spec_headers() == self.spec_headers().insert(name@, value@),
    {
        let mut this = self;
        this.headers.add(name, value);
        this
    }

    /// The URL this request will be dispatched to.
    pub fn url(&self) -> (r: &String)
        ensures
            r@ == self.spec_url(),
    {
        &self.url
    }

    /// The headers attached so far.
    pub fn headers(&self) -> (r: &Headers)
        ensures
            r@ == self.spec_headers(),
            self.wf() ==> r.wf(),
    {
        &self.headers
    }

    /// Builds the settings object sent to the fetch boundary: the `method`
    /// key holds the canonical label of the selected method.
    ///
    /// Attached headers are held on the builder but deliberately not yet
    /// forwarded into the settings object; wiring them in is a planned
    /// extension of the settings bag.
    pub fn settings(&self) -> (r: Settings)
        ensures
            r.method@ == self.spec_settings_method(),
    {
        Settings { method: self.options.method.as_str().to_owned() }
    }

    /// Shared terminal step of both decoders: a rejection of the boundary is
    /// propagated unaltered as a transport failure; a resolution surfaces
    /// the payload for decoding.
    fn into_payload(outcome: FetchOutcome) -> (r: Result<String, FetchError>)
        ensures
            outcome matches FetchOutcome::Rejected(e) ==> r == Err::<String, FetchError>(
                FetchError::Transport(e),
            ),
            outcome matches FetchOutcome::Resolved(p) ==> r == Ok::<String, FetchError>(p),
    {
        match outcome {
            FetchOutcome::Resolved(p) => Ok(p),
            FetchOutcome::Rejected(e) => Err(FetchError::Transport(e)),
        }
    }

    /// Terminal operation: decodes the boundary's outcome for this request
    /// as plain text, consuming the builder.
    ///
    /// A rejection is propagated unaltered; a resolved payload yields
    /// exactly the decoded text, or a deserialization error carrying the
    /// decoder's message — never a default value.
    pub fn fetch_text(self, outcome: FetchOutcome) -> (r: Result<String, FetchError>)
        ensures
            outcome matches FetchOutcome::Rejected(e) ==> r == Err::<String, FetchError>(
                FetchError::Transport(e),
            ),
            outcome matches FetchOutcome::Resolved(p) ==> (decode::text_decoded(p@) matches Ok(t)
                ==> (r matches Ok(s) && s@ == t)),
            outcome matches FetchOutcome::Resolved(p) ==> (decode::text_decoded(p@) matches Err(m)
                ==> (r matches Err(FetchError::Deserialization(ms)) && ms@ == m)),
    {
        let payload = match Self::into_payload(outcome) {
            Ok(p) => p,
            Err(e) => { return Err(e); },
        };
        decode::decoded_into_response(decode::decode_text_payload(payload.as_str()))
    }

    /// Terminal operation: decodes the boundary's outcome for this request
    /// into a caller-chosen JSON shape `T`, consuming the builder.
    ///
    /// A rejection is propagated unaltered; a resolved payload either
    /// decodes into a `T` or fails with a deserialization error carrying the
    /// decoder's message — a resolution never surfaces as a transport
    /// failure, and no default value is ever returned.
    pub fn fetch_json<T: serde::de::DeserializeOwned>(self, outcome: FetchOutcome) -> (r: Result<
        T,
        FetchError,
    >)
        ensures
            outcome matches FetchOutcome::Rejected(e) ==> r == Err::<T, FetchError>(
                FetchError::Transport(e),
            ),
            outcome matches FetchOutcome::Resolved(p) ==> (r matches Ok(_) || r matches Err(
                FetchError::Deserialization(_),
            )),
    {
        let payload = match Self::into_payload(outcome) {
            Ok(p) => p,
            Err(e) => { return Err(e); },
        };
        decode::decoded_into_response(decode::decode_json_payload::<T>(payload.as_str()))
    }
}

/// A request built with `get` sends a settings object whose method label is
/// exactly `"Get"`; one built with `post`, exactly `"Post"`.
pub proof fn lemma_dispatch_method_label(r: Request)
    ensures
        r.spec_method() == Method::Get ==> r.spec_settings_method() == "Get"@,
        r.spec_method() == Method::Post ==> r.spec_settings_method() == "Post"@,
{
}

} // verus!
