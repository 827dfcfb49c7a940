//! A minimal HTTP client core layered over a host-provided fetch capability.
//!
//! The crate models the request-building and response-decoding logic of such a
//! client: the [`Method`] / [`Headers`] / [`Options`] / [`Request`] data model,
//! and the two terminal decoders [`Request::fetch_text`] and
//! [`Request::fetch_json`]. The asynchronous transport itself is supplied by
//! the embedding program, which performs the prepared call and hands the
//! outcome back as a [`FetchOutcome`].

pub mod decode;
pub mod headers;
pub mod method;
pub mod request;

pub use headers::Headers;
pub use method::Method;
pub use request::FetchError;
pub use request::FetchOutcome;
pub use request::Options;
pub use request::Request;
pub use request::Settings;
