//! Errors of the HTTP/2 payload and of the dispatcher.
use vstd::prelude::*;

verus! {

/// An error of the standard library's I/O layer.
#[verifier::external_type_specification]
#[verifier::external_body]
pub struct ExIoError(std::io::Error);

/// An error of the `h2` protocol implementation.
#[verifier::external_type_specification]
#[verifier::external_body]
pub struct ExH2Error(h2::Error);

/// An HTTP response of the `http-types` crate.
#[verifier::external_type_specification]
#[verifier::external_body]
pub struct ExResponse(http_types::Response);

/// A URL parse error, as `http-types` re-exports it from the `url` crate: a
/// fieldless enum with one fixed text per variant.
#[verifier::external_type_specification]
pub struct ExUrlParseError(http_types::url::ParseError);

/// The text that the `url` crate displays for a parse error.
pub open spec fn url_parse_error_text(err: http_types::url::ParseError) -> Seq<char> {
    match err {
        http_types::url::ParseError::EmptyHost => "empty host"@,
        http_types::url::ParseError::IdnaError => "invalid international domain name"@,
        http_types::url::ParseError::InvalidPort => "invalid port number"@,
        http_types::url::ParseError::InvalidIpv4Address => "invalid IPv4 address"@,
        http_types::url::ParseError::InvalidIpv6Address => "invalid IPv6 address"@,
        http_types::url::ParseError::InvalidDomainCharacter => "invalid domain character"@,
        http_types::url::ParseError::RelativeUrlWithoutBase => "relative URL without a base"@,
        http_types::url::ParseError::RelativeUrlWithCannotBeABaseBase =>
            "relative URL with a cannot-be-a-base base"@,
        http_types::url::ParseError::SetHostOnCannotBeABaseUrl =>
            "a cannot-be-a-base URL doesn’t have a host to set"@,
        http_types::url::ParseError::Overflow => "URLs more than 4 GB are not supported"@,
        // The enum is marked non-exhaustive; every variant it has is listed above.
        _ => Seq::empty(),
    }
}

/// Calls the `Debug` formatting of an optional `std::io::Error`. For an
/// error the text depends on its kind and message, which are not visible
/// here, so nothing is stated of it.
#[verifier::external_body]
fn optional_io_error_debug_text(err: &Option<std::io::Error>) -> (text: String) {
    format!("{:?}", err)
}

/// Calls the `Display` formatting of a `std::io::Error`. Nothing is stated
/// of the text, for the same reason.
#[verifier::external_body]
fn io_error_text(err: &std::io::Error) -> (text: String) {
    format!("{}", err)
}

/// Calls the `Display` formatting of an `h2::Error`. Nothing is stated of
/// the text: it depends on the error's inner kind, which is not visible here.
#[verifier::external_body]
fn h2_error_text(err: &h2::Error) -> (text: String) {
    format!("{}", err)
}

/// Calls the `Display` formatting of a URL parse error, which writes the
/// fixed text of its variant.
#[verifier::external_body]
fn parse_error_text(err: &http_types::url::ParseError) -> (text: String)
    ensures
        text@ == url_parse_error_text(*err),
{
    format!("{}", err)
}

/// An error while reading a request payload.
#[derive(Debug)]
#[non_exhaustive]
pub enum PayloadError {
    /// A payload reached EOF, but is not complete.
    Incomplete(Option<std::io::Error>),
    /// Content encoding stream corruption.
    EncodingCorrupted,
    /// Payload reached size limit.
    Overflow,
    /// Payload length is unknown.
    UnknownLength,
    /// HTTP/2 payload error.
    Http2Payload(h2::Error),
    /// Generic I/O error.
    Io(std::io::Error),
}

/// The lower-level error that caused a payload error.
#[derive(Debug)]
pub enum PayloadErrorSource<'a> {
    Io(&'a std::io::Error),
    H2(&'a h2::Error),
}

impl PayloadError {
    /// The lower-level cause of `self`, as `source` reports it.
    pub open spec fn source_spec(&self) -> Option<PayloadErrorSource<'_>> {
        match self {
            PayloadError::Incomplete(Some(err)) => Some(PayloadErrorSource::Io(err)),
            PayloadError::Http2Payload(err) => Some(PayloadErrorSource::H2(err)),
            PayloadError::Io(err) => Some(PayloadErrorSource::Io(err)),
            _ => None,
        }
    }

    /// The lower-level cause of this error: the I/O error of an incomplete
    /// payload or of a generic I/O failure, or the HTTP/2 error; `None` for
    /// every other kind.
    pub fn source(&self) -> (r: Option<PayloadErrorSource<'_>>)
        ensures
            r == self.source_spec(),
            match self {
                PayloadError::Incomplete(Some(err)) => r == Some(PayloadErrorSource::Io(err)),
                PayloadError::Http2Payload(err) => r == Some(PayloadErrorSource::H2(err)),
                PayloadError::Io(err) => r == Some(PayloadErrorSource::Io(err)),
                _ => r is None,
            },
    {
        match self {
            PayloadError::Incomplete(None) => None,
            PayloadError::Incomplete(Some(err)) => Some(PayloadErrorSource::Io(err)),
            PayloadError::EncodingCorrupted => None,
            PayloadError::Overflow => None,
            PayloadError::UnknownLength => None,
            PayloadError::Http2Payload(err) => Some(PayloadErrorSource::H2(err)),
            PayloadError::Io(err) => Some(PayloadErrorSource::Io(err)),
        }
    }
}

impl PayloadError {
    /// The description of the error: a fixed sentence for each kind, which
    /// for an incomplete payload ends with the debug text of its cause; the
    /// text of the inner error for the HTTP/2 and I/O kinds.
    pub fn message(&self) -> (m: String)
        ensures
            match self {
                PayloadError::Incomplete(None) => m@
                    == "A payload reached EOF, but is not complete. Inner error: None"@,
                PayloadError::Incomplete(Some(_)) => exists|t: Seq<char>|
                    m@ == "A payload reached EOF, but is not complete. Inner error: "@ + t,
                PayloadError::EncodingCorrupted => m@ == "Can not decode content-encoding."@,
                PayloadError::Overflow => m@ == "Payload reached size limit."@,
                PayloadError::UnknownLength => m@ == "Payload length is unknown."@,
                PayloadError::Http2Payload(_) => true,
                PayloadError::Io(_) => true,
            },
    {
        match self {
            PayloadError::Incomplete(None) => String::from_str(
                "A payload reached EOF, but is not complete. Inner error: None",
            ),
            PayloadError::Incomplete(err) => {
                let mut m = String::from_str(
                    "A payload reached EOF, but is not complete. Inner error: ",
                );
                let inner = optional_io_error_debug_text(err);
                m.append(inner.as_str());
                m
            },
            PayloadError::EncodingCorrupted => String::from_str("Can not decode content-encoding."),
            PayloadError::Overflow => String::from_str("Payload reached size limit."),
            PayloadError::UnknownLength => String::from_str("Payload length is unknown."),
            PayloadError::Http2Payload(err) => h2_error_text(err),
            PayloadError::Io(err) => io_error_text(err),
        }
    }
}

impl From<h2::Error> for PayloadError {
    /// An HTTP/2 payload error.
    fn from(err: h2::Error) -> (e: PayloadError)
        ensures
            e == PayloadError::Http2Payload(err),
    {
        PayloadError::Http2Payload(err)
    }
}

impl vstd::std_specs::convert::FromSpecImpl<h2::Error> for PayloadError {
    open spec fn obeys_from_spec() -> bool {
        true
    }

    open spec fn from_spec(err: h2::Error) -> PayloadError {
        PayloadError::Http2Payload(err)
    }
}

impl From<Option<std::io::Error>> for PayloadError {
    /// An incomplete payload, with the I/O error that ended it if any.
    fn from(err: Option<std::io::Error>) -> (e: PayloadError)
        ensures
            e == PayloadError::Incomplete(err),
    {
        PayloadError::Incomplete(err)
    }
}

impl vstd::std_specs::convert::FromSpecImpl<Option<std::io::Error>> for PayloadError {
    open spec fn obeys_from_spec() -> bool {
        true
    }

    open spec fn from_spec(err: Option<std::io::Error>) -> PayloadError {
        PayloadError::Incomplete(err)
    }
}

impl From<std::io::Error> for PayloadError {
    /// An incomplete payload ended by the given I/O error (not `Io`).
    fn from(err: std::io::Error) -> (e: PayloadError)
        ensures
            e == PayloadError::Incomplete(Some(err)),
    {
        PayloadError::Incomplete(Some(err))
    }
}

impl vstd::std_specs::convert::FromSpecImpl<std::io::Error> for PayloadError {
    open spec fn obeys_from_spec() -> bool {
        true
    }

    open spec fn from_spec(err: std::io::Error) -> PayloadError {
        PayloadError::Incomplete(Some(err))
    }
}

/// An error of the HTTP/2 dispatcher. `B` is the type of the error that a
/// response body stream fails with; the dispatcher never looks into it.
#[derive(Debug)]
#[non_exhaustive]
pub enum DispatchError<B> {
    /// Service error.
    Service(http_types::Response),
    /// Body streaming error.
    Body(B),
    /// Upgrade service error.
    Upgrade,
    /// An I/O error while reading or writing a network stream.
    Io(std::io::Error),
    /// Request parse error.
    Parse(http_types::url::ParseError),
    /// HTTP/2 error.
    H2(h2::Error),
    /// The first request did not complete within the specified timeout.
    SlowRequestTimeout,
    /// Disconnect timeout. Makes sense for TLS streams.
    DisconnectTimeout,
    /// Handler dropped payload before reading EOF.
    HandlerDroppedPayload,
    /// Internal error.
    InternalError,
}

/// The lower-level error that caused a dispatch error.
#[derive(Debug)]
pub enum DispatchErrorSource<'a, B> {
    Body(&'a B),
    Io(&'a std::io::Error),
    Parse(&'a http_types::url::ParseError),
    H2(&'a h2::Error),
}

impl<B> DispatchError<B> {
    /// The lower-level cause of `self`, as `source` reports it.
    pub open spec fn source_spec(&self) -> Option<DispatchErrorSource<'_, B>> {
        match self {
            DispatchError::Body(err) => Some(DispatchErrorSource::Body(err)),
            DispatchError::Io(err) => Some(DispatchErrorSource::Io(err)),
            DispatchError::Parse(err) => Some(DispatchErrorSource::Parse(err)),
            DispatchError::H2(err) => Some(DispatchErrorSource::H2(err)),
            _ => None,
        }
    }

    /// The lower-level cause of this error: the body, I/O, parse or HTTP/2
    /// error it carries; `None` for a service error and for every kind
    /// without an inner error.
    pub fn source(&self) -> (r: Option<DispatchErrorSource<'_, B>>)
        ensures
            r == self.source_spec(),
            match self {
                DispatchError::Body(err) => r == Some(DispatchErrorSource::Body(err)),
                DispatchError::Io(err) => r == Some(DispatchErrorSource::<B>::Io(err)),
                DispatchError::Parse(err) => r == Some(DispatchErrorSource::<B>::Parse(err)),
                DispatchError::H2(err) => r == Some(DispatchErrorSource::<B>::H2(err)),
                _ => r is None,
            },
    {
        match self {
            DispatchError::Service(_res) => None,
            DispatchError::Body(err) => Some(DispatchErrorSource::Body(err)),
            DispatchError::Io(err) => Some(DispatchErrorSource::Io(err)),
            DispatchError::Parse(err) => Some(DispatchErrorSource::Parse(err)),
            DispatchError::H2(err) => Some(DispatchErrorSource::H2(err)),
            _ => None,
        }
    }
}

impl<B> DispatchError<B> {
    /// The description of the error: a fixed sentence for each kind, which
    /// for body, I/O and parse errors is followed by the text of the inner
    /// error (for a body error, the text `body_text` gives it); the text of
    /// the inner error for the HTTP/2 kind.
    pub fn message<F: Fn(&B) -> String>(&self, body_text: F) -> (m: String)
        requires
            forall|b: &B| #[trigger] body_text.requires((b,)),
        ensures
            match self {
                DispatchError::Service(_) => m@ == "Service Error"@,
                DispatchError::Body(b) => exists|t: String|
                    #[trigger] body_text.ensures((b,), t) && m@ == "Body error: "@ + t@,
                DispatchError::Upgrade => m@ == "Upgrade"@,
                DispatchError::Io(_) => exists|t: Seq<char>| m@ == "IO error: "@ + t,
                DispatchError::Parse(e) => m@ == "Request parse error: "@ + url_parse_error_text(*e),
                DispatchError::H2(_) => true,
                DispatchError::SlowRequestTimeout => m@
                    == "The first request did not complete within the specified timeout"@,
                DispatchError::DisconnectTimeout => m@ == "Connection shutdown timeout"@,
                DispatchError::HandlerDroppedPayload => m@
                    == "Handler dropped payload before reading EOF"@,
                DispatchError::InternalError => m@ == "Internal error"@,
            },
    {
        match self {
            DispatchError::Service(_) => String::from_str("Service Error"),
            DispatchError::Body(err) => {
                let mut m = String::from_str("Body error: ");
                let inner = body_text(err);
                m.append(inner.as_str());
                m
            },
            DispatchError::Upgrade => String::from_str("Upgrade"),
            DispatchError::Io(err) => {
                let mut m = String::from_str("IO error: ");
                let inner = io_error_text(err);
                m.append(inner.as_str());
                m
            },
            DispatchError::Parse(err) => {
                let mut m = String::from_str("Request parse error: ");
                let inner = parse_error_text(err);
                m.append(inner.as_str());
                m
            },
            DispatchError::H2(err) => h2_error_text(err),
            DispatchError::SlowRequestTimeout => String::from_str(
                "The first request did not complete within the specified timeout",
            ),
            DispatchError::DisconnectTimeout => String::from_str("Connection shutdown timeout"),
            DispatchError::HandlerDroppedPayload => String::from_str(
                "Handler dropped payload before reading EOF",
            ),
            DispatchError::InternalError => String::from_str("Internal error"),
        }
    }
}

impl<B> From<http_types::Response> for DispatchError<B> {
    /// A service error carrying the response.
    fn from(res: http_types::Response) -> (e: DispatchError<B>)
        ensures
            e == DispatchError::<B>::Service(res),
    {
        DispatchError::Service(res)
    }
}

impl<B> vstd::std_specs::convert::FromSpecImpl<http_types::Response> for DispatchError<B> {
    open spec fn obeys_from_spec() -> bool {
        true
    }

    open spec fn from_spec(res: http_types::Response) -> DispatchError<B> {
        DispatchError::Service(res)
    }
}

impl<B> From<std::io::Error> for DispatchError<B> {
    /// An I/O error.
    fn from(err: std::io::Error) -> (e: DispatchError<B>)
        ensures
            e == DispatchError::<B>::Io(err),
    {
        DispatchError::Io(err)
    }
}

impl<B> vstd::std_specs::convert::FromSpecImpl<std::io::Error> for DispatchError<B> {
    open spec fn obeys_from_spec() -> bool {
        true
    }

    open spec fn from_spec(err: std::io::Error) -> DispatchError<B> {
        DispatchError::Io(err)
    }
}

impl<B> From<http_types::url::ParseError> for DispatchError<B> {
    /// A request parse error.
    fn from(err: http_types::url::ParseError) -> (e: DispatchError<B>)
        ensures
            e == DispatchError::<B>::Parse(err),
    {
        DispatchError::Parse(err)
    }
}

impl<B> vstd::std_specs::convert::FromSpecImpl<http_types::url::ParseError> for DispatchError<B> {
    open spec fn obeys_from_spec() -> bool {
        true
    }

    open spec fn from_spec(err: http_types::url::ParseError) -> DispatchError<B> {
        DispatchError::Parse(err)
    }
}

impl<B> From<h2::Error> for DispatchError<B> {
    /// An HTTP/2 error.
    fn from(err: h2::Error) -> (e: DispatchError<B>)
        ensures
            e == DispatchError::<B>::H2(err),
    {
        DispatchError::H2(err)
    }
}

impl<B> vstd::std_specs::convert::FromSpecImpl<h2::Error> for DispatchError<B> {
    open spec fn obeys_from_spec() -> bool {
        true
    }

    open spec fn from_spec(err: h2::Error) -> DispatchError<B> {
        DispatchError::H2(err)
    }
}

} // verus!
