use summer_boot::http2::error::{DispatchError, DispatchErrorSource, PayloadError, PayloadErrorSource};

fn io_error(text: &str) -> std::io::Error {
    std::io::Error::new(std::io::ErrorKind::Other, text.to_string())
}

#[test]
fn payload_error_sources() {
    assert!(PayloadError::Incomplete(None).source().is_none());
    assert!(PayloadError::EncodingCorrupted.source().is_none());
    assert!(PayloadError::Overflow.source().is_none());
    assert!(PayloadError::UnknownLength.source().is_none());

    let e = PayloadError::Incomplete(Some(io_error("cut short")));
    match e.source() {
        Some(PayloadErrorSource::Io(inner)) => assert_eq!(inner.to_string(), "cut short"),
        _ => panic!("incomplete payload with an I/O error has it as source"),
    }
    let e = PayloadError::Io(io_error("broken"));
    match e.source() {
        Some(PayloadErrorSource::Io(inner)) => assert_eq!(inner.to_string(), "broken"),
        _ => panic!("I/O payload error has its error as source"),
    }
    let e = PayloadError::Http2Payload(h2::Error::from(h2::Reason::CANCEL));
    match e.source() {
        Some(PayloadErrorSource::H2(inner)) => assert_eq!(inner.reason(), Some(h2::Reason::CANCEL)),
        _ => panic!("HTTP/2 payload error has its error as source"),
    }
}

#[test]
fn payload_error_from() {
    match PayloadError::from(h2::Error::from(h2::Reason::REFUSED_STREAM)) {
        PayloadError::Http2Payload(e) => assert_eq!(e.reason(), Some(h2::Reason::REFUSED_STREAM)),
        _ => panic!("an h2 error becomes an HTTP/2 payload error"),
    }
    match PayloadError::from(io_error("eof")) {
        PayloadError::Incomplete(Some(e)) => assert_eq!(e.to_string(), "eof"),
        _ => panic!("an I/O error becomes an incomplete payload"),
    }
    match PayloadError::from(None::<std::io::Error>) {
        PayloadError::Incomplete(None) => {}
        _ => panic!("no error becomes an incomplete payload without cause"),
    }
}

#[test]
fn dispatch_error_sources() {
    let service: DispatchError<String> =
        DispatchError::Service(http_types::Response::new(http_types::StatusCode::Ok));
    assert!(service.source().is_none());
    for e in [
        DispatchError::<String>::Upgrade,
        DispatchError::SlowRequestTimeout,
        DispatchError::DisconnectTimeout,
        DispatchError::HandlerDroppedPayload,
        DispatchError::InternalError,
    ] {
        assert!(e.source().is_none());
    }
    let body: DispatchError<String> = DispatchError::Body("stream broke".to_string());
    match body.source() {
        Some(DispatchErrorSource::Body(b)) => assert_eq!(b, "stream broke"),
        _ => panic!("body error is its own source"),
    }
    let io: DispatchError<String> = DispatchError::Io(io_error("reset"));
    assert!(matches!(io.source(), Some(DispatchErrorSource::Io(_))));
    let parse: DispatchError<String> =
        DispatchError::Parse(http_types::url::ParseError::EmptyHost);
    match parse.source() {
        Some(DispatchErrorSource::Parse(p)) => assert_eq!(*p, http_types::url::ParseError::EmptyHost),
        _ => panic!("parse error is its source"),
    }
    let h2e: DispatchError<String> = DispatchError::H2(h2::Error::from(h2::Reason::PROTOCOL_ERROR));
    assert!(matches!(h2e.source(), Some(DispatchErrorSource::H2(_))));
}

#[test]
fn dispatch_error_from() {
    let e: DispatchError<String> = DispatchError::from(io_error("x"));
    assert!(matches!(e, DispatchError::Io(_)));
    let e: DispatchError<String> = DispatchError::from(h2::Error::from(h2::Reason::CANCEL));
    assert!(matches!(e, DispatchError::H2(_)));
    let e: DispatchError<String> = DispatchError::from(http_types::url::ParseError::InvalidPort);
    assert!(matches!(e, DispatchError::Parse(http_types::url::ParseError::InvalidPort)));
    let e: DispatchError<String> =
        DispatchError::from(http_types::Response::new(http_types::StatusCode::NotFound));
    match e {
        DispatchError::Service(r) => assert_eq!(r.status(), http_types::StatusCode::NotFound),
        _ => panic!("a response becomes a service error"),
    }
}

#[test]
fn payload_error_messages() {
    assert_eq!(PayloadError::EncodingCorrupted.message(), "Can not decode content-encoding.");
    assert_eq!(PayloadError::Overflow.message(), "Payload reached size limit.");
    assert_eq!(PayloadError::UnknownLength.message(), "Payload length is unknown.");
    assert_eq!(
        PayloadError::Incomplete(None).message(),
        "A payload reached EOF, but is not complete. Inner error: None"
    );
    let io = io_error("gone");
    let expected = format!("{}", io);
    assert_eq!(PayloadError::Io(io).message(), expected);
    let h2e = h2::Error::from(h2::Reason::CANCEL);
    let expected = format!("{}", h2e);
    assert_eq!(PayloadError::Http2Payload(h2e).message(), expected);
}

#[test]
fn dispatch_error_messages() {
    let text = |b: &String| b.clone();
    assert_eq!(
        DispatchError::<String>::Service(http_types::Response::new(http_types::StatusCode::Ok))
            .message(text),
        "Service Error"
    );
    assert_eq!(DispatchError::Body("bad chunk".to_string()).message(text), "Body error: bad chunk");
    assert_eq!(DispatchError::<String>::Upgrade.message(text), "Upgrade");
    assert_eq!(
        DispatchError::<String>::Io(io_error("reset")).message(text),
        "IO error: reset"
    );
    assert_eq!(
        DispatchError::<String>::Parse(http_types::url::ParseError::EmptyHost).message(text),
        "Request parse error: empty host"
    );
    assert_eq!(
        DispatchError::<String>::SlowRequestTimeout.message(text),
        "The first request did not complete within the specified timeout"
    );
    assert_eq!(
        DispatchError::<String>::DisconnectTimeout.message(text),
        "Connection shutdown timeout"
    );
    assert_eq!(
        DispatchError::<String>::HandlerDroppedPayload.message(text),
        "Handler dropped payload before reading EOF"
    );
    assert_eq!(DispatchError::<String>::InternalError.message(text), "Internal error");
    let h2e = h2::Error::from(h2::Reason::PROTOCOL_ERROR);
    let expected = format!("{}", h2e);
    assert_eq!(DispatchError::<String>::H2(h2e).message(text), expected);
}

#[test]
fn parse_error_messages() {
    let text = |b: &String| b.clone();
    let cases = [
        (http_types::url::ParseError::InvalidPort, "invalid port number"),
        (http_types::url::ParseError::RelativeUrlWithoutBase, "relative URL without a base"),
        (
            http_types::url::ParseError::SetHostOnCannotBeABaseUrl,
            "a cannot-be-a-base URL doesn’t have a host to set",
        ),
        (http_types::url::ParseError::Overflow, "URLs more than 4 GB are not supported"),
    ];
    for (err, expected) in cases {
        assert_eq!(
            DispatchError::<String>::Parse(err).message(text),
            format!("Request parse error: {}", expected)
        );
    }
}
