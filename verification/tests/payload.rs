use summer_boot::http2::error::PayloadError;
use summer_boot::http2::{chunk_item, Payload, PayloadStep};

fn runtime() -> tokio::runtime::Runtime {
    tokio::runtime::Builder::new_current_thread().enable_all().build().unwrap()
}

/// Opens an HTTP/2 connection over an in-memory pipe, sends a request whose
/// body is `body`, and returns the body stream the server received.
async fn received_body(body: &'static [u8]) -> h2::RecvStream {
    let (client_io, server_io) = tokio::io::duplex(1 << 16);
    let server = tokio::spawn(async move { h2::server::handshake(server_io).await });
    let (mut client, conn) = h2::client::handshake(client_io).await.unwrap();
    tokio::spawn(async move {
        let _ = conn.await;
    });
    let mut server_conn = server.await.unwrap().unwrap();
    let request = http::Request::post("http://localhost/").body(()).unwrap();
    let (_response, mut send) = client.send_request(request, false).unwrap();
    send.send_data(bytes::Bytes::from_static(body), true).unwrap();
    let (req, _respond) = server_conn.accept().await.unwrap().unwrap();
    tokio::spawn(async move {
        while let Some(_) = server_conn.accept().await {}
    });
    let _keep = client;
    req.into_body()
}

#[test]
fn payload_yields_received_chunk() {
    runtime().block_on(async {
        let stream = received_body(b"hello payload").await;
        let mut payload = Payload::new(stream);
        let polled = std::future::poll_fn(|cx| payload.stream_mut().poll_data(cx)).await;
        match Payload::on_data(polled) {
            PayloadStep::Release { chunk, size } => {
                assert_eq!(size, 13);
                let released = payload.release_capacity(size);
                assert!(released.is_ok());
                match chunk_item(chunk, released) {
                    Some(Ok(chunk)) => assert_eq!(&chunk[..], b"hello payload"),
                    _ => panic!("a received chunk is yielded once its capacity is released"),
                }
            }
            _ => panic!("a data chunk releases its length first"),
        }
        let end = std::future::poll_fn(|cx| payload.stream_mut().poll_data(cx)).await;
        assert!(end.is_none());
        assert!(matches!(Payload::on_data(end), PayloadStep::Yield(None)));
    });
}

#[test]
fn payload_stream_error_becomes_payload_error() {
    let err = h2::Error::from(h2::Reason::STREAM_CLOSED);
    match Payload::on_data(Some(Err(err))) {
        PayloadStep::Yield(Some(Err(PayloadError::Http2Payload(e)))) => {
            assert_eq!(e.reason(), Some(h2::Reason::STREAM_CLOSED))
        }
        _ => panic!("a stream error is an HTTP/2 payload error"),
    }
    assert!(matches!(Payload::on_data(None), PayloadStep::Yield(None)));
}

#[test]
fn payload_release_beyond_received_fails() {
    runtime().block_on(async {
        let stream = received_body(b"abc").await;
        let mut payload = Payload::new(stream);
        // A chunk larger than anything received: releasing its length fails.
        let forged = bytes::Bytes::from(vec![0u8; 1 << 20]);
        match Payload::on_data(Some(Ok(forged))) {
            PayloadStep::Release { chunk, size } => {
                assert_eq!(size, 1 << 20);
                let released = payload.release_capacity(size);
                assert!(matches!(
                    chunk_item(chunk, released),
                    Some(Err(PayloadError::Http2Payload(_)))
                ));
            }
            _ => panic!("a data chunk releases its length first"),
        }
        // Beyond the largest window size the release fails whatever was received.
        assert!(payload.release_capacity(usize::MAX).is_err());
    });
}

#[test]
fn chunk_item_outcomes() {
    let chunk = bytes::Bytes::from_static(b"data");
    match chunk_item(chunk.clone(), Ok(())) {
        Some(Ok(c)) => assert_eq!(c, chunk),
        _ => panic!("a released chunk is yielded"),
    }
    match chunk_item(chunk, Err(h2::Error::from(h2::Reason::FLOW_CONTROL_ERROR))) {
        Some(Err(PayloadError::Http2Payload(e))) => {
            assert_eq!(e.reason(), Some(h2::Reason::FLOW_CONTROL_ERROR))
        }
        _ => panic!("a failed release is an HTTP/2 payload error"),
    }
}
