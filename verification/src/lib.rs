//! HTTP/2 service configuration, error types, and the decision logic of the
//! HTTP/2 payload, handshake and keep-alive machinery, together with the
//! listener lifecycle of the TCP and Unix-socket front ends.
pub mod http2;
pub mod tcp;
pub mod time;
