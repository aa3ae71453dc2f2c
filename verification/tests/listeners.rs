use summer_boot::tcp::tcp_listener::{tcp_listener_text, TcpListener};
use summer_boot::tcp::unix::{unix_listener_text, unix_socket_addr_text, UnixListener};
use summer_boot::tcp::{
    accept_action, http_url, http_urls, unix_url, AcceptAction, ConnectionMode, Incoming,
    ListenInfo,
};
use summer_boot::time::Duration;

const NOT_LISTENING: &str = "没有监听，请检查是否成功调用了 `Listener::bind`?";

#[test]
fn urls() {
    assert_eq!(http_url("127.0.0.1:8080"), "http://127.0.0.1:8080");
    assert_eq!(unix_url("/tmp/app.sock"), "http+unix:///tmp/app.sock");
    assert_eq!(http_urls(&vec![]), "");
    assert_eq!(http_urls(&vec!["a:1".to_string()]), "http://a:1");
    assert_eq!(
        http_urls(&vec!["a:1".to_string(), "[::1]:2".to_string(), "c:3".to_string()]),
        "http://a:1, http://[::1]:2, http://c:3"
    );
}

#[test]
fn tcp_listener_text_cases() {
    let addrs = vec!["0.0.0.0:80".to_string(), "0.0.0.0:81".to_string()];
    assert_eq!(tcp_listener_text(Some("127.0.0.1:9"), Some(&addrs)), "http://127.0.0.1:9");
    assert_eq!(
        tcp_listener_text(None, Some(&addrs)),
        "http://0.0.0.0:80, http://0.0.0.0:81"
    );
    assert_eq!(tcp_listener_text(None, None), NOT_LISTENING);
}

#[test]
fn unix_listener_text_cases() {
    assert_eq!(unix_listener_text(Some("/run/a.sock"), Some("b.sock")), "http+unix:///run/a.sock");
    assert_eq!(unix_listener_text(None, Some("b.sock")), "http+unix://b.sock");
    assert_eq!(unix_listener_text(None, None), NOT_LISTENING);
    assert_eq!(unix_socket_addr_text(Some("/s")), Some("http+unix:///s".to_string()));
    assert_eq!(unix_socket_addr_text(None), None);
}

#[test]
fn accept_actions() {
    match accept_action(ConnectionMode::H1Only, Incoming::Stream(5u8)) {
        AcceptAction::ServeH1(s) => assert_eq!(s, 5),
        _ => panic!("a connection is served"),
    }
    assert!(matches!(
        accept_action::<u8>(ConnectionMode::H1Only, Incoming::TransientError),
        AcceptAction::Skip
    ));
    match accept_action::<u8>(ConnectionMode::H1Only, Incoming::Error) {
        AcceptAction::Backoff(d) => assert_eq!(d, Duration::from_millis(500)),
        _ => panic!("other errors pause the accept loop"),
    }
}

#[test]
fn listen_info_parts() {
    let info = ListenInfo::new("http://x".to_string(), "tcp".to_string(), false, ConnectionMode::H2Only);
    assert_eq!(info.connection(), "http://x");
    assert_eq!(info.transport(), "tcp");
    assert!(!info.is_encrypted());
    assert_eq!(info.conn_model(), ConnectionMode::H2Only);
    let copy = info.clone();
    assert_eq!(copy.connection(), "http://x");
}

#[test]
fn tcp_listener_lifecycle_from_addrs() {
    let mut l: TcpListener<&str, &str, u16> = TcpListener::from_addrs(vec!["a:1", "b:2"]);
    assert!(l.info().is_empty());
    assert!(!l.has_server());
    assert!(l.listener().is_none());
    let to_bind = l.start_bind("server", "http://a:1, http://b:2".to_string());
    assert_eq!(to_bind, Some(vec!["a:1", "b:2"]));
    assert!(l.has_server());
    assert!(l.addrs().is_none());
    l.set_listener(7);
    let infos = l.info();
    assert_eq!(infos.len(), 1);
    assert_eq!(infos[0].connection(), "http://a:1, http://b:2");
    assert_eq!(infos[0].transport(), "tcp");
    assert!(!infos[0].is_encrypted());
    assert_eq!(infos[0].conn_model(), ConnectionMode::H1Only);
    let (server, listener, info) = l.start_accept();
    assert_eq!(server, "server");
    assert_eq!(listener, 7);
    assert_eq!(info.transport(), "tcp");
    assert!(!l.has_server());
    assert!(l.listener().is_none());
    assert!(l.info().is_empty());
}

#[test]
fn tcp_listener_lifecycle_from_listener() {
    let mut l: TcpListener<&str, &str, u16> = TcpListener::from_listener(3);
    assert!(l.addrs().is_none());
    assert_eq!(l.listener(), Some(&3));
    let to_bind = l.start_bind("s", "http://x:3".to_string());
    assert_eq!(to_bind, None);
    let (_, listener, info) = l.start_accept();
    assert_eq!(listener, 3);
    assert_eq!(info.connection(), "http://x:3");
}

#[test]
fn unix_listener_lifecycle() {
    let mut l: UnixListener<&str, &str, u16> = UnixListener::from_path("/tmp/s");
    assert_eq!(l.path(), Some(&"/tmp/s"));
    let to_bind = l.start_bind("server");
    assert_eq!(to_bind, Some("/tmp/s"));
    assert!(l.path().is_none());
    assert!(l.info().is_empty());
    l.set_listener(9);
    l.finish_bind("http+unix:///tmp/s".to_string());
    let infos = l.info();
    assert_eq!(infos.len(), 1);
    assert_eq!(infos[0].transport(), "uds");
    assert_eq!(infos[0].conn_model(), ConnectionMode::H1Only);
    let (server, listener, info) = l.start_accept();
    assert_eq!((server, listener), ("server", 9));
    assert_eq!(info.connection(), "http+unix:///tmp/s");
    assert!(!l.has_server());

    let mut l: UnixListener<&str, &str, u16> = UnixListener::from_listener(4);
    assert_eq!(l.start_bind("s"), None);
    assert_eq!(l.listener(), Some(&4));
}
