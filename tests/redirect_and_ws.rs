use tls_proxy::config::Addresses;
use tls_proxy::redirect::{make_https, redirect_ports, redirect_target, replace_text, RedirectError, RedirectPorts};
use tls_proxy::websocket::{
    backend_ws_url, into_amessage, into_tmessage, msg_ty, refused_connection_messages, BackendMessage,
    ClientMessage, CloseFrame, PrintableMessage, QueryString,
};

fn ports(http: &str, https: &str) -> RedirectPorts {
    RedirectPorts { http: http.to_string(), https: https.to_string() }
}

#[test]
fn redirect_rewrites_port() {
    assert_eq!(
        make_https("example.com:8080", Some("/foo?bar=1"), &ports("8080", "8443")),
        Ok("https://example.com:8443/foo?bar=1".to_string())
    );
}

#[test]
fn redirect_defaults_path() {
    assert_eq!(
        make_https("example.com", None, &ports("80", "443")),
        Ok("https://example.com/".to_string())
    );
    assert_eq!(redirect_target("h:1", Some("/a")), "https://h:1/a");
}

#[test]
fn redirect_invalid_authority() {
    match make_https("bad host:8080", Some("/"), &ports("8080", "8443")) {
        Err(RedirectError::InvalidUri(_)) => {}
        other => panic!("unexpected {:?}", other),
    }
}

#[test]
fn replace_is_naive() {
    assert_eq!(replace_text("80.example.com:80", "80", "443"), "443.example.com:443");
    assert_eq!(replace_text("aaa", "aa", "b"), "ba");
    assert_eq!(replace_text("", "a", "b"), "");
}

fn addresses(proxy: &str, proxy_http: Option<&str>) -> Addresses {
    Addresses {
        backend: "127.0.0.1:8081".to_string(),
        proxy: proxy.to_string(),
        proxy_http: proxy_http.map(|s| s.to_string()),
        websocket_path: None,
        ssl_cert: None,
        ssl_key: None,
        health_check: None,
    }
}

#[test]
fn redirect_ports_from_config() {
    assert_eq!(
        redirect_ports(&addresses("0.0.0.0:8443", Some("0.0.0.0:8080"))),
        Ok(ports("8080", "8443"))
    );
    assert_eq!(redirect_ports(&addresses("example.com", Some("example.com"))), Ok(ports("80", "443")));
    assert_eq!(redirect_ports(&addresses("x", None)), Err(RedirectError::MissingProxyHttp));
    assert_eq!(
        RedirectError::MissingProxyHttp.message(),
        "address proxy_http config section needs to be configured"
    );
}

#[test]
fn text_crosses_unchanged() {
    let t = into_tmessage(ClientMessage::Text("hello".to_string()));
    assert_eq!(t, BackendMessage::Text("hello".to_string()));
    assert_eq!(into_amessage(t), Some(ClientMessage::Text("hello".to_string())));
}

#[test]
fn close_code_and_reason_carried() {
    let f = CloseFrame { code: 4001, reason: "bye".to_string() };
    assert_eq!(into_tmessage(ClientMessage::Close(Some(f.clone()))), BackendMessage::Close(Some(f.clone())));
    assert_eq!(into_amessage(BackendMessage::Close(Some(f.clone()))), Some(ClientMessage::Close(Some(f))));
    assert_eq!(into_amessage(BackendMessage::Binary(vec![1, 2])), Some(ClientMessage::Binary(vec![1, 2])));
    assert_eq!(into_tmessage(ClientMessage::Ping(vec![9])), BackendMessage::Ping(vec![9]));
}

#[test]
fn raw_frames_are_dropped() {
    assert_eq!(into_amessage(BackendMessage::Frame), None);
    assert_eq!(msg_ty(&BackendMessage::Frame), PrintableMessage::Frame);
    assert_eq!(msg_ty(&BackendMessage::Pong(vec![])).name(), "Pong");
}

#[test]
fn refused_backend_gets_one_close() {
    let m = refused_connection_messages();
    assert_eq!(
        m,
        vec![ClientMessage::Close(Some(CloseFrame {
            code: 1014,
            reason: "Failed to open connection to destination server".to_string()
        }))]
    );
}

#[test]
fn backend_url_keeps_query_order() {
    let q = QueryString::parse("a=1&b=2&a=3");
    assert_eq!(q.items().len(), 3);
    assert_eq!(
        backend_ws_url("ws://127.0.0.1:8081/ws", &q),
        Some("ws://127.0.0.1:8081/ws?a=1&b=2&a=3".to_string())
    );
    assert_eq!(backend_ws_url("not a url", &q), None);
}
