use tls_proxy::config::{Addresses, Config, ConfigError, Options};
use tls_proxy::health::{health_step, health_url, HealthLog, HealthStep};
use tls_proxy::proxy::{backend_down_message, backend_url, plan_request, response_head, ProxyPlan};

#[test]
fn failed_probe_logs_once() {
    let first = health_step(true, false);
    assert_eq!(first, HealthStep { healthy: false, log: Some(HealthLog::Failed) });
    let second = health_step(first.healthy, false);
    assert_eq!(second, HealthStep { healthy: false, log: None });
}

#[test]
fn recovery_logs_once() {
    let first = health_step(false, true);
    assert_eq!(first, HealthStep { healthy: true, log: Some(HealthLog::Recovered) });
    assert_eq!(health_step(true, true), HealthStep { healthy: true, log: None });
}

#[test]
fn health_log_text() {
    assert_eq!(HealthLog::Failed.message(), "health check failed");
    assert_eq!(HealthLog::Recovered.message(), "health check success");
    assert_eq!(health_url("127.0.0.1:8081", "/api/health"), "http://127.0.0.1:8081/api/health");
}

#[test]
fn unhealthy_backend_is_not_contacted() {
    match plan_request(false, "127.0.0.1:8081", Some("/foo?a=1")) {
        ProxyPlan::BackendDown { message } => {
            assert_eq!(message, "Health check failed for 127.0.0.1:8081, service is down")
        }
        other => panic!("unexpected {:?}", other),
    }
    assert_eq!(
        backend_down_message("b:1"),
        "Health check failed for b:1, service is down"
    );
}

#[test]
fn healthy_backend_gets_the_path_verbatim() {
    assert_eq!(
        plan_request(true, "127.0.0.1:8081", Some("/foo%20x?bar=1&apiKey=z")),
        ProxyPlan::Forward { url: "http://127.0.0.1:8081/foo%20x?bar=1&apiKey=z".to_string() }
    );
    assert_eq!(backend_url("b:1", None), "http://b:1/");
}

fn headers() -> Vec<(String, Vec<u8>)> {
    vec![
        ("content-type".to_string(), b"text/html".to_vec()),
        ("set-cookie".to_string(), b"a=1".to_vec()),
        ("set-cookie".to_string(), vec![0xff, 0x01]),
    ]
}

#[test]
fn response_head_copies_backend() {
    let h = response_head(418, headers(), false);
    assert_eq!(h.status, 418);
    assert_eq!(h.headers, headers());
}

#[test]
fn response_head_adds_csp_when_asked() {
    let h = response_head(200, headers(), true);
    assert_eq!(h.status, 200);
    let mut expected = headers();
    expected.push((
        "Content-Security-Policy".to_string(),
        b"upgrade-insecure-requests".to_vec(),
    ));
    assert_eq!(h.headers, expected);
}

fn config(ssl: bool, cert: Option<&str>, key: Option<&str>, ws: Option<&str>) -> Config {
    Config {
        addresses: Addresses {
            backend: "127.0.0.1:8081".to_string(),
            proxy: "0.0.0.0:8443".to_string(),
            proxy_http: Some("0.0.0.0:8080".to_string()),
            websocket_path: ws.map(|s| s.to_string()),
            ssl_cert: cert.map(|s| s.to_string()),
            ssl_key: key.map(|s| s.to_string()),
            health_check: Some("/health".to_string()),
        },
        options: Options { http_support: false, ssl },
    }
}

#[test]
fn ssl_needs_cert_and_key() {
    assert_eq!(config(false, None, None, None).ssl_files(), Ok(None));
    assert_eq!(
        config(true, Some("c.pem"), Some("k.pem"), None).ssl_files(),
        Ok(Some(("c.pem".to_string(), "k.pem".to_string())))
    );
    assert_eq!(config(true, Some("c.pem"), None, None).ssl_files(), Err(ConfigError::SslMissing));
    assert_eq!(config(true, None, Some("k.pem"), None).ssl_files(), Err(ConfigError::SslMissing));
}

#[test]
fn derived_urls_and_routes() {
    let c = config(false, None, None, Some("/ws"));
    assert_eq!(c.websocket_destination(), Some("ws://127.0.0.1:8081/ws".to_string()));
    assert_eq!(c.health_url(), Some("http://127.0.0.1:8081/health".to_string()));
    assert!(c.serves_root());
    assert!(!config(false, None, None, Some("/")).serves_root());
    assert_eq!(config(false, None, None, None).websocket_destination(), None);
}
