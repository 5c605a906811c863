//! The proxy's configuration, and what the handlers derive from it.
use vstd::prelude::*;

verus! {

/// The whole configuration, fixed once loaded.
#[derive(Debug, Clone)]
pub struct Config {
    pub addresses: Addresses,
    pub options: Options,
}

/// Where the proxy listens and what it serves.
#[derive(Debug, Clone)]
pub struct Addresses {
    /// Backend host and port, e.g. `127.0.0.1:8081`.
    pub backend: String,
    /// Address the proxy listens on, e.g. `127.0.0.1:443`.
    pub proxy: String,
    /// Plain-HTTP address whose only job is redirecting to HTTPS.
    pub proxy_http: Option<String>,
    /// Path whose requests are relayed as WebSocket connections, e.g. `/ws`.
    pub websocket_path: Option<String>,
    /// PEM certificate file.
    pub ssl_cert: Option<String>,
    /// PEM private key file.
    pub ssl_key: Option<String>,
    /// Path of the backend's health endpoint, e.g. `/api/health`.
    pub health_check: Option<String>,
}

/// Switches of the proxy.
#[derive(Debug, Clone, Copy, PartialEq, Eq, Default)]
pub struct Options {
    /// Adds `Content-Security-Policy: upgrade-insecure-requests` to every
    /// proxied response, for services with legacy plain-HTTP links.
    pub http_support: bool,
    /// Serve TLS on the proxy address.
    pub ssl: bool,
}

/// A configuration the proxy cannot start with.
#[derive(Debug, Clone, Copy, PartialEq, Eq)]
pub enum ConfigError {
    /// TLS is on, but the certificate or the key is not configured.
    SslMissing,
}

impl ConfigError {
    pub fn message(&self) -> (r: String)
        ensures
            r@ == "ssl cert or key was not configured"@,
    {
        String::from_str("ssl cert or key was not configured")
    }
}

impl Config {
    /// The certificate and key files to serve TLS with: none when TLS is off,
    /// both when it is on and both are set, an error when it is on and
    /// either is missing.
    pub fn ssl_files(&self) -> (r: Result<Option<(String, String)>, ConfigError>)
        ensures
            !self.options.ssl ==> r == Ok::<Option<(String, String)>, ConfigError>(None),
            self.options.ssl ==> match (self.addresses.ssl_cert, self.addresses.ssl_key) {
                (Some(c), Some(k)) => r == Ok::<Option<(String, String)>, ConfigError>(
                    Some((c, k)),
                ),
                _ => r == Err::<Option<(String, String)>, ConfigError>(ConfigError::SslMissing),
            },
    {
        if !self.options.ssl {
            return Ok(None);
        }
        match (&self.addresses.ssl_cert, &self.addresses.ssl_key) {
            (Some(c), Some(k)) => Ok(Some((c.clone(), k.clone()))),
            _ => Err(ConfigError::SslMissing),
        }
    }

    /// The backend WebSocket URL, `ws://{backend}{websocket_path}`, when a
    /// WebSocket path is configured.
    pub fn websocket_destination(&self) -> (r: Option<String>)
        ensures
            match self.addresses.websocket_path {
                Some(p) => r is Some && r.unwrap()@ == "ws://"@ + self.addresses.backend@ + p@,
                None => r is None,
            },
    {
        match &self.addresses.websocket_path {
            Some(p) => {
                let mut r = String::from_str("ws://");
                r.append(self.addresses.backend.as_str());
                r.append(p.as_str());
                Some(r)
            },
            None => None,
        }
    }

    /// The backend health URL, `http://{backend}{health_check}`, when a
    /// health path is configured.
    pub fn health_url(&self) -> (r: Option<String>)
        ensures
            match self.addresses.health_check {
                Some(p) => r is Some && r.unwrap()@ == "http://"@ + self.addresses.backend@ + p@,
                None => r is None,
            },
    {
        match &self.addresses.health_check {
            Some(p) => Some(crate::health::health_url(self.addresses.backend.as_str(), p.as_str())),
            None => None,
        }
    }

    /// Whether the catch-all handler also owns `/`: it does unless the
    /// WebSocket path is `/`, which then takes that route.
    pub fn serves_root(&self) -> (r: bool)
        ensures
            r == !(self.addresses.websocket_path is Some && self.addresses.websocket_path.unwrap()@
                == "/"@),
    {
        match &self.addresses.websocket_path {
            Some(p) => {
                let root = String::from_str("/");
                !(*p == root)
            },
            None => true,
        }
    }
}

} // verus!
