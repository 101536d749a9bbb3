//! Client configuration: explicit settings, their environment fallbacks, and
//! the per-request middleware derived from them.

use vstd::prelude::*;

use crate::api::endpoint::ov;
use crate::api::features::{fov, Features};
use crate::api::EndpointMiddleware;
use crate::text::dec_str;

verus! {

/// The views of a list of strings.
pub open spec fn svview(s: Seq<String>) -> Seq<Seq<char>> {
    s.map(|i: int, p: String| p@)
}

/// Settings used to configure a client, resolved once at construction time
/// and frozen for the client's lifetime.
#[derive(Debug)]
pub struct ConsulClientSettings {
    /// Base address of the Consul server, e.g. `http://127.0.0.1:8500`.
    pub address: String,
    /// Paths of CA certificates to trust.
    pub ca_certs: Vec<String>,
    /// Path of the TLS client certificate, when one is used.
    pub client_cert: Option<String>,
    /// Path of the TLS client key, when one is used.
    pub client_key: Option<String>,
    /// The ACL token injected into every request, when one is configured.
    pub token: Option<String>,
    /// Whether TLS certificates are verified.
    pub verify: bool,
    /// The API version number, prefixed onto every request path.
    pub version: u8,
}

/// A snapshot of the environment values that back the settings which were
/// not set explicitly. The caller looks these up once and hands them in,
/// which keeps resolution deterministic.
#[derive(Debug, Default)]
pub struct EnvSettings {
    /// `CONSUL_HTTP_ADDR`
    pub http_addr: Option<String>,
    /// `CONSUL_CACERT`
    pub cacert: Option<String>,
    /// The certificate files found under `CONSUL_CAPATH`, when it is set.
    pub capath_entries: Vec<String>,
    /// `CONSUL_CLIENT_CERT`
    pub client_cert: Option<String>,
    /// `CONSUL_CLIENT_KEY`
    pub client_key: Option<String>,
    /// `CONSUL_HTTP_TOKEN`
    pub http_token: Option<String>,
    /// `CONSUL_HTTP_SSL_VERIFY`, unparsed.
    pub ssl_verify: Option<String>,
}

/// The CA certificate paths the environment contributes: the single
/// `CONSUL_CACERT` file, if set, then everything found under `CONSUL_CAPATH`.
pub open spec fn env_ca_certs(env: EnvSettings) -> Seq<Seq<char>> {
    (match env.cacert {
        Some(c) => seq![c@],
        None => Seq::<Seq<char>>::empty(),
    }) + svview(env.capath_entries@)
}

/// How the TLS-verify flag reads: every value but the word `false` leaves
/// verification on, and so does an unset variable.
pub open spec fn env_verify(v: Option<Seq<char>>) -> bool {
    match v {
        Some(s) => !(s == "false"@),
        None => true,
    }
}

/// A builder collecting explicit settings; whatever is left unset falls back
/// to the environment snapshot when the settings are built.
#[derive(Debug, Default)]
pub struct ConsulClientSettingsBuilder {
    pub address: Option<String>,
    pub ca_certs: Option<Vec<String>>,
    pub client_cert: Option<String>,
    pub client_key: Option<String>,
    pub token: Option<String>,
    pub verify: Option<bool>,
    pub version: Option<u8>,
}

impl ConsulClientSettings {
    /// Returns a builder with no setting fixed.
    pub fn builder() -> (b: ConsulClientSettingsBuilder)
        ensures
            b.address is None,
            b.ca_certs is None,
            b.client_cert is None,
            b.client_key is None,
            b.token is None,
            b.verify is None,
            b.version is None,
    {
        ConsulClientSettingsBuilder {
            address: None,
            ca_certs: None,
            client_cert: None,
            client_key: None,
            token: None,
            verify: None,
            version: None,
        }
    }
}

impl ConsulClientSettingsBuilder {
    /// Sets the server address.
    pub fn address(self, address: &str) -> (r: Self)
        ensures
            r.address matches Some(a) && a@ == address@,
            r.ca_certs == self.ca_certs,
            r.client_cert == self.client_cert,
            r.client_key == self.client_key,
            r.token == self.token,
            r.verify == self.verify,
            r.version == self.version,
    {
        ConsulClientSettingsBuilder { address: Some(address.to_owned()), ..self }
    }

    /// Sets the CA certificate paths.
    pub fn ca_certs(self, paths: Vec<String>) -> (r: Self)
        ensures
            r.ca_certs == Some(paths),
            r.address == self.address,
            r.client_cert == self.client_cert,
            r.client_key == self.client_key,
            r.token == self.token,
            r.verify == self.verify,
            r.version == self.version,
    {
        ConsulClientSettingsBuilder { ca_certs: Some(paths), ..self }
    }

    /// Sets the TLS client certificate path.
    pub fn client_cert(self, path: &str) -> (r: Self)
        ensures
            r.client_cert matches Some(p) && p@ == path@,
            r.address == self.address,
            r.ca_certs == self.ca_certs,
            r.client_key == self.client_key,
            r.token == self.token,
            r.verify == self.verify,
            r.version == self.version,
    {
        ConsulClientSettingsBuilder { client_cert: Some(path.to_owned()), ..self }
    }

    /// Sets the TLS client key path.
    pub fn client_key(self, path: &str) -> (r: Self)
        ensures
            r.client_key matches Some(p) && p@ == path@,
            r.address == self.address,
            r.ca_certs == self.ca_certs,
            r.client_cert == self.client_cert,
            r.token == self.token,
            r.verify == self.verify,
            r.version == self.version,
    {
        ConsulClientSettingsBuilder { client_key: Some(path.to_owned()), ..self }
    }

    /// Sets the ACL token.
    pub fn token(self, token: &str) -> (r: Self)
        ensures
            r.token matches Some(t) && t@ == token@,
            r.address == self.address,
            r.ca_certs == self.ca_certs,
            r.client_cert == self.client_cert,
            r.client_key == self.client_key,
            r.verify == self.verify,
            r.version == self.version,
    {
        ConsulClientSettingsBuilder { token: Some(token.to_owned()), ..self }
    }

    /// Sets whether TLS certificates are verified.
    pub fn verify(self, verify: bool) -> (r: Self)
        ensures
            r.verify == Some(verify),
            r.address == self.address,
            r.ca_certs == self.ca_certs,
            r.client_cert == self.client_cert,
            r.client_key == self.client_key,
            r.token == self.token,
            r.version == self.version,
    {
        ConsulClientSettingsBuilder { verify: Some(verify), ..self }
    }

    /// Sets the API version number.
    pub fn version(self, version: u8) -> (r: Self)
        ensures
            r.version == Some(version),
            r.address == self.address,
            r.ca_certs == self.ca_certs,
            r.client_cert == self.client_cert,
            r.client_key == self.client_key,
            r.token == self.token,
            r.verify == self.verify,
    {
        ConsulClientSettingsBuilder { version: Some(version), ..self }
    }

    /// Resolves the settings: every explicitly set value wins; anything else
    /// falls back to the environment snapshot, and failing that to the
    /// documented default (local address, verification on, version 1).
    pub fn build(self, env: EnvSettings) -> (s: ConsulClientSettings)
        ensures
            s.address@ == (match self.address {
                Some(a) => a@,
                None => match env.http_addr {
                    Some(e) => e@,
                    None => "http://127.0.0.1:8500"@,
                },
            }),
            svview(s.ca_certs@) == (match self.ca_certs {
                Some(c) => svview(c@),
                None => env_ca_certs(env),
            }),
            ov(s.client_cert) == (match self.client_cert {
                Some(c) => Some(c@),
                None => ov(env.client_cert),
            }),
            ov(s.client_key) == (match self.client_key {
                Some(k) => Some(k@),
                None => ov(env.client_key),
            }),
            ov(s.token) == (match self.token {
                Some(t) => Some(t@),
                None => ov(env.http_token),
            }),
            s.verify == (match self.verify {
                Some(v) => v,
                None => env_verify(ov(env.ssl_verify)),
            }),
            s.version == (match self.version {
                Some(v) => v,
                None => 1u8,
            }),
    {
        let address = match self.address {
            Some(a) => a,
            None => match env.http_addr {
                Some(e) => e,
                None => String::from_str("http://127.0.0.1:8500"),
            },
        };
        let ca_certs = match self.ca_certs {
            Some(c) => c,
            None => {
                let mut paths: Vec<String> = Vec::new();
                if let Some(c) = env.cacert {
                    paths.push(c);
                }
                let mut entries = env.capath_entries;
                paths.append(&mut entries);
                proof {
                    assert(svview(paths@) =~= env_ca_certs(env));
                }
                paths
            },
        };
        let client_cert = match self.client_cert {
            Some(c) => Some(c),
            None => env.client_cert,
        };
        let client_key = match self.client_key {
            Some(k) => Some(k),
            None => env.client_key,
        };
        let token = match self.token {
            Some(t) => Some(t),
            None => env.http_token,
        };
        let verify = match self.verify {
            Some(v) => v,
            None => match &env.ssl_verify {
                Some(s) => !(*s == String::from_str("false")),
                None => true,
            },
        };
        let version = match self.version {
            Some(v) => v,
            None => 1,
        };
        ConsulClientSettings { address, ca_certs, client_cert, client_key, token, verify, version }
    }
}

/// The middleware a client applies to every request it issues: the version
/// path segment `v{N}`, the configured token, and the features attached to
/// the endpoint being executed.
pub fn middleware_for(settings: &ConsulClientSettings, features: Option<Features>) -> (mw:
    EndpointMiddleware)
    ensures
        mw.version@ == seq!['v'] + dec_str(settings.version as nat),
        ov(mw.token) == ov(settings.token),
        fov(mw.features) == fov(features),
{
    let mut version = String::from_str("v");
    proof {
        reveal_strlit("v");
        assert(version@ =~= seq!['v']);
    }
    version.append(crate::text::u64_to_string(settings.version as u64).as_str());
    let token = match &settings.token {
        Some(t) => Some(t.clone()),
        None => None,
    };
    EndpointMiddleware { features, token, version }
}

} // verus!
