//! Service configuration, as loaded from the service's configuration file.
use crate::auth::{AuthConfig, ConfigView};
use crate::claims::opt_text;
use vstd::prelude::*;

verus! {

/// Where telemetry is exported to.
pub struct OtelConfig {
    pub url: String,
    pub token: String,
}

/// The authentication section of the configuration file.
pub struct AuthConfigYaml {
    /// The provider's issuer URL.
    pub issuer: String,
    /// Where the provider publishes its key set.
    pub jwks_uri: String,
    /// The audience (client ID) tokens must name, if any.
    pub audience: Option<String>,
    /// Default scopes offered by the API documentation pages.
    pub scopes: Option<Vec<String>>,
    /// Client ID offered by the API documentation pages.
    pub client_id: Option<String>,
    /// Client secret, best kept in a private configuration file.
    pub client_secret: Option<String>,
}

/// The configuration of one service.
pub struct Config {
    pub service_name: String,
    pub service_desc: Option<String>,
    pub host: Option<String>,
    pub log_level: Option<String>,
    pub port_offset: Option<u16>,
    pub database_url: Option<String>,
    pub database_name: Option<String>,
    pub database_drop: Option<bool>,
    pub auth: Option<AuthConfigYaml>,
    pub otel: Option<OtelConfig>,
}

/// The provider settings that an authentication section describes.
pub open spec fn auth_config_of(a: AuthConfigYaml) -> ConfigView {
    ConfigView {
        jwks_uri: a.jwks_uri@,
        issuer: a.issuer@,
        audience: opt_text(a.audience),
        client_secret: opt_text(a.client_secret),
        leeway: 0,
    }
}

impl Config {
    /// The provider settings of the authentication section, if there is one.
    pub fn create_auth_config(&self) -> (r: Option<AuthConfig>)
        ensures
            r is None <==> self.auth is None,
            r matches Some(c) ==> c@ == auth_config_of(self.auth->0),
    {
        let a = match &self.auth {
            Some(a) => a,
            None => return None,
        };
        let mut auth = AuthConfig::oidc(a.issuer.clone(), a.jwks_uri.clone());
        if let Some(audience) = &a.audience {
            auth = auth.with_audience(audience.clone());
        }
        if let Some(client_secret) = &a.client_secret {
            auth = auth.with_client_secret(client_secret.clone());
        }
        Some(auth)
    }
}

} // verus!
