//! Building blocks for small HTTP services: port conventions, service
//! configuration, and bearer-token authentication against an OpenID-Connect
//! identity provider whose signing keys are published as a JSON Web Key Set.
//!
//! A request is authenticated by [`gate::authenticate`]: it takes the
//! `Authorization` header, the provider configuration and the cached key
//! set, and either decides the request or asks for one refresh of the key
//! set, after which [`gate::resume`] decides it.
pub mod auth;
pub mod claims;
pub mod config;
pub mod contracts;
pub mod crypto;
pub mod entity;
pub mod error;
pub mod gate;
pub mod keys;
pub mod laws;
pub mod service;
pub mod token;
pub mod wire;

pub use auth::{AuthConfig, AuthenticatedUser};
pub use claims::JwtClaims;
pub use config::{AuthConfigYaml, Config, OtelConfig};
pub use contracts::UserCreatedEvent;
pub use entity::{CreationTracking, FromApiRequest, FromEventContract};
pub use error::{AuthError, ClaimKind};
pub use gate::{authenticate, resume, GateStep, PendingToken};
pub use keys::{Jwk, KeyMaterial, KeySet};
pub use service::ServicePort;
