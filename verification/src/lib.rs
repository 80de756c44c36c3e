//! Identity-based mutual trust between workloads: identity names, identity
//! documents, trust bundles and the rules that turn them into mutual-TLS policy.

pub mod bundle;
pub mod bytes;
pub mod channel;
pub mod error;
pub mod identity;
pub mod jwt;
pub mod mtls;
pub mod peer;
pub mod roots;
pub mod spiffe_id;
pub mod string_map;
pub mod svid;
pub mod text;
pub mod time;
pub mod tls;
pub mod trust_bundle;
pub mod uri;
pub mod workload;

pub use error::Error;
pub use jwt::{extract_jwt_from_header, Claims, JwtValidator, ValidationError};
pub use mtls::MtlsConfig;
pub use spiffe_id::SpiffeId;
pub use svid::{JwtSvid, X509Svid};
pub use time::Timestamp;
pub use trust_bundle::TrustBundle;
pub use workload::{WorkloadApiConfig, WorkloadCache};
