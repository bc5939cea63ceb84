//! A declarative description of a small public-key infrastructure (key pairs,
//! identities, certificates and signing requests), with a verified validator
//! for its reference graph, a resolver for certificate-policy identifiers and
//! an elaborator for certificate extensions.

pub mod elaborate;
pub mod laws;
pub mod model;
pub mod policy;
pub mod validate;

pub use elaborate::{ElaboratedExtension, ElaborationError};
pub use model::{
    AuthorityKeyIdentifierExtension, BasicConstraintsExtension, Certificate,
    CertificatePoliciesExtension, CertificatePolicy, CertificateRequest, DigestAlgorithm, Document,
    Entity, EntityNameComponent, ExtendedKeyUsageExtension, KeyPair, KeyType, KeyUsageExtension,
    RsaKeyConfig, SubjectKeyIdentifierExtension, X509Extensions,
};
pub use policy::{oid_text_in_bounds, OidFormatError, PolicyEntryError};
pub use validate::{validate, NameKind, ReferenceField, ValidationError};
