//! The typed records of a PKI description, as a decoder produces them.

use vstd::prelude::*;

verus! {

/// A whole description: every key pair, identity, certificate and request.
#[derive(Debug, Clone, PartialEq, Eq)]
pub struct Document {
    pub key_pairs: Vec<KeyPair>,
    pub entities: Vec<Entity>,
    pub certificates: Vec<Certificate>,
    pub certificate_requests: Vec<CertificateRequest>,
}

/// A named key pair. A well-formed one declares exactly one key type; the
/// list form keeps malformed declarations representable so that validation
/// can report them.
#[derive(Debug, Clone, PartialEq, Eq)]
pub struct KeyPair {
    pub name: String,
    pub key_type: Vec<KeyType>,
}

#[derive(Debug, Clone, PartialEq, Eq)]
pub enum KeyType {
    Rsa(RsaKeyConfig),
    P384,
    Ed25519,
}

#[derive(Debug, Clone, PartialEq, Eq)]
pub struct RsaKeyConfig {
    pub num_bits: usize,
    pub public_exponent: usize,
}

/// Bit length of an RSA key when the description gives none.
pub const DEFAULT_RSA_BITS: usize = 2048;

/// Public exponent of an RSA key when the description gives none.
pub const DEFAULT_RSA_EXPONENT: usize = 65537;

impl RsaKeyConfig {
    /// The RSA parameters used when none are written out.
    pub fn with_defaults() -> (r: RsaKeyConfig)
        ensures
            r.num_bits == DEFAULT_RSA_BITS,
            r.public_exponent == DEFAULT_RSA_EXPONENT,
    {
        RsaKeyConfig { num_bits: DEFAULT_RSA_BITS, public_exponent: DEFAULT_RSA_EXPONENT }
    }
}

/// A named identity: a common name and the rest of its distinguished name.
#[derive(Debug, Clone, PartialEq, Eq)]
pub struct Entity {
    pub name: String,
    pub common_name: String,
    pub base_dn: Vec<EntityNameComponent>,
}

#[derive(Debug, Clone, PartialEq, Eq)]
pub enum EntityNameComponent {
    CountryName(String),
    StateOrProvinceName(String),
    LocalityName(String),
    OrganizationName(String),
    OrganizationalUnitName(String),
}

/// A certificate to be issued. Its issuer is named either as an entity or as
/// another certificate whose subject becomes the issuer.
#[derive(Debug, Clone, PartialEq, Eq)]
pub struct Certificate {
    pub name: String,
    pub subject_entity: String,
    pub subject_key: String,
    pub issuer_entity: Option<String>,
    pub issuer_certificate: Option<String>,
    pub issuer_key: String,
    pub digest_algorithm: Option<DigestAlgorithm>,
    pub not_before: Option<String>,
    pub not_after: String,
    pub serial_number: String,
    pub extensions: Vec<X509Extensions>,
}

/// An unsigned certificate signing request.
#[derive(Debug, Clone, PartialEq, Eq)]
pub struct CertificateRequest {
    pub name: String,
    pub subject_entity: String,
    pub subject_key: String,
    pub digest_algorithm: Option<DigestAlgorithm>,
}

#[allow(non_camel_case_types)]
#[derive(Debug, Clone, Copy, PartialEq, Eq)]
pub enum DigestAlgorithm {
    Sha_256,
    Sha_384,
    Sha_512,
}

#[derive(Debug, Clone, PartialEq, Eq)]
pub enum X509Extensions {
    BasicConstraints(BasicConstraintsExtension),
    KeyUsage(KeyUsageExtension),
    SubjectKeyIdentifier(SubjectKeyIdentifierExtension),
    AuthorityKeyIdentifier(AuthorityKeyIdentifierExtension),
    ExtendedKeyUsage(ExtendedKeyUsageExtension),
    CertificatePolicies(CertificatePoliciesExtension),
}

#[derive(Debug, Clone, Copy, PartialEq, Eq)]
pub struct BasicConstraintsExtension {
    pub critical: bool,
    pub ca: bool,
    pub path_len: Option<u8>,
}

#[derive(Debug, Clone, Copy, PartialEq, Eq)]
pub struct KeyUsageExtension {
    pub critical: bool,
    pub digital_signature: bool,
    pub non_repudiation: bool,
    pub key_encipherment: bool,
    pub data_encipherment: bool,
    pub key_agreement: bool,
    pub key_cert_sign: bool,
    pub crl_sign: bool,
    pub encipher_only: bool,
    pub decipher_only: bool,
}

#[derive(Debug, Clone, PartialEq, Eq)]
pub struct ExtendedKeyUsageExtension {
    pub critical: bool,
    pub id_kp_server_auth: bool,
    pub id_kp_client_auth: bool,
    pub id_kp_code_signing: bool,
    pub id_kp_email_protection: bool,
    pub id_kp_time_stamping: bool,
    pub id_kp_ocspsigning: bool,
    pub oids: Vec<String>,
}

#[derive(Debug, Clone, Copy, PartialEq, Eq)]
pub struct SubjectKeyIdentifierExtension {
    pub critical: bool,
}

#[derive(Debug, Clone, Copy, PartialEq, Eq)]
pub struct AuthorityKeyIdentifierExtension {
    pub critical: bool,
    pub key_id: bool,
    pub issuer: bool,
}

/// A certificate policy: one of the well-known policies, or an identifier
/// written out in dotted form.
#[derive(Debug, Clone, PartialEq, Eq)]
pub enum CertificatePolicy {
    /// DICE initial attestation.
    TcgDiceKpAttestInit,
    /// DICE local attestation.
    TcgDiceKpAttestLoc,
    /// DICE initial assertion.
    TcgDiceKpAssertInit,
    /// DICE local assertion.
    TcgDiceKpAssertLoc,
    /// DICE embedded certificate authority.
    TcgDiceKpEca,
    /// DICE initial identity.
    TcgDiceKpIdentityInit,
    /// DICE local identity.
    TcgDiceKpIdentityLoc,
    /// Oxide platform identity.
    OanaPlatformIdentity,
    /// Oxide root-of-trust code signing, development.
    OanaRotCodeSigningDevelopment,
    /// Oxide root-of-trust code signing, release.
    OanaRotCodeSigningRelease,
    /// An identifier in dotted form.
    Oid(String),
}

#[derive(Debug, Clone, PartialEq, Eq)]
pub struct CertificatePoliciesExtension {
    pub critical: bool,
    pub policies: Vec<CertificatePolicy>,
}

} // verus!
