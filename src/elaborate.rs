//! Elaboration of a certificate's extension declarations into the form that
//! an encoder takes. Every extension but certificate policies passes through
//! as declared; the entries of a certificate-policies extension are resolved
//! to object identifiers. Extensions are kept in order and never merged.

use vstd::prelude::*;

use x509_cert::ext::pkix::certpolicy::PolicyInformation;

use crate::model::{
    AuthorityKeyIdentifierExtension, BasicConstraintsExtension, Certificate,
    ExtendedKeyUsageExtension, KeyUsageExtension, SubjectKeyIdentifierExtension, X509Extensions,
};
use crate::policy::{policy_oid_text, policy_resolves, resolves_to};

verus! {

/// An extension ready for encoding.
#[derive(Debug, Clone, PartialEq, Eq)]
pub enum ElaboratedExtension {
    BasicConstraints(BasicConstraintsExtension),
    KeyUsage(KeyUsageExtension),
    SubjectKeyIdentifier(SubjectKeyIdentifierExtension),
    AuthorityKeyIdentifier(AuthorityKeyIdentifierExtension),
    ExtendedKeyUsage(ExtendedKeyUsageExtension),
    CertificatePolicies { critical: bool, policies: Vec<PolicyInformation> },
}

/// A certificate-policies entry of a certificate that did not resolve.
#[derive(Debug, Clone, PartialEq, Eq)]
pub struct ElaborationError {
    /// The certificate's name.
    pub certificate: String,
    /// The position of the extension among the certificate's extensions.
    pub extension: usize,
    /// The position of the entry among the extension's policies.
    pub entry: usize,
    /// The entry's dotted text.
    pub oid: String,
}

/// Whether every policy entry of the extension resolves (true of the other kinds).
pub open spec fn extension_resolves(x: X509Extensions) -> bool {
    match x {
        X509Extensions::CertificatePolicies(p) => forall|i: int|
            0 <= i < p.policies@.len() ==> policy_resolves(#[trigger] p.policies@[i]),
        _ => true,
    }
}

/// `out` is the elaborated form of `x`.
pub open spec fn elaborates_to(x: X509Extensions, out: ElaboratedExtension) -> bool {
    match (x, out) {
        (X509Extensions::BasicConstraints(a), ElaboratedExtension::BasicConstraints(b)) => a == b,
        (X509Extensions::KeyUsage(a), ElaboratedExtension::KeyUsage(b)) => a == b,
        (
            X509Extensions::SubjectKeyIdentifier(a),
            ElaboratedExtension::SubjectKeyIdentifier(b),
        ) => a == b,
        (
            X509Extensions::AuthorityKeyIdentifier(a),
            ElaboratedExtension::AuthorityKeyIdentifier(b),
        ) => a == b,
        (X509Extensions::ExtendedKeyUsage(a), ElaboratedExtension::ExtendedKeyUsage(b)) => {
            &&& a.critical == b.critical
            &&& a.id_kp_server_auth == b.id_kp_server_auth
            &&& a.id_kp_client_auth == b.id_kp_client_auth
            &&& a.id_kp_code_signing == b.id_kp_code_signing
            &&& a.id_kp_email_protection == b.id_kp_email_protection
            &&& a.id_kp_time_stamping == b.id_kp_time_stamping
            &&& a.id_kp_ocspsigning == b.id_kp_ocspsigning
            &&& a.oids@ == b.oids@
        },
        (
            X509Extensions::CertificatePolicies(a),
            ElaboratedExtension::CertificatePolicies { critical, policies },
        ) => {
            &&& a.critical == critical
            &&& policies@.len() == a.policies@.len()
            &&& forall|i: int|
                0 <= i < policies@.len() ==> resolves_to(a.policies@[i], #[trigger] policies@[i])
        },
        _ => false,
    }
}

fn copy_extended_key_usage(a: &ExtendedKeyUsageExtension) -> (b: ExtendedKeyUsageExtension)
    ensures
        elaborates_to(
            X509Extensions::ExtendedKeyUsage(*a),
            ElaboratedExtension::ExtendedKeyUsage(b),
        ),
{
    let mut oids: Vec<String> = Vec::new();
    let mut i: usize = 0;
    while i < a.oids.len()
        invariant
            i <= a.oids@.len(),
            oids@ == a.oids@.subrange(0, i as int),
        decreases a.oids@.len() - i,
    {
        oids.push(a.oids[i].clone());
        assert(a.oids@.subrange(0, i + 1) =~= a.oids@.subrange(0, i as int).push(a.oids@[i as int]));
        i += 1;
    }
    assert(a.oids@.subrange(0, a.oids@.len() as int) =~= a.oids@);
    ExtendedKeyUsageExtension {
        critical: a.critical,
        id_kp_server_auth: a.id_kp_server_auth,
        id_kp_client_auth: a.id_kp_client_auth,
        id_kp_code_signing: a.id_kp_code_signing,
        id_kp_email_protection: a.id_kp_email_protection,
        id_kp_time_stamping: a.id_kp_time_stamping,
        id_kp_ocspsigning: a.id_kp_ocspsigning,
        oids,
    }
}

impl Certificate {
    /// Elaborates every extension in order, stopping at the first policy
    /// entry that does not resolve.
    pub fn elaborate_extensions(&self) -> (r: Result<Vec<ElaboratedExtension>, ElaborationError>)
        ensures
            r is Ok <==> forall|i: int|
                0 <= i < self.extensions@.len() ==> extension_resolves(
                    #[trigger] self.extensions@[i],
                ),
            r matches Ok(v) ==> v@.len() == self.extensions@.len() && forall|i: int|
                0 <= i < v@.len() ==> elaborates_to(self.extensions@[i], #[trigger] v@[i]),
            r matches Err(e) ==> {
                &&& e.certificate@ == self.name@
                &&& e.extension < self.extensions@.len()
                &&& forall|j: int|
                    0 <= j < e.extension ==> extension_resolves(#[trigger] self.extensions@[j])
                &&& self.extensions@[e.extension as int] matches X509Extensions::CertificatePolicies(
                    p,
                ) && {
                    &&& e.entry < p.policies@.len()
                    &&& !policy_resolves(p.policies@[e.entry as int])
                    &&& e.oid@ == policy_oid_text(p.policies@[e.entry as int])
                    &&& forall|j: int|
                        0 <= j < e.entry ==> policy_resolves(#[trigger] p.policies@[j])
                }
            },
    {
        let mut out: Vec<ElaboratedExtension> = Vec::new();
        let mut i: usize = 0;
        while i < self.extensions.len()
            invariant
                i <= self.extensions@.len(),
                out@.len() == i,
                forall|j: int| 0 <= j < i ==> extension_resolves(#[trigger] self.extensions@[j]),
                forall|j: int| 0 <= j < i ==> elaborates_to(self.extensions@[j], #[trigger] out@[j]),
            decreases self.extensions@.len() - i,
        {
            let next = match &self.extensions[i] {
                X509Extensions::BasicConstraints(b) => ElaboratedExtension::BasicConstraints(*b),
                X509Extensions::KeyUsage(k) => ElaboratedExtension::KeyUsage(*k),
                X509Extensions::SubjectKeyIdentifier(s) => ElaboratedExtension::SubjectKeyIdentifier(
                    *s,
                ),
                X509Extensions::AuthorityKeyIdentifier(a) =>
                    ElaboratedExtension::AuthorityKeyIdentifier(*a),
                X509Extensions::ExtendedKeyUsage(x) => ElaboratedExtension::ExtendedKeyUsage(
                    copy_extended_key_usage(x),
                ),
                X509Extensions::CertificatePolicies(p) => match p.policy_information() {
                    Ok(policies) => ElaboratedExtension::CertificatePolicies {
                        critical: p.critical,
                        policies,
                    },
                    Err(e) => {
                        return Err(
                            ElaborationError {
                                certificate: self.name.clone(),
                                extension: i,
                                entry: e.index,
                                oid: e.oid,
                            },
                        );
                    },
                },
            };
            out.push(next);
            i += 1;
        }
        Ok(out)
    }
}

} // verus!
