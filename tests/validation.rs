use pki_playground::{
    validate, Certificate, CertificateRequest, Document, Entity, EntityNameComponent, KeyPair,
    KeyType, NameKind, ReferenceField, RsaKeyConfig, ValidationError,
};

fn key_pair(name: &str) -> KeyPair {
    KeyPair { name: name.to_string(), key_type: vec![KeyType::Ed25519] }
}

fn entity(name: &str) -> Entity {
    Entity {
        name: name.to_string(),
        common_name: format!("{} CN", name),
        base_dn: vec![EntityNameComponent::OrganizationName("Example".to_string())],
    }
}

fn cert_by_entity(name: &str, subject: &str, key: &str, issuer: &str, issuer_key: &str) -> Certificate {
    Certificate {
        name: name.to_string(),
        subject_entity: subject.to_string(),
        subject_key: key.to_string(),
        issuer_entity: Some(issuer.to_string()),
        issuer_certificate: None,
        issuer_key: issuer_key.to_string(),
        digest_algorithm: None,
        not_before: None,
        not_after: "9999-12-31T23:59:59Z".to_string(),
        serial_number: "01".to_string(),
        extensions: vec![],
    }
}

fn cert_by_cert(name: &str, subject: &str, key: &str, issuer: &str, issuer_key: &str) -> Certificate {
    let mut c = cert_by_entity(name, subject, key, issuer, issuer_key);
    c.issuer_entity = None;
    c.issuer_certificate = Some(issuer.to_string());
    c
}

fn minimal() -> Document {
    Document {
        key_pairs: vec![key_pair("root-key")],
        entities: vec![entity("root")],
        certificates: vec![cert_by_entity("root-cert", "root", "root-key", "root", "root-key")],
        certificate_requests: vec![],
    }
}

#[test]
fn minimal_document_validates_unchanged() {
    let doc = minimal();
    let once = validate(doc.clone()).unwrap();
    assert_eq!(once, doc);
    let twice = validate(once.clone()).unwrap();
    assert_eq!(twice, once);
    assert!(doc.check().is_ok());
}

#[test]
fn empty_document_validates() {
    let doc = Document { key_pairs: vec![], entities: vec![], certificates: vec![], certificate_requests: vec![] };
    assert!(validate(doc).is_ok());
}

#[test]
fn duplicate_key_pair_names_rejected() {
    let mut doc = minimal();
    doc.key_pairs.push(key_pair("other"));
    doc.key_pairs.push(key_pair("root-key"));
    assert_eq!(
        validate(doc).unwrap_err(),
        ValidationError::DuplicateName { kind: NameKind::KeyPair, name: "root-key".to_string() }
    );
}

#[test]
fn duplicate_entity_names_rejected() {
    let mut doc = minimal();
    doc.entities.push(entity("root"));
    assert_eq!(
        validate(doc).unwrap_err(),
        ValidationError::DuplicateName { kind: NameKind::Entity, name: "root".to_string() }
    );
}

#[test]
fn duplicate_certificate_names_rejected() {
    let mut doc = minimal();
    doc.certificates.push(cert_by_entity("root-cert", "root", "root-key", "root", "root-key"));
    assert_eq!(
        validate(doc).unwrap_err(),
        ValidationError::DuplicateName { kind: NameKind::Certificate, name: "root-cert".to_string() }
    );
}

#[test]
fn names_are_scoped_per_kind() {
    let doc = Document {
        key_pairs: vec![key_pair("shared")],
        entities: vec![entity("shared")],
        certificates: vec![cert_by_entity("shared", "shared", "shared", "shared", "shared")],
        certificate_requests: vec![],
    };
    assert!(validate(doc).is_ok());
}

#[test]
fn key_pair_without_key_type_rejected() {
    let mut doc = minimal();
    doc.key_pairs.push(KeyPair { name: "empty".to_string(), key_type: vec![] });
    assert_eq!(
        validate(doc).unwrap_err(),
        ValidationError::KeyTypeCount { key_pair: "empty".to_string(), count: 0 }
    );
}

#[test]
fn key_pair_with_two_key_types_rejected() {
    let mut doc = minimal();
    doc.key_pairs.push(KeyPair {
        name: "double".to_string(),
        key_type: vec![KeyType::P384, KeyType::Rsa(RsaKeyConfig::with_defaults())],
    });
    assert_eq!(
        validate(doc).unwrap_err(),
        ValidationError::KeyTypeCount { key_pair: "double".to_string(), count: 2 }
    );
}

#[test]
fn key_type_checked_before_later_duplicates() {
    let mut doc = minimal();
    doc.key_pairs.push(KeyPair { name: "bad".to_string(), key_type: vec![] });
    doc.key_pairs.push(key_pair("root-key"));
    doc.entities.push(entity("root"));
    assert_eq!(
        validate(doc).unwrap_err(),
        ValidationError::KeyTypeCount { key_pair: "bad".to_string(), count: 0 }
    );
}

#[test]
fn duplicate_key_pair_reported_at_its_position() {
    let mut doc = minimal();
    doc.key_pairs.push(key_pair("root-key"));
    doc.key_pairs.push(KeyPair { name: "bad".to_string(), key_type: vec![] });
    assert_eq!(
        validate(doc).unwrap_err(),
        ValidationError::DuplicateName { kind: NameKind::KeyPair, name: "root-key".to_string() }
    );
}

#[test]
fn rsa_defaults() {
    let r = RsaKeyConfig::with_defaults();
    assert_eq!(r.num_bits, 2048);
    assert_eq!(r.public_exponent, 65537);
}

#[test]
fn missing_issuer_rejected() {
    let mut doc = minimal();
    doc.certificates[0].issuer_entity = None;
    assert_eq!(
        validate(doc).unwrap_err(),
        ValidationError::MissingIssuer { certificate: "root-cert".to_string() }
    );
}

#[test]
fn conflicting_issuers_rejected() {
    let mut doc = minimal();
    doc.certificates[0].issuer_certificate = Some("root-cert".to_string());
    assert_eq!(
        validate(doc).unwrap_err(),
        ValidationError::ConflictingIssuers { certificate: "root-cert".to_string() }
    );
}

fn missing(field: ReferenceField, target: &str) -> ValidationError {
    ValidationError::MissingReference {
        certificate: "root-cert".to_string(),
        field,
        target: target.to_string(),
    }
}

#[test]
fn missing_subject_entity_rejected() {
    let mut doc = minimal();
    doc.certificates[0].subject_entity = "nobody".to_string();
    assert_eq!(validate(doc).unwrap_err(), missing(ReferenceField::SubjectEntity, "nobody"));
}

#[test]
fn missing_subject_key_rejected() {
    let mut doc = minimal();
    doc.certificates[0].subject_key = "no-key".to_string();
    assert_eq!(validate(doc).unwrap_err(), missing(ReferenceField::SubjectKey, "no-key"));
}

#[test]
fn missing_issuer_entity_rejected() {
    let mut doc = minimal();
    doc.certificates[0].issuer_entity = Some("nobody".to_string());
    assert_eq!(validate(doc).unwrap_err(), missing(ReferenceField::IssuerEntity, "nobody"));
}

#[test]
fn missing_issuer_certificate_rejected() {
    let mut doc = minimal();
    doc.certificates[0].issuer_entity = None;
    doc.certificates[0].issuer_certificate = Some("no-cert".to_string());
    assert_eq!(validate(doc).unwrap_err(), missing(ReferenceField::IssuerCertificate, "no-cert"));
}

#[test]
fn missing_issuer_key_rejected() {
    let mut doc = minimal();
    doc.certificates[0].issuer_key = "no-key".to_string();
    assert_eq!(validate(doc).unwrap_err(), missing(ReferenceField::IssuerKey, "no-key"));
}

#[test]
fn forward_issuer_reference_accepted() {
    let doc = Document {
        key_pairs: vec![key_pair("root-key"), key_pair("leaf-key")],
        entities: vec![entity("root"), entity("leaf")],
        certificates: vec![
            cert_by_cert("leaf-cert", "leaf", "leaf-key", "root-cert", "root-key"),
            cert_by_entity("root-cert", "root", "root-key", "root", "root-key"),
        ],
        certificate_requests: vec![],
    };
    assert!(validate(doc).is_ok());
}

#[test]
fn issuer_cycle_not_rejected() {
    let doc = Document {
        key_pairs: vec![key_pair("k")],
        entities: vec![entity("e")],
        certificates: vec![
            cert_by_cert("a", "e", "k", "b", "k"),
            cert_by_cert("b", "e", "k", "a", "k"),
        ],
        certificate_requests: vec![],
    };
    assert!(validate(doc).is_ok());
}

#[test]
fn certificate_requests_not_checked() {
    let mut doc = minimal();
    doc.certificate_requests.push(CertificateRequest {
        name: "csr".to_string(),
        subject_entity: "nobody".to_string(),
        subject_key: "no-key".to_string(),
        digest_algorithm: None,
    });
    assert!(validate(doc).is_ok());
}

#[test]
fn first_broken_certificate_reported() {
    let mut doc = minimal();
    doc.certificates.push(cert_by_entity("second", "root", "bad-key", "root", "root-key"));
    doc.certificates.push(cert_by_entity("third", "nobody", "root-key", "root", "root-key"));
    assert_eq!(
        validate(doc).unwrap_err(),
        ValidationError::MissingReference {
            certificate: "second".to_string(),
            field: ReferenceField::SubjectKey,
            target: "bad-key".to_string(),
        }
    );
}

#[test]
fn certificate_order_does_not_matter() {
    let mut doc = Document {
        key_pairs: vec![key_pair("root-key"), key_pair("leaf-key")],
        entities: vec![entity("root"), entity("leaf")],
        certificates: vec![
            cert_by_entity("root-cert", "root", "root-key", "root", "root-key"),
            cert_by_cert("leaf-cert", "leaf", "leaf-key", "root-cert", "root-key"),
        ],
        certificate_requests: vec![],
    };
    assert!(doc.check().is_ok());
    doc.certificates.swap(0, 1);
    assert!(doc.check().is_ok());
    doc.certificates[1].issuer_key = "gone".to_string();
    let err = doc.check().unwrap_err();
    doc.certificates.swap(0, 1);
    assert_eq!(doc.check().unwrap_err(), err);
}
