use pki_playground::{
    oid_text_in_bounds, BasicConstraintsExtension, Certificate, CertificatePoliciesExtension,
    CertificatePolicy, ElaboratedExtension, ElaborationError, ExtendedKeyUsageExtension,
    KeyUsageExtension, OidFormatError, PolicyEntryError, X509Extensions,
};

fn well_known() -> Vec<(CertificatePolicy, &'static str)> {
    vec![
        (CertificatePolicy::TcgDiceKpIdentityInit, "2.23.133.5.4.100.6"),
        (CertificatePolicy::TcgDiceKpIdentityLoc, "2.23.133.5.4.100.7"),
        (CertificatePolicy::TcgDiceKpAttestInit, "2.23.133.5.4.100.8"),
        (CertificatePolicy::TcgDiceKpAttestLoc, "2.23.133.5.4.100.9"),
        (CertificatePolicy::TcgDiceKpAssertInit, "2.23.133.5.4.100.10"),
        (CertificatePolicy::TcgDiceKpAssertLoc, "2.23.133.5.4.100.11"),
        (CertificatePolicy::TcgDiceKpEca, "2.23.133.5.4.100.12"),
        (CertificatePolicy::OanaRotCodeSigningRelease, "1.3.6.1.4.1.57551.1.1"),
        (CertificatePolicy::OanaRotCodeSigningDevelopment, "1.3.6.1.4.1.57551.1.2"),
        (CertificatePolicy::OanaPlatformIdentity, "1.3.6.1.4.1.57551.1.3"),
    ]
}

#[test]
fn well_known_policies_have_fixed_oids() {
    for (p, text) in well_known() {
        assert_eq!(p.oid_text(), text);
        let info = p.policy_information().unwrap();
        assert_eq!(info.policy_identifier.to_string(), text);
        assert!(info.policy_qualifiers.is_none());
    }
}

#[test]
fn attest_init_policy_oid() {
    let info = CertificatePolicy::TcgDiceKpAttestInit.policy_information().unwrap();
    assert_eq!(info.policy_identifier.to_string(), "2.23.133.5.4.100.8");
}

#[test]
fn raw_oid_resolves_unchanged() {
    let p = CertificatePolicy::Oid("1.2.3".to_string());
    assert_eq!(p.oid_text(), "1.2.3");
    let info = p.policy_information().unwrap();
    assert_eq!(info.policy_identifier.to_string(), "1.2.3");
    assert!(info.policy_qualifiers.is_none());
}

#[test]
fn malformed_oid_rejected() {
    let p = CertificatePolicy::Oid("not-an-oid".to_string());
    assert_eq!(p.policy_information().unwrap_err(), OidFormatError { oid: "not-an-oid".to_string() });
}

#[test]
fn empty_and_trailing_dot_oids_rejected() {
    assert!(CertificatePolicy::Oid(String::new()).policy_information().is_err());
    assert!(CertificatePolicy::Oid("1.2.".to_string()).policy_information().is_err());
}

#[test]
fn oversized_arc_rejected() {
    let text = "1.2.99999999999";
    assert!(!oid_text_in_bounds(text));
    assert_eq!(
        CertificatePolicy::Oid(text.to_string()).policy_information().unwrap_err(),
        OidFormatError { oid: text.to_string() }
    );
}

#[test]
fn oid_text_bounds() {
    assert!(oid_text_in_bounds("1.2.4294967295"));
    assert!(!oid_text_in_bounds("1.2.4294967296"));
    assert!(oid_text_in_bounds("not-an-oid"));
    assert!(oid_text_in_bounds(""));
    assert!(!oid_text_in_bounds(&"1.".repeat(600)));
}

#[test]
fn policies_extension_resolves_in_order() {
    let ext = CertificatePoliciesExtension {
        critical: true,
        policies: vec![
            CertificatePolicy::TcgDiceKpEca,
            CertificatePolicy::Oid("1.2.3".to_string()),
            CertificatePolicy::TcgDiceKpEca,
        ],
    };
    let infos = ext.policy_information().unwrap();
    let texts: Vec<String> = infos.iter().map(|i| i.policy_identifier.to_string()).collect();
    assert_eq!(texts, vec!["2.23.133.5.4.100.12", "1.2.3", "2.23.133.5.4.100.12"]);
}

#[test]
fn policies_extension_reports_first_bad_entry() {
    let ext = CertificatePoliciesExtension {
        critical: false,
        policies: vec![
            CertificatePolicy::TcgDiceKpEca,
            CertificatePolicy::Oid("x".to_string()),
            CertificatePolicy::Oid("y".to_string()),
        ],
    };
    assert_eq!(
        ext.policy_information().unwrap_err(),
        PolicyEntryError { index: 1, oid: "x".to_string() }
    );
}

fn cert_with(extensions: Vec<X509Extensions>) -> Certificate {
    Certificate {
        name: "leaf".to_string(),
        subject_entity: "e".to_string(),
        subject_key: "k".to_string(),
        issuer_entity: Some("e".to_string()),
        issuer_certificate: None,
        issuer_key: "k".to_string(),
        digest_algorithm: None,
        not_before: None,
        not_after: "2030-01-01T00:00:00Z".to_string(),
        serial_number: "02".to_string(),
        extensions,
    }
}

#[test]
fn extensions_elaborate_in_order() {
    let bc = BasicConstraintsExtension { critical: true, ca: true, path_len: Some(1) };
    let ku = KeyUsageExtension {
        critical: true,
        digital_signature: true,
        non_repudiation: false,
        key_encipherment: false,
        data_encipherment: false,
        key_agreement: false,
        key_cert_sign: true,
        crl_sign: true,
        encipher_only: false,
        decipher_only: false,
    };
    let eku = ExtendedKeyUsageExtension {
        critical: false,
        id_kp_server_auth: true,
        id_kp_client_auth: false,
        id_kp_code_signing: false,
        id_kp_email_protection: false,
        id_kp_time_stamping: false,
        id_kp_ocspsigning: false,
        oids: vec!["1.2.3.4".to_string()],
    };
    let cert = cert_with(vec![
        X509Extensions::BasicConstraints(bc),
        X509Extensions::KeyUsage(ku),
        X509Extensions::ExtendedKeyUsage(eku.clone()),
        X509Extensions::BasicConstraints(bc),
        X509Extensions::CertificatePolicies(CertificatePoliciesExtension {
            critical: true,
            policies: vec![CertificatePolicy::OanaPlatformIdentity],
        }),
    ]);
    let out = cert.elaborate_extensions().unwrap();
    assert_eq!(out.len(), 5);
    assert_eq!(out[0], ElaboratedExtension::BasicConstraints(bc));
    assert_eq!(out[1], ElaboratedExtension::KeyUsage(ku));
    assert_eq!(out[2], ElaboratedExtension::ExtendedKeyUsage(eku));
    assert_eq!(out[3], ElaboratedExtension::BasicConstraints(bc));
    match &out[4] {
        ElaboratedExtension::CertificatePolicies { critical, policies } => {
            assert!(*critical);
            assert_eq!(policies.len(), 1);
            assert_eq!(policies[0].policy_identifier.to_string(), "1.3.6.1.4.1.57551.1.3");
        }
        other => panic!("unexpected {:?}", other),
    }
}

#[test]
fn elaboration_reports_certificate_and_entry() {
    let cert = cert_with(vec![
        X509Extensions::CertificatePolicies(CertificatePoliciesExtension {
            critical: false,
            policies: vec![CertificatePolicy::TcgDiceKpEca],
        }),
        X509Extensions::CertificatePolicies(CertificatePoliciesExtension {
            critical: false,
            policies: vec![
                CertificatePolicy::TcgDiceKpAttestLoc,
                CertificatePolicy::Oid("not-an-oid".to_string()),
            ],
        }),
    ]);
    assert_eq!(
        cert.elaborate_extensions().unwrap_err(),
        ElaborationError {
            certificate: "leaf".to_string(),
            extension: 1,
            entry: 1,
            oid: "not-an-oid".to_string(),
        }
    );
}

#[test]
fn well_known_policy_equals_oid_of_its_text() {
    for (p, text) in well_known() {
        let named = p.policy_information().unwrap();
        let spelled = CertificatePolicy::Oid(text.to_string()).policy_information().unwrap();
        assert_eq!(named, spelled);
    }
}

#[test]
fn well_known_oids_are_distinct() {
    let all = well_known();
    for (i, (_, a)) in all.iter().enumerate() {
        for (_, b) in all.iter().skip(i + 1) {
            assert_ne!(a, b);
        }
    }
}
