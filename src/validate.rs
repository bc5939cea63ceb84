//! Structural validation of a whole description: key-pair shape, per-kind name
//! uniqueness, and resolution of every certificate's references.
//!
//! Validation stops at the first violation. Key pairs are checked in order
//! (shape, then uniqueness against the earlier ones), then entity names, then
//! certificate names, then each certificate's references in order. References
//! are resolved against the complete name lists, so a certificate may name as
//! its issuer a certificate declared after it.

use vstd::prelude::*;

use crate::model::{Certificate, Document, KeyPair};

verus! {

/// The three namespaces of a description.
#[derive(Debug, Clone, Copy, PartialEq, Eq, Structural)]
pub enum NameKind {
    KeyPair,
    Entity,
    Certificate,
}

/// The reference fields of a certificate.
#[derive(Debug, Clone, Copy, PartialEq, Eq, Structural)]
pub enum ReferenceField {
    SubjectEntity,
    SubjectKey,
    IssuerEntity,
    IssuerCertificate,
    IssuerKey,
}

/// Why a description was rejected.
#[derive(Debug, Clone, PartialEq, Eq)]
pub enum ValidationError {
    /// A key pair declares a number of key types other than one.
    KeyTypeCount { key_pair: String, count: usize },
    /// Two items of one kind share a name.
    DuplicateName { kind: NameKind, name: String },
    /// A certificate names something that does not exist.
    MissingReference { certificate: String, field: ReferenceField, target: String },
    /// A certificate names neither an issuer entity nor an issuer certificate.
    MissingIssuer { certificate: String },
    /// A certificate names both an issuer entity and an issuer certificate.
    ConflictingIssuers { certificate: String },
}

/// A `ValidationError` with its strings as character sequences.
pub enum ValidationErrorView {
    KeyTypeCount { key_pair: Seq<char>, count: nat },
    DuplicateName { kind: NameKind, name: Seq<char> },
    MissingReference { certificate: Seq<char>, field: ReferenceField, target: Seq<char> },
    MissingIssuer { certificate: Seq<char> },
    ConflictingIssuers { certificate: Seq<char> },
}

impl View for ValidationError {
    type V = ValidationErrorView;

    open spec fn view(&self) -> ValidationErrorView {
        match self {
            ValidationError::KeyTypeCount { key_pair, count } => ValidationErrorView::KeyTypeCount {
                key_pair: key_pair@,
                count: *count as nat,
            },
            ValidationError::DuplicateName { kind, name } => ValidationErrorView::DuplicateName {
                kind: *kind,
                name: name@,
            },
            ValidationError::MissingReference { certificate, field, target } =>
                ValidationErrorView::MissingReference {
                certificate: certificate@,
                field: *field,
                target: target@,
            },
            ValidationError::MissingIssuer { certificate } => ValidationErrorView::MissingIssuer {
                certificate: certificate@,
            },
            ValidationError::ConflictingIssuers { certificate } =>
                ValidationErrorView::ConflictingIssuers { certificate: certificate@ },
        }
    }
}

pub open spec fn views(names: Seq<String>) -> Seq<Seq<char>> {
    names.map_values(|s: String| s@)
}

pub open spec fn key_pair_names(kps: Seq<KeyPair>) -> Seq<Seq<char>> {
    kps.map_values(|k: KeyPair| k.name@)
}

pub open spec fn entity_names(doc: Document) -> Seq<Seq<char>> {
    doc.entities@.map_values(|e: crate::model::Entity| e.name@)
}

pub open spec fn certificate_names(doc: Document) -> Seq<Seq<char>> {
    doc.certificates@.map_values(|c: Certificate| c.name@)
}

/// The first violation among the key pairs from index `i` on: a key-type
/// count other than one, or a name already used by an earlier key pair.
pub open spec fn key_pair_error_from(kps: Seq<KeyPair>, i: int) -> Option<ValidationErrorView>
    decreases kps.len() - i,
{
    if !(0 <= i < kps.len()) {
        None
    } else if kps[i].key_type@.len() != 1 {
        Some(
            ValidationErrorView::KeyTypeCount {
                key_pair: kps[i].name@,
                count: kps[i].key_type@.len(),
            },
        )
    } else if key_pair_names(kps).subrange(0, i).contains(kps[i].name@) {
        Some(ValidationErrorView::DuplicateName { kind: NameKind::KeyPair, name: kps[i].name@ })
    } else {
        key_pair_error_from(kps, i + 1)
    }
}

/// The first name from index `i` on that an earlier name repeats.
pub open spec fn duplicate_from(names: Seq<Seq<char>>, i: int) -> Option<Seq<char>>
    decreases names.len() - i,
{
    if !(0 <= i < names.len()) {
        None
    } else if names.subrange(0, i).contains(names[i]) {
        Some(names[i])
    } else {
        duplicate_from(names, i + 1)
    }
}

/// The first broken reference of certificate `c`, checked against the name
/// lists of the whole description.
pub open spec fn certificate_error(doc: Document, c: Certificate) -> Option<ValidationErrorView> {
    let entities = entity_names(doc);
    let keys = key_pair_names(doc.key_pairs@);
    let certs = certificate_names(doc);
    if !entities.contains(c.subject_entity@) {
        Some(
            ValidationErrorView::MissingReference {
                certificate: c.name@,
                field: ReferenceField::SubjectEntity,
                target: c.subject_entity@,
            },
        )
    } else if !keys.contains(c.subject_key@) {
        Some(
            ValidationErrorView::MissingReference {
                certificate: c.name@,
                field: ReferenceField::SubjectKey,
                target: c.subject_key@,
            },
        )
    } else {
        match (c.issuer_entity, c.issuer_certificate) {
            (None, None) => Some(ValidationErrorView::MissingIssuer { certificate: c.name@ }),
            (Some(_), Some(_)) => Some(
                ValidationErrorView::ConflictingIssuers { certificate: c.name@ },
            ),
            (Some(e), None) if !entities.contains(e@) => Some(
                ValidationErrorView::MissingReference {
                    certificate: c.name@,
                    field: ReferenceField::IssuerEntity,
                    target: e@,
                },
            ),
            (None, Some(ic)) if !certs.contains(ic@) => Some(
                ValidationErrorView::MissingReference {
                    certificate: c.name@,
                    field: ReferenceField::IssuerCertificate,
                    target: ic@,
                },
            ),
            _ => if !keys.contains(c.issuer_key@) {
                Some(
                    ValidationErrorView::MissingReference {
                        certificate: c.name@,
                        field: ReferenceField::IssuerKey,
                        target: c.issuer_key@,
                    },
                )
            } else {
                None
            },
        }
    }
}

/// The first broken reference among the certificates from index `i` on.
pub open spec fn certificate_error_from(doc: Document, i: int) -> Option<ValidationErrorView>
    decreases doc.certificates@.len() - i,
{
    if !(0 <= i < doc.certificates@.len()) {
        None
    } else if certificate_error(doc, doc.certificates@[i]) is Some {
        certificate_error(doc, doc.certificates@[i])
    } else {
        certificate_error_from(doc, i + 1)
    }
}

/// The violation that validation reports for `doc`, if any.
pub open spec fn validation_error(doc: Document) -> Option<ValidationErrorView> {
    if key_pair_error_from(doc.key_pairs@, 0) is Some {
        key_pair_error_from(doc.key_pairs@, 0)
    } else if duplicate_from(entity_names(doc), 0) is Some {
        Some(
            ValidationErrorView::DuplicateName {
                kind: NameKind::Entity,
                name: duplicate_from(entity_names(doc), 0)->0,
            },
        )
    } else if duplicate_from(certificate_names(doc), 0) is Some {
        Some(
            ValidationErrorView::DuplicateName {
                kind: NameKind::Certificate,
                name: duplicate_from(certificate_names(doc), 0)->0,
            },
        )
    } else {
        certificate_error_from(doc, 0)
    }
}

/// Whether `name` is among the first `end` names.
fn contains_name(names: &Vec<String>, end: usize, name: &String) -> (r: bool)
    requires
        end <= names@.len(),
    ensures
        r == views(names@).subrange(0, end as int).contains(name@),
{
    let mut j: usize = 0;
    while j < end
        invariant
            end <= names@.len(),
            j <= end,
            forall|k: int| 0 <= k < j ==> names@[k]@ != name@,
        decreases end - j,
    {
        if names[j] == *name {
            assert(views(names@).subrange(0, end as int)[j as int] == name@);
            return true;
        }
        j += 1;
    }
    proof {
        let s = views(names@).subrange(0, end as int);
        assert forall|k: int| 0 <= k < s.len() implies s[k] != name@ by {
            assert(s[k] == names@[k]@);
        }
    }
    false
}

/// Whether `name` is among `names`.
fn has_name(names: &Vec<String>, name: &String) -> (r: bool)
    ensures
        r == views(names@).contains(name@),
{
    let r = contains_name(names, names.len(), name);
    assert(views(names@).subrange(0, names@.len() as int) =~= views(names@));
    r
}

fn key_pair_names_of(doc: &Document) -> (r: Vec<String>)
    ensures
        views(r@) == key_pair_names(doc.key_pairs@),
        r@.len() == doc.key_pairs@.len(),
{
    let mut r: Vec<String> = Vec::new();
    let mut i: usize = 0;
    while i < doc.key_pairs.len()
        invariant
            i <= doc.key_pairs@.len(),
            views(r@) =~= key_pair_names(doc.key_pairs@).subrange(0, i as int),
        decreases doc.key_pairs@.len() - i,
    {
        let n = doc.key_pairs[i].name.clone();
        assert(n@ == doc.key_pairs@[i as int].name@);
        let ghost prev = r@;
        r.push(n);
        proof {
            assert(views(r@) =~= views(prev).push(n@));
            assert(key_pair_names(doc.key_pairs@).subrange(0, i + 1) =~= key_pair_names(doc.key_pairs@).subrange(0, i as int).push(n@));
        }
        i += 1;
    }
    assert(views(r@) =~= key_pair_names(doc.key_pairs@));
    r
}

fn entity_names_of(doc: &Document) -> (r: Vec<String>)
    ensures
        views(r@) == entity_names(*doc),
{
    let mut r: Vec<String> = Vec::new();
    let mut i: usize = 0;
    while i < doc.entities.len()
        invariant
            i <= doc.entities@.len(),
            views(r@) =~= entity_names(*doc).subrange(0, i as int),
        decreases doc.entities@.len() - i,
    {
        let n = doc.entities[i].name.clone();
        assert(n@ == doc.entities@[i as int].name@);
        let ghost prev = r@;
        r.push(n);
        proof {
            assert(views(r@) =~= views(prev).push(n@));
            assert(entity_names(*doc).subrange(0, i + 1) =~= entity_names(*doc).subrange(0, i as int).push(n@));
        }
        i += 1;
    }
    assert(views(r@) =~= entity_names(*doc));
    r
}

fn certificate_names_of(doc: &Document) -> (r: Vec<String>)
    ensures
        views(r@) == certificate_names(*doc),
{
    let mut r: Vec<String> = Vec::new();
    let mut i: usize = 0;
    while i < doc.certificates.len()
        invariant
            i <= doc.certificates@.len(),
            views(r@) =~= certificate_names(*doc).subrange(0, i as int),
        decreases doc.certificates@.len() - i,
    {
        let n = doc.certificates[i].name.clone();
        assert(n@ == doc.certificates@[i as int].name@);
        let ghost prev = r@;
        r.push(n);
        proof {
            assert(views(r@) =~= views(prev).push(n@));
            assert(certificate_names(*doc).subrange(0, i + 1) =~= certificate_names(*doc).subrange(0, i as int).push(n@));
        }
        i += 1;
    }
    assert(views(r@) =~= certificate_names(*doc));
    r
}

/// The first name that repeats an earlier one.
fn first_duplicate(names: &Vec<String>) -> (r: Option<String>)
    ensures
        match r {
            Some(n) => duplicate_from(views(names@), 0) == Some(n@),
            None => duplicate_from(views(names@), 0) is None,
        },
{
    let mut i: usize = 0;
    while i < names.len()
        invariant
            i <= names@.len(),
            duplicate_from(views(names@), 0) == duplicate_from(views(names@), i as int),
        decreases names@.len() - i,
    {
        if contains_name(names, i, &names[i]) {
            return Some(names[i].clone());
        }
        i += 1;
    }
    None
}

/// The first broken reference of `c`, against the complete name lists.
fn check_certificate(
    doc: &Document,
    c: &Certificate,
    key_names: &Vec<String>,
    entity_names_v: &Vec<String>,
    cert_names: &Vec<String>,
) -> (r: Result<(), ValidationError>)
    requires
        views(key_names@) == key_pair_names(doc.key_pairs@),
        views(entity_names_v@) == entity_names(*doc),
        views(cert_names@) == certificate_names(*doc),
    ensures
        match r {
            Ok(()) => certificate_error(*doc, *c) is None,
            Err(e) => certificate_error(*doc, *c) == Some(e@),
        },
{
    if !has_name(entity_names_v, &c.subject_entity) {
        return Err(
            ValidationError::MissingReference {
                certificate: c.name.clone(),
                field: ReferenceField::SubjectEntity,
                target: c.subject_entity.clone(),
            },
        );
    }
    if !has_name(key_names, &c.subject_key) {
        return Err(
            ValidationError::MissingReference {
                certificate: c.name.clone(),
                field: ReferenceField::SubjectKey,
                target: c.subject_key.clone(),
            },
        );
    }
    match &c.issuer_entity {
        None => {
            if c.issuer_certificate.is_none() {
                return Err(ValidationError::MissingIssuer { certificate: c.name.clone() });
            }
        },
        Some(entity) => {
            if c.issuer_certificate.is_some() {
                return Err(ValidationError::ConflictingIssuers { certificate: c.name.clone() });
            }
            if !has_name(entity_names_v, entity) {
                return Err(
                    ValidationError::MissingReference {
                        certificate: c.name.clone(),
                        field: ReferenceField::IssuerEntity,
                        target: entity.clone(),
                    },
                );
            }
        },
    }
    match &c.issuer_certificate {
        None => {},
        Some(issuer) => {
            if !has_name(cert_names, issuer) {
                return Err(
                    ValidationError::MissingReference {
                        certificate: c.name.clone(),
                        field: ReferenceField::IssuerCertificate,
                        target: issuer.clone(),
                    },
                );
            }
        },
    }
    if !has_name(key_names, &c.issuer_key) {
        return Err(
            ValidationError::MissingReference {
                certificate: c.name.clone(),
                field: ReferenceField::IssuerKey,
                target: c.issuer_key.clone(),
            },
        );
    }
    Ok(())
}

impl Document {
    /// Checks the description and reports its first violation, in the order
    /// that the module documentation gives.
    pub fn check(&self) -> (r: Result<(), ValidationError>)
        ensures
            match r {
                Ok(()) => validation_error(*self) is None,
                Err(e) => validation_error(*self) == Some(e@),
            },
    {
        let key_names = key_pair_names_of(self);
        let mut i: usize = 0;
        while i < self.key_pairs.len()
            invariant
                i <= self.key_pairs@.len(),
                views(key_names@) == key_pair_names(self.key_pairs@),
                key_names@.len() == self.key_pairs@.len(),
                key_pair_error_from(self.key_pairs@, 0) == key_pair_error_from(
                    self.key_pairs@,
                    i as int,
                ),
            decreases self.key_pairs@.len() - i,
        {
            let kp = &self.key_pairs[i];
            if kp.key_type.len() != 1 {
                return Err(
                    ValidationError::KeyTypeCount {
                        key_pair: kp.name.clone(),
                        count: kp.key_type.len(),
                    },
                );
            }
            assert(views(key_names@)[i as int] == kp.name@);
            if contains_name(&key_names, i, &key_names[i]) {
                return Err(
                    ValidationError::DuplicateName { kind: NameKind::KeyPair, name: kp.name.clone() },
                );
            }
            i += 1;
        }
        let entity_names_v = entity_names_of(self);
        match first_duplicate(&entity_names_v) {
            Some(name) => {
                return Err(ValidationError::DuplicateName { kind: NameKind::Entity, name });
            },
            None => {},
        }
        let cert_names = certificate_names_of(self);
        match first_duplicate(&cert_names) {
            Some(name) => {
                return Err(ValidationError::DuplicateName { kind: NameKind::Certificate, name });
            },
            None => {},
        }
        let mut j: usize = 0;
        while j < self.certificates.len()
            invariant
                j <= self.certificates@.len(),
                validation_error(*self) == certificate_error_from(*self, j as int),
                views(key_names@) == key_pair_names(self.key_pairs@),
                views(entity_names_v@) == entity_names(*self),
                views(cert_names@) == certificate_names(*self),
            decreases self.certificates@.len() - j,
        {
            check_certificate(self, &self.certificates[j], &key_names, &entity_names_v, &cert_names)?;
            j += 1;
        }
        Ok(())
    }
}

/// Validates a description and hands it back unchanged, or reports the first
/// violation.
pub fn validate(doc: Document) -> (r: Result<Document, ValidationError>)
    ensures
        match r {
            Ok(d) => d == doc && validation_error(doc) is None,
            Err(e) => validation_error(doc) == Some(e@),
        },
{
    match doc.check() {
        Ok(()) => Ok(doc),
        Err(e) => Err(e),
    }
}

} // verus!
