//! What validation guarantees, stated over the whole description and proved
//! from the definitions in `validate`.

use vstd::prelude::*;

use crate::model::{Certificate, Document, KeyPair};
use crate::validate::{
    certificate_error, certificate_error_from, certificate_names, duplicate_from, entity_names,
    key_pair_error_from, key_pair_names, validation_error, NameKind, ReferenceField,
    ValidationErrorView,
};

verus! {

/// No two names of the list are equal.
pub open spec fn names_unique(names: Seq<Seq<char>>) -> bool {
    forall|a: int, b: int|
        #![trigger names[a], names[b]]
        0 <= a < b < names.len() ==> names[a] != names[b]
}

/// `n` is the name of two different items of the list.
pub open spec fn name_shared(names: Seq<Seq<char>>, n: Seq<char>) -> bool {
    exists|a: int, b: int|
        #![trigger names[a], names[b]]
        0 <= a < b < names.len() && names[a] == n && names[b] == n
}

pub open spec fn names_of_kind(doc: Document, kind: NameKind) -> Seq<Seq<char>> {
    match kind {
        NameKind::KeyPair => key_pair_names(doc.key_pairs@),
        NameKind::Entity => entity_names(doc),
        NameKind::Certificate => certificate_names(doc),
    }
}

/// The namespace that a reference field points into.
pub open spec fn target_kind(field: ReferenceField) -> NameKind {
    match field {
        ReferenceField::SubjectEntity | ReferenceField::IssuerEntity => NameKind::Entity,
        ReferenceField::SubjectKey | ReferenceField::IssuerKey => NameKind::KeyPair,
        ReferenceField::IssuerCertificate => NameKind::Certificate,
    }
}

/// The name that `c` gives in `field`, if it gives one.
pub open spec fn reference_of(c: Certificate, field: ReferenceField) -> Option<Seq<char>> {
    match field {
        ReferenceField::SubjectEntity => Some(c.subject_entity@),
        ReferenceField::SubjectKey => Some(c.subject_key@),
        ReferenceField::IssuerEntity => match c.issuer_entity {
            Some(e) => Some(e@),
            None => None,
        },
        ReferenceField::IssuerCertificate => match c.issuer_certificate {
            Some(ic) => Some(ic@),
            None => None,
        },
        ReferenceField::IssuerKey => Some(c.issuer_key@),
    }
}

/// Every reference of `c` resolves, and it names exactly one issuer.
pub open spec fn references_resolve(doc: Document, c: Certificate) -> bool {
    &&& entity_names(doc).contains(c.subject_entity@)
    &&& key_pair_names(doc.key_pairs@).contains(c.subject_key@)
    &&& match (c.issuer_entity, c.issuer_certificate) {
        (Some(e), None) => entity_names(doc).contains(e@),
        (None, Some(ic)) => certificate_names(doc).contains(ic@),
        _ => false,
    }
    &&& key_pair_names(doc.key_pairs@).contains(c.issuer_key@)
}

/// A description with no violation, stated without any order of checking.
pub open spec fn well_formed(doc: Document) -> bool {
    &&& forall|i: int|
        0 <= i < doc.key_pairs@.len() ==> (#[trigger] doc.key_pairs@[i]).key_type@.len() == 1
    &&& names_unique(key_pair_names(doc.key_pairs@))
    &&& names_unique(entity_names(doc))
    &&& names_unique(certificate_names(doc))
    &&& forall|i: int|
        0 <= i < doc.certificates@.len() ==> references_resolve(
            doc,
            #[trigger] doc.certificates@[i],
        )
}

/// The reported error describes a violation that is really in the description.
pub open spec fn error_is_genuine(doc: Document, e: ValidationErrorView) -> bool {
    let certs = doc.certificates@;
    match e {
        ValidationErrorView::KeyTypeCount { key_pair, count } => count != 1 && exists|i: int|
            0 <= i < doc.key_pairs@.len() && (#[trigger] doc.key_pairs@[i]).name@ == key_pair
                && doc.key_pairs@[i].key_type@.len() == count,
        ValidationErrorView::DuplicateName { kind, name } => name_shared(
            names_of_kind(doc, kind),
            name,
        ),
        ValidationErrorView::MissingReference { certificate, field, target } => exists|i: int|
            0 <= i < certs.len() && (#[trigger] certs[i]).name@ == certificate && reference_of(
                certs[i],
                field,
            ) == Some(target) && !names_of_kind(doc, target_kind(field)).contains(target),
        ValidationErrorView::MissingIssuer { certificate } => exists|i: int|
            0 <= i < certs.len() && (#[trigger] certs[i]).name@ == certificate
                && certs[i].issuer_entity is None && certs[i].issuer_certificate is None,
        ValidationErrorView::ConflictingIssuers { certificate } => exists|i: int|
            0 <= i < certs.len() && (#[trigger] certs[i]).name@ == certificate
                && certs[i].issuer_entity is Some && certs[i].issuer_certificate is Some,
    }
}

proof fn lemma_duplicate_from(names: Seq<Seq<char>>, i: int)
    requires
        0 <= i <= names.len(),
    ensures
        duplicate_from(names, i) is None <==> forall|a: int, b: int|
            #![trigger names[a], names[b]]
            0 <= a < b < names.len() && i <= b ==> names[a] != names[b],
        duplicate_from(names, i) matches Some(n) ==> name_shared(names, n),
    decreases names.len() - i,
{
    if i < names.len() {
        lemma_duplicate_from(names, i + 1);
        if names.subrange(0, i).contains(names[i]) {
            let a = choose|a: int| 0 <= a < i && names.subrange(0, i)[a] == names[i];
            assert(names[a] == names[i]);
        } else {
            assert forall|a: int, b: int|
                #![trigger names[a], names[b]]
                0 <= a < b < names.len() && i <= b && (forall|a2: int, b2: int|
                    #![trigger names[a2], names[b2]]
                    0 <= a2 < b2 < names.len() && i + 1 <= b2 ==> names[a2] != names[b2])
                implies names[a] != names[b] by {
                if b == i {
                    assert(names.subrange(0, i)[a] == names[a]);
                }
            }
        }
    }
}

proof fn lemma_key_pair_error_from(kps: Seq<KeyPair>, i: int)
    requires
        0 <= i <= kps.len(),
    ensures
        key_pair_error_from(kps, i) is None <==> (forall|b: int|
            i <= b < kps.len() ==> (#[trigger] kps[b]).key_type@.len() == 1) && forall|a: int, b: int|
            #![trigger key_pair_names(kps)[a], key_pair_names(kps)[b]]
            0 <= a < b < kps.len() && i <= b ==> key_pair_names(kps)[a] != key_pair_names(kps)[b],
        key_pair_error_from(kps, i) matches Some(e) ==> e matches ValidationErrorView::KeyTypeCount {
            key_pair,
            count,
        } ==> count != 1 && exists|b: int|
            0 <= b < kps.len() && (#[trigger] kps[b]).name@ == key_pair && kps[b].key_type@.len()
                == count,
        key_pair_error_from(kps, i) matches Some(e) ==> e matches ValidationErrorView::DuplicateName {
            kind,
            name,
        } ==> kind == NameKind::KeyPair && name_shared(key_pair_names(kps), name),
        key_pair_error_from(kps, i) matches Some(e) ==> (e is KeyTypeCount || e is DuplicateName),
    decreases kps.len() - i,
{
    let names = key_pair_names(kps);
    if i < kps.len() {
        lemma_key_pair_error_from(kps, i + 1);
        assert(names[i] == kps[i].name@);
        if kps[i].key_type@.len() != 1 {
        } else if names.subrange(0, i).contains(kps[i].name@) {
            let a = choose|a: int| 0 <= a < i && names.subrange(0, i)[a] == kps[i].name@;
            assert(names[a] == names[i]);
        } else {
            assert forall|a: int, b: int|
                #![trigger names[a], names[b]]
                0 <= a < b < kps.len() && i <= b && (forall|a2: int, b2: int|
                    #![trigger names[a2], names[b2]]
                    0 <= a2 < b2 < kps.len() && i + 1 <= b2 ==> names[a2] != names[b2])
                implies names[a] != names[b] by {
                if b == i {
                    assert(names.subrange(0, i)[a] == names[a]);
                }
            }
        }
    }
}

proof fn lemma_certificate_error(doc: Document, c: Certificate)
    ensures
        certificate_error(doc, c) is None <==> references_resolve(doc, c),
        certificate_error(doc, c) matches Some(e) ==> match e {
            ValidationErrorView::MissingReference { certificate, field, target } => certificate
                == c.name@ && reference_of(c, field) == Some(target) && !names_of_kind(
                doc,
                target_kind(field),
            ).contains(target),
            ValidationErrorView::MissingIssuer { certificate } => certificate == c.name@
                && c.issuer_entity is None && c.issuer_certificate is None,
            ValidationErrorView::ConflictingIssuers { certificate } => certificate == c.name@
                && c.issuer_entity is Some && c.issuer_certificate is Some,
            _ => false,
        },
{
}

proof fn lemma_certificate_error_from(doc: Document, i: int)
    requires
        0 <= i <= doc.certificates@.len(),
    ensures
        certificate_error_from(doc, i) is None <==> forall|k: int|
            i <= k < doc.certificates@.len() ==> references_resolve(
                doc,
                #[trigger] doc.certificates@[k],
            ),
        certificate_error_from(doc, i) matches Some(e) ==> exists|k: int|
            i <= k < doc.certificates@.len() && certificate_error(
                doc,
                #[trigger] doc.certificates@[k],
            ) == Some(e),
    decreases doc.certificates@.len() - i,
{
    if i < doc.certificates@.len() {
        lemma_certificate_error(doc, doc.certificates@[i]);
        lemma_certificate_error_from(doc, i + 1);
    }
}

/// The first broken certificate decides the error of the reference phase.
proof fn lemma_first_broken_certificate(doc: Document, i: int, j: int)
    requires
        0 <= j <= i < doc.certificates@.len(),
        forall|k: int| 0 <= k < i ==> certificate_error(doc, #[trigger] doc.certificates@[k]) is None,
    ensures
        certificate_error_from(doc, j) == if certificate_error(doc, doc.certificates@[i]) is Some {
            certificate_error(doc, doc.certificates@[i])
        } else {
            certificate_error_from(doc, i + 1)
        },
    decreases i - j,
{
    if j < i {
        assert(certificate_error(doc, doc.certificates@[j]) is None);
        lemma_first_broken_certificate(doc, i, j + 1);
    }
}

/// Validation passes exactly on the well-formed descriptions: every key pair
/// has one key type, names are unique within each kind, and every
/// certificate's references resolve against the complete name lists, with
/// exactly one issuer named. Since a certificate's issuer is looked up among
/// all certificates, it may be declared before or after the certificate.
pub proof fn lemma_valid_iff_well_formed(doc: Document)
    ensures
        validation_error(doc) is None <==> well_formed(doc),
{
    lemma_key_pair_error_from(doc.key_pairs@, 0);
    lemma_duplicate_from(entity_names(doc), 0);
    lemma_duplicate_from(certificate_names(doc), 0);
    lemma_certificate_error_from(doc, 0);
}

/// Every error that validation reports is a real violation: the key pair,
/// the shared name, or the certificate and the absent name it gives exist in
/// the description as the error says.
pub proof fn lemma_error_is_genuine(doc: Document)
    ensures
        validation_error(doc) matches Some(e) ==> error_is_genuine(doc, e),
{
    lemma_key_pair_error_from(doc.key_pairs@, 0);
    lemma_duplicate_from(entity_names(doc), 0);
    lemma_duplicate_from(certificate_names(doc), 0);
    lemma_certificate_error_from(doc, 0);
    if validation_error(doc) is Some && key_pair_error_from(doc.key_pairs@, 0) is None && duplicate_from(
        entity_names(doc),
        0,
    ) is None && duplicate_from(certificate_names(doc), 0) is None {
        let k = choose|k: int|
            0 <= k < doc.certificates@.len() && certificate_error(
                doc,
                #[trigger] doc.certificates@[k],
            ) == validation_error(doc);
        lemma_certificate_error(doc, doc.certificates@[k]);
    }
}

/// The checks that validation makes before it compares the names of `kind`.
pub open spec fn checks_before_names(doc: Document, kind: NameKind) -> bool {
    let key_types_ok = forall|i: int|
        0 <= i < doc.key_pairs@.len() ==> (#[trigger] doc.key_pairs@[i]).key_type@.len() == 1;
    match kind {
        NameKind::KeyPair => key_types_ok,
        NameKind::Entity => key_types_ok && names_unique(key_pair_names(doc.key_pairs@)),
        NameKind::Certificate => key_types_ok && names_unique(key_pair_names(doc.key_pairs@))
            && names_unique(entity_names(doc)),
    }
}

/// Two items of one kind that share a name make validation fail. Once the
/// checks that come before that kind pass, the failure is a duplicate-name
/// error of that kind, naming a name that two of its items share.
pub proof fn lemma_duplicate_name_rejected(doc: Document, kind: NameKind, a: int, b: int)
    requires
        0 <= a < b < names_of_kind(doc, kind).len(),
        names_of_kind(doc, kind)[a] == names_of_kind(doc, kind)[b],
    ensures
        validation_error(doc) is Some,
        checks_before_names(doc, kind) ==> (validation_error(doc) matches Some(
            ValidationErrorView::DuplicateName { kind: k, name },
        ) && k == kind && name_shared(names_of_kind(doc, kind), name)),
{
    lemma_valid_iff_well_formed(doc);
    lemma_error_is_genuine(doc);
    lemma_key_pair_error_from(doc.key_pairs@, 0);
    lemma_duplicate_from(entity_names(doc), 0);
    lemma_duplicate_from(certificate_names(doc), 0);
    let names = names_of_kind(doc, kind);
    assert(!names_unique(names));
}

/// A key pair with a number of key types other than one makes validation
/// fail. When every earlier key pair has one key type and their names are
/// distinct, the failure names that key pair and its count.
pub proof fn lemma_key_type_count_rejected(doc: Document, i: int)
    requires
        0 <= i < doc.key_pairs@.len(),
        doc.key_pairs@[i].key_type@.len() != 1,
    ensures
        validation_error(doc) is Some,
        (forall|j: int| 0 <= j < i ==> (#[trigger] doc.key_pairs@[j]).key_type@.len() == 1)
            && names_unique(key_pair_names(doc.key_pairs@).subrange(0, i))
            ==> validation_error(doc) == Some(
            ValidationErrorView::KeyTypeCount {
                key_pair: doc.key_pairs@[i].name@,
                count: doc.key_pairs@[i].key_type@.len(),
            },
        ),
{
    lemma_valid_iff_well_formed(doc);
    let kps = doc.key_pairs@;
    if (forall|j: int| 0 <= j < i ==> (#[trigger] kps[j]).key_type@.len() == 1) && names_unique(
        key_pair_names(kps).subrange(0, i),
    ) {
        lemma_key_pair_prefix(kps, i, 0);
    }
}

proof fn lemma_key_pair_prefix(kps: Seq<KeyPair>, i: int, j: int)
    requires
        0 <= j <= i < kps.len(),
        forall|k: int| 0 <= k < i ==> (#[trigger] kps[k]).key_type@.len() == 1,
        names_unique(key_pair_names(kps).subrange(0, i)),
    ensures
        key_pair_error_from(kps, j) == key_pair_error_from(kps, i),
    decreases i - j,
{
    if j < i {
        let names = key_pair_names(kps);
        if names.subrange(0, j).contains(kps[j].name@) {
            let a = choose|a: int| 0 <= a < j && names.subrange(0, j)[a] == kps[j].name@;
            let pre = names.subrange(0, i);
            assert(pre[a] == names[a] && pre[j] == names[j]);
        }
        lemma_key_pair_prefix(kps, i, j + 1);
    }
}

/// The checks that validation makes before it looks at certificate `i`'s
/// issuer: every earlier check passes and its subject references resolve.
pub open spec fn checks_before_issuer(doc: Document, i: int) -> bool {
    let c = doc.certificates@[i];
    &&& checks_before_names(doc, NameKind::Certificate)
    &&& names_unique(certificate_names(doc))
    &&& forall|k: int| 0 <= k < i ==> references_resolve(doc, #[trigger] doc.certificates@[k])
    &&& entity_names(doc).contains(c.subject_entity@)
    &&& key_pair_names(doc.key_pairs@).contains(c.subject_key@)
}

/// A certificate must name exactly one issuer: naming none or both makes
/// validation fail, with the matching issuer-selection error once every
/// check before it passes.
pub proof fn lemma_issuer_selection_rejected(doc: Document, i: int)
    requires
        0 <= i < doc.certificates@.len(),
        doc.certificates@[i].issuer_entity is Some <==> doc.certificates@[i].issuer_certificate is Some,
    ensures
        validation_error(doc) is Some,
        checks_before_issuer(doc, i) && doc.certificates@[i].issuer_entity is None
            ==> validation_error(doc) == Some(
            ValidationErrorView::MissingIssuer { certificate: doc.certificates@[i].name@ },
        ),
        checks_before_issuer(doc, i) && doc.certificates@[i].issuer_entity is Some
            ==> validation_error(doc) == Some(
            ValidationErrorView::ConflictingIssuers { certificate: doc.certificates@[i].name@ },
        ),
{
    lemma_valid_iff_well_formed(doc);
    if checks_before_issuer(doc, i) {
        lemma_key_pair_error_from(doc.key_pairs@, 0);
        lemma_duplicate_from(entity_names(doc), 0);
        lemma_duplicate_from(certificate_names(doc), 0);
        assert forall|k: int| 0 <= k < i implies certificate_error(
            doc,
            #[trigger] doc.certificates@[k],
        ) is None by {
            lemma_certificate_error(doc, doc.certificates@[k]);
        }
        lemma_first_broken_certificate(doc, i, 0);
    }
}

/// A description that validates names exactly one issuer in each certificate.
pub proof fn lemma_valid_has_one_issuer(doc: Document, i: int)
    requires
        0 <= i < doc.certificates@.len(),
        validation_error(doc) is None,
    ensures
        doc.certificates@[i].issuer_entity is Some != doc.certificates@[i].issuer_certificate is Some,
{
    lemma_valid_iff_well_formed(doc);
    assert(references_resolve(doc, doc.certificates@[i]));
}

/// A certificate reference that names nothing of its kind makes validation
/// fail; by `lemma_error_is_genuine` the error that comes out names a
/// certificate and the absent name it gives.
pub proof fn lemma_missing_reference_rejected(doc: Document, i: int, field: ReferenceField)
    requires
        0 <= i < doc.certificates@.len(),
        reference_of(doc.certificates@[i], field) is Some,
        !names_of_kind(doc, target_kind(field)).contains(
            reference_of(doc.certificates@[i], field)->0,
        ),
    ensures
        validation_error(doc) is Some,
{
    lemma_valid_iff_well_formed(doc);
    assert(!references_resolve(doc, doc.certificates@[i]));
}

/// One key pair with one key type, one entity, and one certificate that
/// names that entity as subject and issuer and that key pair as subject and
/// issuer key: such a description validates, and `validate` hands it back
/// unchanged, so validating again gives the same result.
pub proof fn lemma_minimal_document_valid(doc: Document)
    requires
        doc.key_pairs@.len() == 1,
        doc.key_pairs@[0].key_type@.len() == 1,
        doc.entities@.len() == 1,
        doc.certificates@.len() == 1,
        doc.certificates@[0].subject_entity@ == doc.entities@[0].name@,
        doc.certificates@[0].issuer_entity matches Some(e) && e@ == doc.entities@[0].name@,
        doc.certificates@[0].issuer_certificate is None,
        doc.certificates@[0].subject_key@ == doc.key_pairs@[0].name@,
        doc.certificates@[0].issuer_key@ == doc.key_pairs@[0].name@,
    ensures
        validation_error(doc) is None,
{
    lemma_valid_iff_well_formed(doc);
    assert(entity_names(doc)[0] == doc.entities@[0].name@);
    assert(key_pair_names(doc.key_pairs@)[0] == doc.key_pairs@[0].name@);
    assert(references_resolve(doc, doc.certificates@[0]));
}

/// `d2` is `d1` with certificates `i` and `j` exchanged.
pub open spec fn certificates_swapped(d1: Document, d2: Document, i: int, j: int) -> bool {
    &&& 0 <= i < d1.certificates@.len()
    &&& 0 <= j < d1.certificates@.len()
    &&& d2.key_pairs == d1.key_pairs
    &&& d2.entities == d1.entities
    &&& d2.certificates@ == d1.certificates@.update(i, d1.certificates@[j]).update(
        j,
        d1.certificates@[i],
    )
}

pub open spec fn swap_index(k: int, i: int, j: int) -> int {
    if k == i {
        j
    } else if k == j {
        i
    } else {
        k
    }
}

proof fn lemma_swap_keeps_well_formed(d1: Document, d2: Document, i: int, j: int)
    requires
        certificates_swapped(d1, d2, i, j),
        well_formed(d1),
    ensures
        well_formed(d2),
{
    let n1 = certificate_names(d1);
    let n2 = certificate_names(d2);
    let len = d1.certificates@.len();
    assert(n2.len() == len);
    assert forall|k: int| 0 <= k < len implies #[trigger] d2.certificates@[k]
        == d1.certificates@[swap_index(k, i, j)] && n2[k] == n1[swap_index(k, i, j)] by {}
    assert(entity_names(d2) == entity_names(d1));
    assert forall|a: int, b: int|
        #![trigger n2[a], n2[b]]
        0 <= a < b < n2.len() implies n2[a] != n2[b] by {
        let sa = swap_index(a, i, j);
        let sb = swap_index(b, i, j);
        assert(d2.certificates@[a] == d1.certificates@[sa]);
        assert(d2.certificates@[b] == d1.certificates@[sb]);
        if sa < sb {
            assert(n1[sa] != n1[sb]);
        } else {
            assert(n1[sb] != n1[sa]);
        }
    }
    assert forall|x: Seq<char>| n1.contains(x) implies n2.contains(x) by {
        let k = choose|k: int| 0 <= k < n1.len() && n1[k] == x;
        let sk = swap_index(k, i, j);
        assert(d2.certificates@[sk] == d1.certificates@[k]);
        assert(n2[sk] == x);
    }
    assert forall|k: int| 0 <= k < len implies references_resolve(
        d2,
        #[trigger] d2.certificates@[k],
    ) by {
        let sk = swap_index(k, i, j);
        assert(d2.certificates@[k] == d1.certificates@[sk]);
        assert(references_resolve(d1, d1.certificates@[sk]));
    }
}

/// Whether a description validates does not depend on the order of its
/// certificates: exchanging two of them keeps it valid or invalid. In
/// particular a certificate may name as issuer one declared after it.
pub proof fn lemma_certificate_order_irrelevant(d1: Document, d2: Document, i: int, j: int)
    requires
        certificates_swapped(d1, d2, i, j),
    ensures
        validation_error(d1) is None <==> validation_error(d2) is None,
{
    lemma_valid_iff_well_formed(d1);
    lemma_valid_iff_well_formed(d2);
    assert(d1.certificates@ =~= d2.certificates@.update(i, d2.certificates@[j]).update(
        j,
        d2.certificates@[i],
    ));
    if well_formed(d1) {
        lemma_swap_keeps_well_formed(d1, d2, i, j);
    }
    if well_formed(d2) {
        lemma_swap_keeps_well_formed(d2, d1, i, j);
    }
}

} // verus!
