//! Resolution of certificate policies to object identifiers.
//!
//! Each well-known policy has a fixed dotted identifier; an `Oid` entry
//! carries its own. The dotted text is parsed by const-oid (through
//! x509-cert), and the result is wrapped as a policy with no qualifiers.

use vstd::prelude::*;

use x509_cert::ext::pkix::certpolicy::{PolicyInformation, PolicyQualifierInfo};
use x509_cert::spki::ObjectIdentifier;

use crate::model::{CertificatePoliciesExtension, CertificatePolicy};

verus! {

#[verifier::external_type_specification]
#[verifier::external_body]
pub struct ExObjectIdentifier(ObjectIdentifier);

#[verifier::external_type_specification]
#[verifier::external_body]
pub struct ExPolicyQualifierInfo(PolicyQualifierInfo);

#[verifier::external_type_specification]
pub struct ExPolicyInformation(PolicyInformation);

/// The longest dotted text handed to the parser.
pub const MAX_OID_TEXT_LEN: usize = 1024;

/// The largest value of one arc.
pub const MAX_ARC: u64 = 0xffff_ffff;

pub open spec fn is_digit(c: char) -> bool {
    '0' <= c <= '9'
}

pub open spec fn digit_value(c: char) -> nat {
    (c as nat - '0' as nat) as nat
}

/// Every run of digits in `s`, read as a decimal number that starts from
/// `acc`, stays within `MAX_ARC`.
pub open spec fn arcs_fit_from(s: Seq<char>, acc: nat) -> bool
    decreases s.len(),
{
    if s.len() == 0 {
        true
    } else if is_digit(s[0]) {
        let v = acc * 10 + digit_value(s[0]);
        v <= MAX_ARC && arcs_fit_from(s.drop_first(), v)
    } else {
        arcs_fit_from(s.drop_first(), 0)
    }
}

/// Text that the parser can be given: short, and with every arc within 32 bits.
pub open spec fn oid_text_bounded(s: Seq<char>) -> bool {
    s.len() <= MAX_OID_TEXT_LEN && arcs_fit_from(s, 0)
}

/// Whether const-oid accepts `s` as a dotted object identifier.
pub uninterp spec fn oid_accepts(s: Seq<char>) -> bool;

/// The identifier that const-oid parses from `s`, where it accepts `s`.
pub uninterp spec fn oid_of(s: Seq<char>) -> ObjectIdentifier;

/// Relies on const_oid's `ObjectIdentifier::new` (reached as
/// `x509_cert::spki::ObjectIdentifier`): it parses dotted text and succeeds or
/// fails on the text alone. Its parser accumulates each arc in a `u32` without
/// an overflow check and recurses once per byte, hence the bound on the text.
/// The identifier it returns is likewise a function of the text.
#[verifier::external_body]
fn parse_oid(s: &str) -> (r: Option<ObjectIdentifier>)
    requires
        oid_text_bounded(s@),
    ensures
        r is Some <==> oid_accepts(s@),
        r matches Some(o) ==> o == oid_of(s@),
{
    ObjectIdentifier::new(s).ok()
}

/// The dotted identifier of each policy.
pub open spec fn policy_oid_text(p: CertificatePolicy) -> Seq<char> {
    match p {
        CertificatePolicy::TcgDiceKpIdentityInit => "2.23.133.5.4.100.6"@,
        CertificatePolicy::TcgDiceKpIdentityLoc => "2.23.133.5.4.100.7"@,
        CertificatePolicy::TcgDiceKpAttestInit => "2.23.133.5.4.100.8"@,
        CertificatePolicy::TcgDiceKpAttestLoc => "2.23.133.5.4.100.9"@,
        CertificatePolicy::TcgDiceKpAssertInit => "2.23.133.5.4.100.10"@,
        CertificatePolicy::TcgDiceKpAssertLoc => "2.23.133.5.4.100.11"@,
        CertificatePolicy::TcgDiceKpEca => "2.23.133.5.4.100.12"@,
        CertificatePolicy::OanaRotCodeSigningRelease => "1.3.6.1.4.1.57551.1.1"@,
        CertificatePolicy::OanaRotCodeSigningDevelopment => "1.3.6.1.4.1.57551.1.2"@,
        CertificatePolicy::OanaPlatformIdentity => "1.3.6.1.4.1.57551.1.3"@,
        CertificatePolicy::Oid(s) => s@,
    }
}

/// Whether the policy resolves: its text is within bounds and parses.
pub open spec fn policy_resolves(p: CertificatePolicy) -> bool {
    oid_text_bounded(policy_oid_text(p)) && oid_accepts(policy_oid_text(p))
}

/// `info` is the resolved form of `p`: the identifier parsed from its dotted
/// text, with no qualifiers.
pub open spec fn resolves_to(p: CertificatePolicy, info: PolicyInformation) -> bool {
    info.policy_identifier == oid_of(policy_oid_text(p)) && info.policy_qualifiers is None
}

/// A dotted identifier that could not be resolved.
#[derive(Debug, Clone, PartialEq, Eq)]
pub struct OidFormatError {
    pub oid: String,
}

/// Whether every arc of `s` fits in 32 bits and `s` is short enough.
pub fn oid_text_in_bounds(s: &str) -> (r: bool)
    ensures
        r == oid_text_bounded(s@),
{
    let n = s.unicode_len();
    if n > MAX_OID_TEXT_LEN {
        return false;
    }
    let mut acc: u64 = 0;
    let mut i: usize = 0;
    assert(s@.subrange(0, n as int) =~= s@);
    while i < n
        invariant
            n == s@.len(),
            i <= n,
            acc <= MAX_ARC,
            arcs_fit_from(s@, 0) == arcs_fit_from(s@.subrange(i as int, n as int), acc as nat),
        decreases n - i,
    {
        let c = s.get_char(i);
        assert(s@.subrange(i as int, n as int).drop_first() =~= s@.subrange(i + 1, n as int));
        if '0' <= c && c <= '9' {
            let d = (c as u32 - '0' as u32) as u64;
            let v = acc * 10 + d;
            if v > MAX_ARC {
                return false;
            }
            acc = v;
        } else {
            acc = 0;
        }
        i += 1;
    }
    assert(s@.subrange(n as int, n as int).len() == 0);
    true
}

impl CertificatePolicy {
    /// The dotted identifier of this policy.
    pub fn oid_text(&self) -> (r: &str)
        ensures
            r@ == policy_oid_text(*self),
    {
        match self {
            CertificatePolicy::TcgDiceKpIdentityInit => "2.23.133.5.4.100.6",
            CertificatePolicy::TcgDiceKpIdentityLoc => "2.23.133.5.4.100.7",
            CertificatePolicy::TcgDiceKpAttestInit => "2.23.133.5.4.100.8",
            CertificatePolicy::TcgDiceKpAttestLoc => "2.23.133.5.4.100.9",
            CertificatePolicy::TcgDiceKpAssertInit => "2.23.133.5.4.100.10",
            CertificatePolicy::TcgDiceKpAssertLoc => "2.23.133.5.4.100.11",
            CertificatePolicy::TcgDiceKpEca => "2.23.133.5.4.100.12",
            CertificatePolicy::OanaRotCodeSigningRelease => "1.3.6.1.4.1.57551.1.1",
            CertificatePolicy::OanaRotCodeSigningDevelopment => "1.3.6.1.4.1.57551.1.2",
            CertificatePolicy::OanaPlatformIdentity => "1.3.6.1.4.1.57551.1.3",
            CertificatePolicy::Oid(s) => s.as_str(),
        }
    }

    /// The policy as it is embedded in a certificate: its identifier, parsed,
    /// with no qualifiers.
    pub fn policy_information(&self) -> (r: Result<PolicyInformation, OidFormatError>)
        ensures
            r is Ok <==> policy_resolves(*self),
            r matches Ok(info) ==> resolves_to(*self, info),
            r matches Err(e) ==> e.oid@ == policy_oid_text(*self),
    {
        let text = self.oid_text();
        if oid_text_in_bounds(text) {
            match parse_oid(text) {
                Some(oid) => {
                    return Ok(PolicyInformation { policy_identifier: oid, policy_qualifiers: None });
                },
                None => {},
            }
        }
        Err(OidFormatError { oid: text.to_owned() })
    }
}

/// A policy entry of a certificate-policies extension that could not be
/// resolved: its position among the entries and its dotted text.
#[derive(Debug, Clone, PartialEq, Eq)]
pub struct PolicyEntryError {
    pub index: usize,
    pub oid: String,
}

impl CertificatePoliciesExtension {
    /// Resolves every entry, in order, stopping at the first that does not
    /// resolve. Entries are neither merged nor deduplicated.
    pub fn policy_information(&self) -> (r: Result<Vec<PolicyInformation>, PolicyEntryError>)
        ensures
            r is Ok <==> forall|i: int|
                0 <= i < self.policies@.len() ==> policy_resolves(#[trigger] self.policies@[i]),
            r matches Ok(v) ==> v@.len() == self.policies@.len() && forall|i: int|
                0 <= i < v@.len() ==> resolves_to(self.policies@[i], #[trigger] v@[i]),
            r matches Err(e) ==> {
                &&& e.index < self.policies@.len()
                &&& !policy_resolves(self.policies@[e.index as int])
                &&& e.oid@ == policy_oid_text(self.policies@[e.index as int])
                &&& forall|j: int| 0 <= j < e.index ==> policy_resolves(#[trigger] self.policies@[j])
            },
    {
        let mut out: Vec<PolicyInformation> = Vec::new();
        let mut i: usize = 0;
        while i < self.policies.len()
            invariant
                i <= self.policies@.len(),
                out@.len() == i,
                forall|j: int| 0 <= j < i ==> policy_resolves(#[trigger] self.policies@[j]),
                forall|j: int| 0 <= j < i ==> resolves_to(self.policies@[j], #[trigger] out@[j]),
            decreases self.policies@.len() - i,
        {
            match self.policies[i].policy_information() {
                Ok(info) => out.push(info),
                Err(e) => {
                    return Err(PolicyEntryError { index: i, oid: e.oid });
                },
            }
            i += 1;
        }
        Ok(out)
    }
}

/// Two policies with the same dotted text resolve alike: a well-known policy
/// and an `Oid` entry that spells out its identifier both succeed or both
/// fail, and give the same identifier.
pub proof fn lemma_same_text_same_resolution(p: CertificatePolicy, q: CertificatePolicy)
    requires
        policy_oid_text(p) == policy_oid_text(q),
    ensures
        policy_resolves(p) == policy_resolves(q),
        forall|info: PolicyInformation| resolves_to(p, info) == resolves_to(q, info),
{
}

/// No two well-known policies share an identifier text.
pub proof fn lemma_well_known_texts_distinct(p: CertificatePolicy, q: CertificatePolicy)
    requires
        p !is Oid,
        q !is Oid,
        p != q,
    ensures
        policy_oid_text(p) != policy_oid_text(q),
{
    reveal_strlit("2.23.133.5.4.100.6");
    reveal_strlit("2.23.133.5.4.100.7");
    reveal_strlit("2.23.133.5.4.100.8");
    reveal_strlit("2.23.133.5.4.100.9");
    reveal_strlit("2.23.133.5.4.100.10");
    reveal_strlit("2.23.133.5.4.100.11");
    reveal_strlit("2.23.133.5.4.100.12");
    reveal_strlit("1.3.6.1.4.1.57551.1.1");
    reveal_strlit("1.3.6.1.4.1.57551.1.2");
    reveal_strlit("1.3.6.1.4.1.57551.1.3");
    let a = policy_oid_text(p);
    let b = policy_oid_text(q);
    if a.len() == b.len() {
        assert(a[a.len() - 1] != b[b.len() - 1] || a[0] != b[0]);
    }
}

} // verus!
