use vstd::prelude::*;
use vstd::utf8::*;

verus! {

/// Days for which the certificate authority is valid.
pub const AUTHORITY_VALIDITY_DAYS: u32 = 3650;

/// Days for which a leaf certificate is valid.
pub const LEAF_VALIDITY_DAYS: u32 = 365;

/// Bits of randomness in a certificate's serial number.
pub const SERIAL_BITS: i32 = 128;

/// The X.509 version that every certificate has: version 3, which the
/// encoding counts from zero.
pub const X509_VERSION: i32 = 2;

/// The kind of a subject alternative name.
#[derive(Clone, Copy, Debug, PartialEq, Eq, Structural)]
pub enum NameKind {
    Ip,
    Dns,
}

/// One subject alternative name.
pub struct SubjectAltName {
    pub kind: NameKind,
    pub value: String,
}

impl View for SubjectAltName {
    type V = (NameKind, Seq<char>);

    open spec fn view(&self) -> (NameKind, Seq<char>) {
        (self.kind, self.value@)
    }
}

/// A flag of the basic constraints extension.
#[derive(Clone, Copy, Debug, PartialEq, Eq, Structural)]
pub enum ConstraintFlag {
    /// The extension is critical.
    Critical,
    /// The subject is a certificate authority.
    Authority,
}

/// A flag of the key usage extension.
#[derive(Clone, Copy, Debug, PartialEq, Eq, Structural)]
pub enum UsageFlag {
    DigitalSignature,
    KeyEncipherment,
    KeyCertSign,
}

/// A flag of the extended key usage extension.
#[derive(Clone, Copy, Debug, PartialEq, Eq, Structural)]
pub enum PurposeFlag {
    /// The extension is critical.
    Critical,
    ServerAuth,
    ClientAuth,
}

/// Whose name a certificate carries as its issuer, and whose key signs it.
#[derive(Clone, Copy, Debug, PartialEq, Eq, Structural)]
pub enum Issuer {
    /// The certificate's own subject and key: it is self-signed.
    Own,
    /// The subject and key of the certificate authority.
    Authority,
}

/// What issuing sets on a certificate beside its subject, its key and its
/// extensions: the version, the validity as days from the moment of
/// issuing, the size of the random serial number, whose name goes in as the
/// issuer, and whose key signs.
#[derive(Clone, Copy, Debug, PartialEq, Eq, Structural)]
pub struct Issuance {
    pub version: i32,
    pub not_before_days: u32,
    pub not_after_days: u32,
    pub serial_bits: i32,
    pub issuer_name: Issuer,
    pub signing_key: Issuer,
}

/// Whether every DNS name among `names` is short enough for the
/// cryptographic library to take it.
pub open spec fn names_fit(names: Seq<(NameKind, Seq<char>)>) -> bool {
    forall|i: int|
        0 <= i < names.len() && (#[trigger] names[i]).0 == NameKind::Dns ==> encode_utf8(
            names[i].1,
        ).len() <= i32::MAX
}

/// What a certificate is to hold, as contracts speak of it.
pub struct Profile {
    pub organization: Seq<char>,
    pub common_name: Seq<char>,
    pub issuer: Issuer,
    pub validity_days: nat,
    pub basic_constraints_critical: bool,
    pub certificate_authority: bool,
    pub digital_signature: bool,
    pub key_encipherment: bool,
    pub key_cert_sign: bool,
    pub extended_key_usage_critical: bool,
    pub server_auth: bool,
    pub client_auth: bool,
    pub subject_alt_names: Seq<(NameKind, Seq<char>)>,
}

/// The loopback address, which every leaf certificate names.
pub open spec fn loopback() -> Seq<char> {
    "127.0.0.1"@
}

/// The subject alternative names of a leaf: loopback, the host's name, and
/// the role's extra addresses in the order given, none left out or merged.
pub open spec fn leaf_names(hostname: Seq<char>, extra_ips: Seq<Seq<char>>) -> Seq<
    (NameKind, Seq<char>),
> {
    seq![(NameKind::Ip, loopback()), (NameKind::Dns, hostname)] + Seq::new(
        extra_ips.len(),
        |i: int| (NameKind::Ip, extra_ips[i]),
    )
}

impl Profile {
    /// What issuing sets beside subject, key and extensions: version 3, a
    /// validity from the moment of issuing for the profile's days, a serial
    /// number of 128 random bits, and the issuer's name and key as the
    /// profile names the issuer.
    pub open spec fn issuance(self) -> Issuance {
        Issuance {
            version: X509_VERSION,
            not_before_days: 0,
            not_after_days: self.validity_days as u32,
            serial_bits: SERIAL_BITS,
            issuer_name: self.issuer,
            signing_key: self.issuer,
        }
    }

    /// The flags of the basic constraints extension that are set.
    pub open spec fn constraint_flags(self) -> Set<ConstraintFlag> {
        Set::new(
            |flag: ConstraintFlag|
                match flag {
                    ConstraintFlag::Critical => self.basic_constraints_critical,
                    ConstraintFlag::Authority => self.certificate_authority,
                },
        )
    }

    /// The flags of the key usage extension that are set.
    pub open spec fn usage_flags(self) -> Set<UsageFlag> {
        Set::new(
            |flag: UsageFlag|
                match flag {
                    UsageFlag::DigitalSignature => self.digital_signature,
                    UsageFlag::KeyEncipherment => self.key_encipherment,
                    UsageFlag::KeyCertSign => self.key_cert_sign,
                },
        )
    }

    /// The flags of the extended key usage extension that are set.
    pub open spec fn purpose_flags(self) -> Set<PurposeFlag> {
        Set::new(
            |flag: PurposeFlag|
                match flag {
                    PurposeFlag::Critical => self.extended_key_usage_critical,
                    PurposeFlag::ServerAuth => self.server_auth,
                    PurposeFlag::ClientAuth => self.client_auth,
                },
        )
    }

    /// The certificate authority: self-signed, valid for ten years, the
    /// basic constraint critical and set, allowed to sign certificates.
    pub open spec fn authority(organization: Seq<char>, common_name: Seq<char>) -> Profile {
        Profile {
            organization,
            common_name,
            issuer: Issuer::Own,
            validity_days: AUTHORITY_VALIDITY_DAYS as nat,
            basic_constraints_critical: true,
            certificate_authority: true,
            digital_signature: true,
            key_encipherment: true,
            key_cert_sign: true,
            extended_key_usage_critical: true,
            server_auth: true,
            client_auth: true,
            subject_alt_names: Seq::empty(),
        }
    }

    /// A leaf: issued by the authority, valid for one year, no authority
    /// itself, for server and client authentication.
    pub open spec fn leaf(
        organization: Seq<char>,
        common_name: Seq<char>,
        hostname: Seq<char>,
        extra_ips: Seq<Seq<char>>,
    ) -> Profile {
        Profile {
            organization,
            common_name,
            issuer: Issuer::Authority,
            validity_days: LEAF_VALIDITY_DAYS as nat,
            basic_constraints_critical: false,
            certificate_authority: false,
            digital_signature: true,
            key_encipherment: true,
            key_cert_sign: false,
            extended_key_usage_critical: true,
            server_auth: true,
            client_auth: true,
            subject_alt_names: leaf_names(hostname, extra_ips),
        }
    }
}

/// What a certificate is to hold: every choice that issuing makes, fixed
/// before the first call into the cryptographic library.
pub struct CertificateProfile {
    pub organization: String,
    pub common_name: String,
    pub issuer: Issuer,
    pub validity_days: u32,
    pub basic_constraints_critical: bool,
    pub certificate_authority: bool,
    pub digital_signature: bool,
    pub key_encipherment: bool,
    pub key_cert_sign: bool,
    pub extended_key_usage_critical: bool,
    pub server_auth: bool,
    pub client_auth: bool,
    pub subject_alt_names: Vec<SubjectAltName>,
}

impl View for CertificateProfile {
    type V = Profile;

    open spec fn view(&self) -> Profile {
        Profile {
            organization: self.organization@,
            common_name: self.common_name@,
            issuer: self.issuer,
            validity_days: self.validity_days as nat,
            basic_constraints_critical: self.basic_constraints_critical,
            certificate_authority: self.certificate_authority,
            digital_signature: self.digital_signature,
            key_encipherment: self.key_encipherment,
            key_cert_sign: self.key_cert_sign,
            extended_key_usage_critical: self.extended_key_usage_critical,
            server_auth: self.server_auth,
            client_auth: self.client_auth,
            subject_alt_names: Seq::new(
                self.subject_alt_names@.len(),
                |i: int| self.subject_alt_names@[i]@,
            ),
        }
    }
}

impl CertificateProfile {
    /// What issuing sets beside subject, key and extensions.
    pub fn issuance(&self) -> (plan: Issuance)
        ensures
            plan == self@.issuance(),
    {
        Issuance {
            version: X509_VERSION,
            not_before_days: 0,
            not_after_days: self.validity_days,
            serial_bits: SERIAL_BITS,
            issuer_name: self.issuer,
            signing_key: self.issuer,
        }
    }

    /// The profile of the certificate authority.
    pub fn authority(organization: &str, common_name: &str) -> (profile: CertificateProfile)
        ensures
            profile@ == Profile::authority(organization@, common_name@),
    {
        let profile = CertificateProfile {
            organization: organization.to_owned(),
            common_name: common_name.to_owned(),
            issuer: Issuer::Own,
            validity_days: AUTHORITY_VALIDITY_DAYS,
            basic_constraints_critical: true,
            certificate_authority: true,
            digital_signature: true,
            key_encipherment: true,
            key_cert_sign: true,
            extended_key_usage_critical: true,
            server_auth: true,
            client_auth: true,
            subject_alt_names: Vec::new(),
        };
        assert(profile@.subject_alt_names =~= Seq::empty());
        profile
    }

    /// The profile of a leaf for a role on the host `hostname`.
    pub fn leaf(organization: &str, common_name: &str, hostname: &str, extra_ips: &Vec<String>) -> (profile:
        CertificateProfile)
        ensures
            profile@ == Profile::leaf(
                organization@,
                common_name@,
                hostname@,
                Seq::new(extra_ips@.len(), |i: int| extra_ips@[i]@),
            ),
    {
        let mut names: Vec<SubjectAltName> = Vec::new();
        names.push(SubjectAltName { kind: NameKind::Ip, value: "127.0.0.1".to_owned() });
        names.push(SubjectAltName { kind: NameKind::Dns, value: hostname.to_owned() });
        let ghost extra = Seq::new(extra_ips@.len(), |i: int| extra_ips@[i]@);
        let mut i: usize = 0;
        while i < extra_ips.len()
            invariant
                i <= extra_ips.len(),
                extra == Seq::new(extra_ips@.len(), |i: int| extra_ips@[i]@),
                names@.len() == 2 + i,
                forall|j: int| 0 <= j < names@.len() ==> #[trigger] names@[j]@ == leaf_names(hostname@, extra)[j],
            decreases extra_ips.len() - i,
        {
            names.push(SubjectAltName { kind: NameKind::Ip, value: extra_ips[i].clone() });
            i += 1;
        }
        let profile = CertificateProfile {
            organization: organization.to_owned(),
            common_name: common_name.to_owned(),
            issuer: Issuer::Authority,
            validity_days: LEAF_VALIDITY_DAYS,
            basic_constraints_critical: false,
            certificate_authority: false,
            digital_signature: true,
            key_encipherment: true,
            key_cert_sign: false,
            extended_key_usage_critical: true,
            server_auth: true,
            client_auth: true,
            subject_alt_names: names,
        };
        assert(profile@.subject_alt_names =~= leaf_names(hostname@, extra));
        profile
    }
}

/// Every leaf names the authority as its issuer and is no authority
/// itself; the authority is self-signed and carries the basic constraint,
/// critically, with the right to sign certificates, which no leaf has.
pub proof fn lemma_trust(
    organization: Seq<char>,
    common_name: Seq<char>,
    hostname: Seq<char>,
    extra_ips: Seq<Seq<char>>,
)
    ensures
        Profile::leaf(organization, common_name, hostname, extra_ips).issuer == Issuer::Authority,
        !Profile::leaf(organization, common_name, hostname, extra_ips).certificate_authority,
        !Profile::leaf(organization, common_name, hostname, extra_ips).key_cert_sign,
        Profile::authority(organization, common_name).issuer == Issuer::Own,
        Profile::authority(organization, common_name).certificate_authority,
        Profile::authority(organization, common_name).basic_constraints_critical,
        Profile::authority(organization, common_name).key_cert_sign,
        !Profile::leaf(organization, common_name, hostname, extra_ips).constraint_flags().contains(
            ConstraintFlag::Authority,
        ),
        !Profile::leaf(organization, common_name, hostname, extra_ips).usage_flags().contains(
            UsageFlag::KeyCertSign,
        ),
        Profile::authority(organization, common_name).constraint_flags().contains(
            ConstraintFlag::Authority,
        ),
        Profile::authority(organization, common_name).constraint_flags().contains(
            ConstraintFlag::Critical,
        ),
        Profile::leaf(organization, common_name, hostname, extra_ips).issuance().issuer_name
            == Issuer::Authority,
        Profile::leaf(organization, common_name, hostname, extra_ips).issuance().signing_key
            == Issuer::Authority,
        Profile::authority(organization, common_name).issuance().issuer_name == Issuer::Own,
        Profile::authority(organization, common_name).issuance().signing_key == Issuer::Own,
{
}

/// The authority is valid for 3650 days, every leaf for 365.
pub proof fn lemma_validity(
    organization: Seq<char>,
    common_name: Seq<char>,
    hostname: Seq<char>,
    extra_ips: Seq<Seq<char>>,
)
    ensures
        Profile::authority(organization, common_name).validity_days == 3650,
        Profile::leaf(organization, common_name, hostname, extra_ips).validity_days == 365,
        Profile::authority(organization, common_name).issuance().not_after_days
            - Profile::authority(organization, common_name).issuance().not_before_days == 3650,
        Profile::leaf(organization, common_name, hostname, extra_ips).issuance().not_after_days
            - Profile::leaf(
            organization,
            common_name,
            hostname,
            extra_ips,
        ).issuance().not_before_days == 365,
{
}

/// A leaf with one extra address other than loopback names loopback, the
/// host and that address, each exactly once, and nothing else.
pub proof fn lemma_names_once(hostname: Seq<char>, extra_ip: Seq<char>)
    requires
        extra_ip != loopback(),
    ensures
        leaf_names(hostname, seq![extra_ip]) == seq![
            (NameKind::Ip, loopback()),
            (NameKind::Dns, hostname),
            (NameKind::Ip, extra_ip),
        ],
        leaf_names(hostname, seq![extra_ip]).no_duplicates(),
{
    let names = leaf_names(hostname, seq![extra_ip]);
    assert(names =~= seq![
        (NameKind::Ip, loopback()),
        (NameKind::Dns, hostname),
        (NameKind::Ip, extra_ip),
    ]);
}

} // verus!
