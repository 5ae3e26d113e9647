use crate::crypto::{
    alternative_names, basic_constraints_flags, extended_key_usage_flags, key_usage_flags, PrivateKey, asn1_time_days_from_now, basic_constraints_build, basic_constraints_ca, basic_constraints_critical, basic_constraints_new, bignum_new, bignum_rand, bignum_to_asn1_integer, extended_key_usage_build, extended_key_usage_client_auth, extended_key_usage_critical, extended_key_usage_new, extended_key_usage_server_auth, key_usage_build, key_usage_digital_signature, key_usage_key_cert_sign, key_usage_key_encipherment, key_usage_new, message_digest_sha256, msb_maybe_zero, nid_common_name, nid_organization_name, pkey_from_rsa, rsa_private_key_from_pem_passphrase, subject_alternative_name_build, subject_alternative_name_dns, subject_alternative_name_ip, subject_alternative_name_new, x509_append_extension, x509_build, x509_builder, x509_from_pem, x509_name_append_entry, x509_name_build, x509_name_builder, x509_name_ref, x509_set_issuer_name, x509_set_not_after, x509_set_not_before, x509_set_pubkey, x509_set_serial_number, x509_set_subject_name, x509_set_version, x509_sign, x509_subject_name, x509v3_context,
};
use crate::pki::{lift, PKIError};
use crate::profile::{names_fit, CertificateProfile, Issuer, NameKind, Profile};
use vstd::prelude::*;
use vstd::string::*;
use vstd::utf8::*;

verus! {

/// The longest text that the cryptographic library reads in one piece.
pub const MAX_TEXT_LEN: usize = 0x7fff_ffff;

/// The longest validity, in days, whose length in seconds every platform
/// can hand to the cryptographic library.
pub const MAX_VALIDITY_DAYS: u32 = 24855;

/// The key and certificate of the authority that signs a leaf, as PEM text.
pub struct SigningAuthority {
    pub key_pem: Vec<u8>,
    pub certificate_pem: Vec<u8>,
}

/// Whether issuing is refused before the cryptographic library is asked:
/// a text or a DNS name that it could not read in one piece, a validity
/// that it could not be handed, or a leaf without an authority to sign it.
/// The authority is given by the PEM text of its key and of its
/// certificate.
pub open spec fn refused_of(
    profile: Profile,
    key_pem: Seq<u8>,
    authority: Option<(Seq<u8>, Seq<u8>)>,
) -> bool {
    ||| key_pem.len() > MAX_TEXT_LEN
    ||| encode_utf8(profile.organization).len() > MAX_TEXT_LEN
    ||| encode_utf8(profile.common_name).len() > MAX_TEXT_LEN
    ||| profile.validity_days > MAX_VALIDITY_DAYS
    ||| !names_fit(profile.subject_alt_names)
    ||| profile.issuer == Issuer::Authority && (match authority {
        Some(signer) => signer.0.len() > MAX_TEXT_LEN || signer.1.len() > MAX_TEXT_LEN,
        None => true,
    })
}

/// Whether issuing is refused before the cryptographic library is asked.
pub open spec fn refused(
    profile: &CertificateProfile,
    key_pem: Seq<u8>,
    authority: Option<SigningAuthority>,
) -> bool {
    refused_of(
        profile@,
        key_pem,
        match authority {
            Some(signer) => Some((signer.key_pem@, signer.certificate_pem@)),
            None => None,
        },
    )
}

/// Reads an RSA private key from PEM text, with the empty passphrase as
/// the one to use, so that the cryptographic library never asks for one.
fn private_key(pem: &[u8]) -> (key: Result<PrivateKey, PKIError>)
    ensures
        pem@.len() > MAX_TEXT_LEN ==> key is Err,
{
    if pem.len() > MAX_TEXT_LEN {
        return Err(PKIError::OpenSSLError);
    }
    let passphrase: Vec<u8> = Vec::new();
    let rsa = lift(rsa_private_key_from_pem_passphrase(pem, passphrase.as_slice()))?;
    lift(pkey_from_rsa(rsa))
}

/// The subject that the profile names: organization, then common name.
fn subject(profile: &CertificateProfile) -> (name: Result<openssl::x509::X509Name, PKIError>)
    ensures
        encode_utf8(profile.organization@).len() > MAX_TEXT_LEN ==> name is Err,
        encode_utf8(profile.common_name@).len() > MAX_TEXT_LEN ==> name is Err,
{
    if profile.organization.as_str().as_bytes().len() > MAX_TEXT_LEN {
        return Err(PKIError::OpenSSLError);
    }
    if profile.common_name.as_str().as_bytes().len() > MAX_TEXT_LEN {
        return Err(PKIError::OpenSSLError);
    }
    let mut builder = lift(x509_name_builder())?;
    lift(
        x509_name_append_entry(
            &mut builder,
            nid_organization_name(),
            profile.organization.as_str(),
        ),
    )?;
    lift(x509_name_append_entry(&mut builder, nid_common_name(), profile.common_name.as_str()))?;
    Ok(x509_name_build(builder))
}

/// Sets the validity as the profile's issuance gives it, in days from the
/// moment of the call.
fn set_validity(builder: &mut openssl::x509::X509Builder, profile: &CertificateProfile) -> (done:
    Result<(), PKIError>)
    ensures
        profile.validity_days > MAX_VALIDITY_DAYS ==> done is Err,
{
    let plan = profile.issuance();
    if plan.not_after_days > MAX_VALIDITY_DAYS {
        return Err(PKIError::OpenSSLError);
    }
    let not_before = lift(asn1_time_days_from_now(plan.not_before_days))?;
    lift(x509_set_not_before(builder, &not_before))?;
    let not_after = lift(asn1_time_days_from_now(plan.not_after_days))?;
    lift(x509_set_not_after(builder, &not_after))
}

/// Sets a fresh random serial number of as many bits as the profile's
/// issuance gives.
fn set_serial(builder: &mut openssl::x509::X509Builder, profile: &CertificateProfile) -> (done:
    Result<(), PKIError>) {
    let plan = profile.issuance();
    let mut serial = lift(bignum_new())?;
    lift(bignum_rand(&mut serial, plan.serial_bits, msb_maybe_zero(), false))?;
    let integer = lift(bignum_to_asn1_integer(&serial))?;
    lift(x509_set_serial_number(builder, &integer))
}

/// The basic constraints that the profile asks for, ready to be encoded.
pub fn basic_constraints_of(profile: &CertificateProfile) -> (extension:
    openssl::x509::extension::BasicConstraints)
    ensures
        basic_constraints_flags(extension) == profile@.constraint_flags(),
{
    let mut extension = basic_constraints_new();
    if profile.basic_constraints_critical {
        basic_constraints_critical(&mut extension);
    }
    if profile.certificate_authority {
        basic_constraints_ca(&mut extension);
    }
    assert(basic_constraints_flags(extension) =~= profile@.constraint_flags());
    extension
}

/// The key usage that the profile asks for, ready to be encoded.
pub fn key_usage_of(profile: &CertificateProfile) -> (extension:
    openssl::x509::extension::KeyUsage)
    ensures
        key_usage_flags(extension) == profile@.usage_flags(),
{
    let mut extension = key_usage_new();
    if profile.digital_signature {
        key_usage_digital_signature(&mut extension);
    }
    if profile.key_encipherment {
        key_usage_key_encipherment(&mut extension);
    }
    if profile.key_cert_sign {
        key_usage_key_cert_sign(&mut extension);
    }
    assert(key_usage_flags(extension) =~= profile@.usage_flags());
    extension
}

/// The extended key usage that the profile asks for, ready to be encoded.
pub fn extended_key_usage_of(profile: &CertificateProfile) -> (extension:
    openssl::x509::extension::ExtendedKeyUsage)
    ensures
        extended_key_usage_flags(extension) == profile@.purpose_flags(),
{
    let mut extension = extended_key_usage_new();
    if profile.server_auth {
        extended_key_usage_server_auth(&mut extension);
    }
    if profile.client_auth {
        extended_key_usage_client_auth(&mut extension);
    }
    if profile.extended_key_usage_critical {
        extended_key_usage_critical(&mut extension);
    }
    assert(extended_key_usage_flags(extension) =~= profile@.purpose_flags());
    extension
}

/// The subject alternative names that the profile asks for, in its order,
/// ready to be encoded.
pub fn alternative_names_of(profile: &CertificateProfile) -> (names:
    openssl::x509::extension::SubjectAlternativeName)
    ensures
        alternative_names(names) == profile@.subject_alt_names,
{
    let mut names = subject_alternative_name_new();
    let mut i: usize = 0;
    while i < profile.subject_alt_names.len()
        invariant
            i <= profile.subject_alt_names.len(),
            alternative_names(names) == profile@.subject_alt_names.take(i as int),
        decreases profile.subject_alt_names.len() - i,
    {
        let name = &profile.subject_alt_names[i];
        match name.kind {
            NameKind::Ip => subject_alternative_name_ip(&mut names, name.value.as_str()),
            NameKind::Dns => subject_alternative_name_dns(&mut names, name.value.as_str()),
        }
        i += 1;
        assert(alternative_names(names) =~= profile@.subject_alt_names.take(i as int));
    }
    assert(profile@.subject_alt_names.take(i as int) =~= profile@.subject_alt_names);
    names
}

/// Encodes the basic constraints, the key usage and the extended key usage
/// that the profile asks for and appends them, in this order.
fn append_usage(builder: &mut openssl::x509::X509Builder, profile: &CertificateProfile) -> (done:
    Result<(), PKIError>) {
    let basic = lift(basic_constraints_build(&basic_constraints_of(profile)))?;
    lift(x509_append_extension(builder, basic))?;
    let usage = lift(key_usage_build(&key_usage_of(profile)))?;
    lift(x509_append_extension(builder, usage))?;
    let extended = lift(extended_key_usage_build(&extended_key_usage_of(profile)))?;
    lift(x509_append_extension(builder, extended))
}

/// Encodes the profile's subject alternative names and appends them, where
/// it has any. A DNS name too long for the cryptographic library is refused
/// before that library is asked.
fn append_names(builder: &mut openssl::x509::X509Builder, profile: &CertificateProfile) -> (done:
    Result<(), PKIError>)
    ensures
        !names_fit(profile@.subject_alt_names) ==> done is Err,
{
    let mut i: usize = 0;
    while i < profile.subject_alt_names.len()
        invariant
            i <= profile.subject_alt_names.len(),
            names_fit(profile@.subject_alt_names.take(i as int)),
        decreases profile.subject_alt_names.len() - i,
    {
        let name = &profile.subject_alt_names[i];
        if name.kind == NameKind::Dns && name.value.as_str().as_bytes().len() > MAX_TEXT_LEN {
            proof {
                let entry = profile@.subject_alt_names[i as int];
                assert(entry.0 == NameKind::Dns && encode_utf8(entry.1).len() > i32::MAX);
            }
            return Err(PKIError::OpenSSLError);
        }
        i += 1;
        proof {
            let checked = profile@.subject_alt_names.take(i as int);
            assert forall|j: int|
                0 <= j < checked.len() && (#[trigger] checked[j]).0
                    == NameKind::Dns implies encode_utf8(checked[j].1).len() <= i32::MAX by {
                if j < i - 1 {
                    assert(profile@.subject_alt_names.take(i - 1)[j] == checked[j]);
                }
            }
        }
    }
    assert(profile@.subject_alt_names.take(i as int) =~= profile@.subject_alt_names);
    if profile.subject_alt_names.len() == 0 {
        return Ok(());
    }
    let names = alternative_names_of(profile);
    let encoded = {
        let context = x509v3_context(builder);
        lift(subject_alternative_name_build(&names, &context))?
    };
    lift(x509_append_extension(builder, encoded))
}

/// Issues the certificate that `profile` describes for the key in
/// `key_pem`. It carries out the profile's issuance (version, validity,
/// serial number, issuer's name, signing key) and appends the extensions
/// that `basic_constraints_of`, `key_usage_of`, `extended_key_usage_of` and
/// `alternative_names_of` give: self-signed where the profile says so, and
/// else with the authority's subject as issuer and the authority's key as
/// signer. The validity starts at the moment of the call and the serial
/// number is random, so two calls give different certificates.
///
/// Whether the cryptographic library accepts the key, the names and the
/// addresses is its own decision; what is refused before it is asked is
/// stated.
pub fn issue(
    profile: &CertificateProfile,
    key_pem: &[u8],
    authority: Option<SigningAuthority>,
) -> (certificate: Result<openssl::x509::X509, PKIError>)
    ensures
        refused(profile, key_pem@, authority) ==> certificate is Err,
        certificate matches Err(error) ==> error == PKIError::OpenSSLError,
{
    let plan = profile.issuance();
    let key = private_key(key_pem)?;
    let name = subject(profile)?;
    let mut builder = lift(x509_builder())?;
    lift(x509_set_version(&mut builder, plan.version))?;
    lift(x509_set_subject_name(&mut builder, x509_name_ref(&name)))?;
    let signer = match plan.issuer_name {
        Issuer::Own => {
            lift(x509_set_issuer_name(&mut builder, x509_name_ref(&name)))?;
            None
        },
        Issuer::Authority => {
            match authority {
                Some(signer) => {
                    let signer_key = private_key(signer.key_pem.as_slice())?;
                    if signer.certificate_pem.len() > MAX_TEXT_LEN {
                        return Err(PKIError::OpenSSLError);
                    }
                    let signer_certificate = lift(
                        x509_from_pem(signer.certificate_pem.as_slice()),
                    )?;
                    lift(
                        x509_set_issuer_name(&mut builder, x509_subject_name(&signer_certificate)),
                    )?;
                    Some(signer_key)
                },
                None => {
                    return Err(PKIError::OpenSSLError);
                },
            }
        },
    };
    set_validity(&mut builder, profile)?;
    lift(x509_set_pubkey(&mut builder, &key))?;
    set_serial(&mut builder, profile)?;
    append_usage(&mut builder, profile)?;
    append_names(&mut builder, profile)?;
    match (plan.signing_key, signer) {
        (Issuer::Authority, Some(signer_key)) => lift(
            x509_sign(&mut builder, &signer_key, message_digest_sha256()),
        )?,
        (Issuer::Authority, None) => {
            return Err(PKIError::OpenSSLError);
        },
        (Issuer::Own, _) => lift(x509_sign(&mut builder, &key, message_digest_sha256()))?,
    }
    Ok(x509_build(builder))
}

} // verus!
