use crate::pem::mentions_encryption;
use crate::profile::{names_fit, ConstraintFlag, NameKind, PurposeFlag, UsageFlag};
use vstd::prelude::*;
use vstd::string::*;

verus! {

/// A fresh RSA private key, or one read from PEM.
pub type PrivateRsa = openssl::rsa::Rsa<openssl::pkey::Private>;

/// A private key of any algorithm.
pub type PrivateKey = openssl::pkey::PKey<openssl::pkey::Private>;

/// What the cryptographic library reports when a call fails.
pub type CryptoError = openssl::error::ErrorStack;

/// `openssl::error::ErrorStack`, carried through without a look inside.
#[verifier::external_type_specification]
#[verifier::external_body]
pub struct ExErrorStack(openssl::error::ErrorStack);

/// `openssl::pkey::Private`, carried through without a look inside.
#[verifier::external_type_specification]
#[verifier::external_body]
pub struct ExPrivate(openssl::pkey::Private);

/// `openssl::rsa::Rsa<T>`, carried through without a look inside.
#[verifier::external_type_specification]
#[verifier::external_body]
#[verifier::reject_recursive_types(T)]
pub struct ExRsa<T>(openssl::rsa::Rsa<T>);

/// `openssl::pkey::PKey<T>`, carried through without a look inside.
#[verifier::external_type_specification]
#[verifier::external_body]
#[verifier::reject_recursive_types(T)]
pub struct ExPKey<T>(openssl::pkey::PKey<T>);

/// `openssl::x509::X509`, carried through without a look inside.
#[verifier::external_type_specification]
#[verifier::external_body]
pub struct ExX509(openssl::x509::X509);

/// `openssl::x509::X509Builder`, carried through without a look inside.
#[verifier::external_type_specification]
#[verifier::external_body]
pub struct ExX509Builder(openssl::x509::X509Builder);

/// `openssl::x509::X509Name`, carried through without a look inside.
#[verifier::external_type_specification]
#[verifier::external_body]
pub struct ExX509Name(openssl::x509::X509Name);

/// `openssl::x509::X509NameRef`, carried through without a look inside.
#[verifier::external_type_specification]
#[verifier::external_body]
pub struct ExX509NameRef(openssl::x509::X509NameRef);

/// `openssl::x509::X509NameBuilder`, carried through without a look inside.
#[verifier::external_type_specification]
#[verifier::external_body]
pub struct ExX509NameBuilder(openssl::x509::X509NameBuilder);

/// `openssl::x509::X509Extension`, carried through without a look inside.
#[verifier::external_type_specification]
#[verifier::external_body]
pub struct ExX509Extension(openssl::x509::X509Extension);

/// `openssl::x509::X509v3Context<'a>`, carried through without a look inside.
#[verifier::external_type_specification]
#[verifier::external_body]
pub struct ExX509v3Context<'a>(openssl::x509::X509v3Context<'a>);

/// `openssl::asn1::Asn1Time`, carried through without a look inside.
#[verifier::external_type_specification]
#[verifier::external_body]
pub struct ExAsn1Time(openssl::asn1::Asn1Time);

/// `openssl::asn1::Asn1Integer`, carried through without a look inside.
#[verifier::external_type_specification]
#[verifier::external_body]
pub struct ExAsn1Integer(openssl::asn1::Asn1Integer);

/// `openssl::bn::BigNum`, carried through without a look inside.
#[verifier::external_type_specification]
#[verifier::external_body]
pub struct ExBigNum(openssl::bn::BigNum);

/// `openssl::bn::MsbOption`, carried through without a look inside.
#[verifier::external_type_specification]
#[verifier::external_body]
pub struct ExMsbOption(openssl::bn::MsbOption);

/// `openssl::hash::MessageDigest`, carried through without a look inside.
#[verifier::external_type_specification]
#[verifier::external_body]
pub struct ExMessageDigest(openssl::hash::MessageDigest);

/// `openssl::nid::Nid`, carried through without a look inside.
#[verifier::external_type_specification]
#[verifier::external_body]
pub struct ExNid(openssl::nid::Nid);

/// `openssl::x509::extension::BasicConstraints`, carried through without a look inside.
#[verifier::external_type_specification]
#[verifier::external_body]
pub struct ExBasicConstraints(openssl::x509::extension::BasicConstraints);

/// `openssl::x509::extension::KeyUsage`, carried through without a look inside.
#[verifier::external_type_specification]
#[verifier::external_body]
pub struct ExKeyUsage(openssl::x509::extension::KeyUsage);

/// `openssl::x509::extension::ExtendedKeyUsage`, carried through without a look inside.
#[verifier::external_type_specification]
#[verifier::external_body]
pub struct ExExtendedKeyUsage(openssl::x509::extension::ExtendedKeyUsage);

/// `openssl::x509::extension::SubjectAlternativeName`, carried through without a look inside.
#[verifier::external_type_specification]
#[verifier::external_body]
pub struct ExSubjectAlternativeName(openssl::x509::extension::SubjectAlternativeName);

/// `Rsa::generate`: a fresh RSA key pair of `bits` bits with public exponent
/// 65537, or the library's error. The key is random: nothing is claimed of it.
#[verifier::external_body]
pub(crate) fn rsa_generate(bits: u32) -> (key: Result<PrivateRsa, CryptoError>) {
    openssl::rsa::Rsa::generate(bits)
}

/// `Rsa::private_key_from_pem_passphrase`: the RSA private key that the PEM
/// text holds, or the library's error. The passphrase goes to the library
/// as the one to use, so that it never asks for one. The text must fit the
/// length type of the memory buffer it is read through, and the passphrase
/// must hold no zero byte; the crate panics where they do not.
#[verifier::external_body]
pub(crate) fn rsa_private_key_from_pem_passphrase(pem: &[u8], passphrase: &[u8]) -> (key: Result<
    PrivateRsa,
    CryptoError,
>)
    requires
        pem@.len() <= i32::MAX,
        forall|i: int| 0 <= i < passphrase@.len() ==> passphrase@[i] != 0,
{
    openssl::rsa::Rsa::private_key_from_pem_passphrase(pem, passphrase)
}

/// `RsaRef::private_key_to_pem`: the key as PEM text, or the library's error.
#[verifier::external_body]
pub(crate) fn rsa_private_key_to_pem(key: &PrivateRsa) -> (pem: Result<Vec<u8>, CryptoError>) {
    key.private_key_to_pem()
}

/// The PEM text of the public half of the RSA private key that `pem`
/// holds when it is read with `passphrase` as the passphrase to use, or
/// `None` where no such key is read from it.
pub uninterp spec fn public_key_pem(pem: Seq<u8>, passphrase: Seq<u8>) -> Option<Seq<u8>>;

/// `Rsa::private_key_from_pem_passphrase` followed by
/// `RsaRef::public_key_to_pem`: the public half, as PEM text, of the RSA
/// private key that the PEM text holds, or nothing where the library reads
/// no key from it. The passphrase goes to the library as the one to use,
/// so that it never asks for one, and a text that mentions encryption is
/// left out: the outcome depends on the text and the passphrase alone. The
/// text must fit the length type of the memory buffer it is read through,
/// and the passphrase must hold no zero byte; the crate panics where they
/// do not.
#[verifier::external_body]
pub(crate) fn rsa_public_pem(pem: &[u8], passphrase: &[u8]) -> (public: Option<Vec<u8>>)
    requires
        pem@.len() <= i32::MAX,
        !mentions_encryption(pem@),
        forall|i: int| 0 <= i < passphrase@.len() ==> passphrase@[i] != 0,
    ensures
        match public {
            Some(bytes) => public_key_pem(pem@, passphrase@) == Some(bytes@),
            None => public_key_pem(pem@, passphrase@) is None,
        },
{
    openssl::rsa::Rsa::private_key_from_pem_passphrase(pem, passphrase).and_then(
        |key| key.public_key_to_pem(),
    ).ok()
}

/// The PEM text that the cryptographic library writes out for the
/// certificate that it reads from `pem`, or `None` where it reads none.
pub uninterp spec fn certificate_pem(pem: Seq<u8>) -> Option<Seq<u8>>;

/// `X509::from_pem` followed by `X509Ref::to_pem`: the certificate that the
/// PEM text holds, written out again as PEM text, or nothing where the
/// library reads no certificate from it. A text that mentions encryption,
/// for which the library would ask for a passphrase, is left out: the
/// outcome depends on the text alone. The text must fit the length type of
/// the memory buffer it is read through; the crate panics where it does
/// not.
#[verifier::external_body]
pub(crate) fn x509_reencode(pem: &[u8]) -> (encoded: Option<Vec<u8>>)
    requires
        pem@.len() <= i32::MAX,
        !mentions_encryption(pem@),
    ensures
        match encoded {
            Some(bytes) => certificate_pem(pem@) == Some(bytes@),
            None => certificate_pem(pem@) is None,
        },
{
    openssl::x509::X509::from_pem(pem).and_then(|certificate| certificate.to_pem()).ok()
}

/// `PKey::from_rsa`: the RSA key as a key of any algorithm, or the library's
/// error.
#[verifier::external_body]
pub(crate) fn pkey_from_rsa(key: PrivateRsa) -> (pkey: Result<PrivateKey, CryptoError>) {
    openssl::pkey::PKey::from_rsa(key)
}

/// `Nid::ORGANIZATIONNAME`.
#[verifier::external_body]
pub(crate) fn nid_organization_name() -> (nid: openssl::nid::Nid) {
    openssl::nid::Nid::ORGANIZATIONNAME
}

/// `Nid::COMMONNAME`.
#[verifier::external_body]
pub(crate) fn nid_common_name() -> (nid: openssl::nid::Nid) {
    openssl::nid::Nid::COMMONNAME
}

/// `X509Name::builder`: an empty name under construction, or the library's
/// error.
#[verifier::external_body]
pub(crate) fn x509_name_builder() -> (builder: Result<openssl::x509::X509NameBuilder, CryptoError>) {
    openssl::x509::X509Name::builder()
}

/// `X509NameBuilder::append_entry_by_nid`. The value's length in bytes must
/// fit the library's length type; the crate panics where it does not.
#[verifier::external_body]
pub(crate) fn x509_name_append_entry(
    builder: &mut openssl::x509::X509NameBuilder,
    field: openssl::nid::Nid,
    value: &str,
) -> (done: Result<(), CryptoError>)
    requires
        value.spec_bytes().len() <= i32::MAX,
{
    builder.append_entry_by_nid(field, value)
}

/// `X509NameBuilder::build`.
#[verifier::external_body]
pub(crate) fn x509_name_build(builder: openssl::x509::X509NameBuilder) -> (name: openssl::x509::X509Name) {
    builder.build()
}

/// The name behind an owned `X509Name`.
#[verifier::external_body]
pub(crate) fn x509_name_ref(name: &openssl::x509::X509Name) -> (borrowed: &openssl::x509::X509NameRef) {
    name.as_ref()
}

/// `X509::builder`: an empty certificate under construction, or the
/// library's error.
#[verifier::external_body]
pub(crate) fn x509_builder() -> (builder: Result<openssl::x509::X509Builder, CryptoError>) {
    openssl::x509::X509::builder()
}

/// `X509Builder::set_version`.
#[verifier::external_body]
pub(crate) fn x509_set_version(
    builder: &mut openssl::x509::X509Builder,
    version: i32,
) -> (done: Result<(), CryptoError>) {
    builder.set_version(version)
}

/// `X509Builder::set_subject_name`.
#[verifier::external_body]
pub(crate) fn x509_set_subject_name(
    builder: &mut openssl::x509::X509Builder,
    name: &openssl::x509::X509NameRef,
) -> (done: Result<(), CryptoError>) {
    builder.set_subject_name(name)
}

/// `X509Builder::set_issuer_name`.
#[verifier::external_body]
pub(crate) fn x509_set_issuer_name(
    builder: &mut openssl::x509::X509Builder,
    name: &openssl::x509::X509NameRef,
) -> (done: Result<(), CryptoError>) {
    builder.set_issuer_name(name)
}

/// `X509Builder::set_not_before`.
#[verifier::external_body]
pub(crate) fn x509_set_not_before(
    builder: &mut openssl::x509::X509Builder,
    time: &openssl::asn1::Asn1Time,
) -> (done: Result<(), CryptoError>) {
    builder.set_not_before(time)
}

/// `X509Builder::set_not_after`.
#[verifier::external_body]
pub(crate) fn x509_set_not_after(
    builder: &mut openssl::x509::X509Builder,
    time: &openssl::asn1::Asn1Time,
) -> (done: Result<(), CryptoError>) {
    builder.set_not_after(time)
}

/// `X509Builder::set_pubkey`.
#[verifier::external_body]
pub(crate) fn x509_set_pubkey(
    builder: &mut openssl::x509::X509Builder,
    key: &PrivateKey,
) -> (done: Result<(), CryptoError>) {
    builder.set_pubkey(key)
}

/// `X509Builder::set_serial_number`.
#[verifier::external_body]
pub(crate) fn x509_set_serial_number(
    builder: &mut openssl::x509::X509Builder,
    serial: &openssl::asn1::Asn1Integer,
) -> (done: Result<(), CryptoError>) {
    builder.set_serial_number(serial)
}

/// `X509Builder::append_extension`.
#[verifier::external_body]
pub(crate) fn x509_append_extension(
    builder: &mut openssl::x509::X509Builder,
    extension: openssl::x509::X509Extension,
) -> (done: Result<(), CryptoError>) {
    builder.append_extension(extension)
}

/// `X509Builder::sign`: signs what was set so far with `key`, over the given
/// digest.
#[verifier::external_body]
pub(crate) fn x509_sign(
    builder: &mut openssl::x509::X509Builder,
    key: &PrivateKey,
    digest: openssl::hash::MessageDigest,
) -> (done: Result<(), CryptoError>) {
    builder.sign(key, digest)
}

/// `X509Builder::build`.
#[verifier::external_body]
pub(crate) fn x509_build(builder: openssl::x509::X509Builder) -> (certificate: openssl::x509::X509) {
    builder.build()
}

/// `X509Builder::x509v3_context` with neither issuer nor configuration.
#[verifier::external_body]
pub(crate) fn x509v3_context<'a>(builder: &'a openssl::x509::X509Builder) -> (context:
    openssl::x509::X509v3Context<'a>) {
    builder.x509v3_context(None, None)
}

/// `X509::from_pem`: the certificate that the PEM text holds, or the
/// library's error. The text must fit the length type of the memory buffer
/// it is read through; the crate panics where it does not.
#[verifier::external_body]
pub(crate) fn x509_from_pem(pem: &[u8]) -> (certificate: Result<openssl::x509::X509, CryptoError>)
    requires
        pem@.len() <= i32::MAX,
{
    openssl::x509::X509::from_pem(pem)
}

/// `X509Ref::to_pem`: the certificate as PEM text, or the library's error.
#[verifier::external_body]
pub(crate) fn x509_to_pem(certificate: &openssl::x509::X509) -> (pem: Result<Vec<u8>, CryptoError>) {
    certificate.to_pem()
}

/// `X509Ref::subject_name`.
#[verifier::external_body]
pub(crate) fn x509_subject_name(certificate: &openssl::x509::X509) -> (name: &openssl::x509::X509NameRef) {
    certificate.subject_name()
}

/// `Asn1Time::days_from_now`: the time that lies `days` days after the
/// moment of the call. The offset in seconds must fit the C `long` of every
/// platform.
#[verifier::external_body]
pub(crate) fn asn1_time_days_from_now(days: u32) -> (time: Result<openssl::asn1::Asn1Time, CryptoError>)
    requires
        days <= 24855,
{
    openssl::asn1::Asn1Time::days_from_now(days)
}

/// `BigNum::new`: the number zero, or the library's error.
#[verifier::external_body]
pub(crate) fn bignum_new() -> (number: Result<openssl::bn::BigNum, CryptoError>) {
    openssl::bn::BigNum::new()
}

/// `MsbOption::MAYBE_ZERO`.
#[verifier::external_body]
pub(crate) fn msb_maybe_zero() -> (msb: openssl::bn::MsbOption) {
    openssl::bn::MsbOption::MAYBE_ZERO
}

/// `BigNumRef::rand`: overwrites the number with a random one of `bits`
/// bits. Nothing is claimed of the number.
#[verifier::external_body]
pub(crate) fn bignum_rand(
    number: &mut openssl::bn::BigNum,
    bits: i32,
    msb: openssl::bn::MsbOption,
    odd: bool,
) -> (done: Result<(), CryptoError>) {
    number.rand(bits, msb, odd)
}

/// `BigNumRef::to_asn1_integer`.
#[verifier::external_body]
pub(crate) fn bignum_to_asn1_integer(number: &openssl::bn::BigNum) -> (integer: Result<
    openssl::asn1::Asn1Integer,
    CryptoError,
>) {
    number.to_asn1_integer()
}

/// `MessageDigest::sha256`.
#[verifier::external_body]
pub(crate) fn message_digest_sha256() -> (digest: openssl::hash::MessageDigest) {
    openssl::hash::MessageDigest::sha256()
}

/// The flags that are set in a basic constraints extension under
/// construction.
pub uninterp spec fn basic_constraints_flags(extension: openssl::x509::extension::BasicConstraints) -> Set<ConstraintFlag>;

/// The flags that are set in a key usage extension under construction.
pub uninterp spec fn key_usage_flags(extension: openssl::x509::extension::KeyUsage) -> Set<UsageFlag>;

/// The flags that are set in an extended key usage extension under
/// construction.
pub uninterp spec fn extended_key_usage_flags(extension: openssl::x509::extension::ExtendedKeyUsage) -> Set<PurposeFlag>;

/// The names that a subject alternative name extension under construction
/// holds, in the order in which they were added.
pub uninterp spec fn alternative_names(names: openssl::x509::extension::SubjectAlternativeName) -> Seq<(NameKind, Seq<char>)>;

/// `BasicConstraints::new`: the extension with every flag unset.
#[verifier::external_body]
pub(crate) fn basic_constraints_new() -> (extension: openssl::x509::extension::BasicConstraints)
    ensures
        basic_constraints_flags(extension) =~= Set::empty(),
{
    openssl::x509::extension::BasicConstraints::new()
}

/// `BasicConstraints::critical`: sets the flag and leaves the others as
/// they are.
#[verifier::external_body]
pub(crate) fn basic_constraints_critical(extension: &mut openssl::x509::extension::BasicConstraints)
    ensures
        basic_constraints_flags(*final(extension)) == basic_constraints_flags(*old(extension)).insert(ConstraintFlag::Critical),
{
    extension.critical();
}

/// `BasicConstraints::ca`: sets the flag and leaves the others as
/// they are.
#[verifier::external_body]
pub(crate) fn basic_constraints_ca(extension: &mut openssl::x509::extension::BasicConstraints)
    ensures
        basic_constraints_flags(*final(extension)) == basic_constraints_flags(*old(extension)).insert(ConstraintFlag::Authority),
{
    extension.ca();
}

/// `BasicConstraints::build`: the extension in its encoded form, or the library's
/// error.
#[verifier::external_body]
pub(crate) fn basic_constraints_build(extension: &openssl::x509::extension::BasicConstraints) -> (encoded: Result<
    openssl::x509::X509Extension,
    CryptoError,
>) {
    extension.build()
}

/// `KeyUsage::new`: the extension with every flag unset.
#[verifier::external_body]
pub(crate) fn key_usage_new() -> (extension: openssl::x509::extension::KeyUsage)
    ensures
        key_usage_flags(extension) =~= Set::empty(),
{
    openssl::x509::extension::KeyUsage::new()
}

/// `KeyUsage::digital_signature`: sets the flag and leaves the others as
/// they are.
#[verifier::external_body]
pub(crate) fn key_usage_digital_signature(extension: &mut openssl::x509::extension::KeyUsage)
    ensures
        key_usage_flags(*final(extension)) == key_usage_flags(*old(extension)).insert(UsageFlag::DigitalSignature),
{
    extension.digital_signature();
}

/// `KeyUsage::key_encipherment`: sets the flag and leaves the others as
/// they are.
#[verifier::external_body]
pub(crate) fn key_usage_key_encipherment(extension: &mut openssl::x509::extension::KeyUsage)
    ensures
        key_usage_flags(*final(extension)) == key_usage_flags(*old(extension)).insert(UsageFlag::KeyEncipherment),
{
    extension.key_encipherment();
}

/// `KeyUsage::key_cert_sign`: sets the flag and leaves the others as
/// they are.
#[verifier::external_body]
pub(crate) fn key_usage_key_cert_sign(extension: &mut openssl::x509::extension::KeyUsage)
    ensures
        key_usage_flags(*final(extension)) == key_usage_flags(*old(extension)).insert(UsageFlag::KeyCertSign),
{
    extension.key_cert_sign();
}

/// `KeyUsage::build`: the extension in its encoded form, or the library's
/// error.
#[verifier::external_body]
pub(crate) fn key_usage_build(extension: &openssl::x509::extension::KeyUsage) -> (encoded: Result<
    openssl::x509::X509Extension,
    CryptoError,
>) {
    extension.build()
}

/// `ExtendedKeyUsage::new`: the extension with every flag unset.
#[verifier::external_body]
pub(crate) fn extended_key_usage_new() -> (extension: openssl::x509::extension::ExtendedKeyUsage)
    ensures
        extended_key_usage_flags(extension) =~= Set::empty(),
{
    openssl::x509::extension::ExtendedKeyUsage::new()
}

/// `ExtendedKeyUsage::critical`: sets the flag and leaves the others as
/// they are.
#[verifier::external_body]
pub(crate) fn extended_key_usage_critical(extension: &mut openssl::x509::extension::ExtendedKeyUsage)
    ensures
        extended_key_usage_flags(*final(extension)) == extended_key_usage_flags(*old(extension)).insert(PurposeFlag::Critical),
{
    extension.critical();
}

/// `ExtendedKeyUsage::server_auth`: sets the flag and leaves the others as
/// they are.
#[verifier::external_body]
pub(crate) fn extended_key_usage_server_auth(extension: &mut openssl::x509::extension::ExtendedKeyUsage)
    ensures
        extended_key_usage_flags(*final(extension)) == extended_key_usage_flags(*old(extension)).insert(PurposeFlag::ServerAuth),
{
    extension.server_auth();
}

/// `ExtendedKeyUsage::client_auth`: sets the flag and leaves the others as
/// they are.
#[verifier::external_body]
pub(crate) fn extended_key_usage_client_auth(extension: &mut openssl::x509::extension::ExtendedKeyUsage)
    ensures
        extended_key_usage_flags(*final(extension)) == extended_key_usage_flags(*old(extension)).insert(PurposeFlag::ClientAuth),
{
    extension.client_auth();
}

/// `ExtendedKeyUsage::build`: the extension in its encoded form, or the library's
/// error.
#[verifier::external_body]
pub(crate) fn extended_key_usage_build(extension: &openssl::x509::extension::ExtendedKeyUsage) -> (encoded: Result<
    openssl::x509::X509Extension,
    CryptoError,
>) {
    extension.build()
}

/// `SubjectAlternativeName::new`: the extension without names.
#[verifier::external_body]
pub(crate) fn subject_alternative_name_new() -> (names: openssl::x509::extension::SubjectAlternativeName)
    ensures
        alternative_names(names) =~= Seq::empty(),
{
    openssl::x509::extension::SubjectAlternativeName::new()
}

/// `SubjectAlternativeName::ip`: adds an IP address, given as text, after the
/// names added before. Whether the text is an address is looked at only
/// when the extension is encoded.
#[verifier::external_body]
pub(crate) fn subject_alternative_name_ip(names: &mut openssl::x509::extension::SubjectAlternativeName, ip: &str)
    ensures
        alternative_names(*final(names)) == alternative_names(*old(names)).push((NameKind::Ip, ip@)),
{
    names.ip(ip);
}

/// `SubjectAlternativeName::dns`: adds a DNS name after the names added
/// before.
#[verifier::external_body]
pub(crate) fn subject_alternative_name_dns(names: &mut openssl::x509::extension::SubjectAlternativeName, dns: &str)
    ensures
        alternative_names(*final(names)) == alternative_names(*old(names)).push((NameKind::Dns, dns@)),
{
    names.dns(dns);
}

/// `SubjectAlternativeName::build`: the extension in its encoded form, or
/// the library's error, which it also reports for an IP address that does
/// not parse. Every DNS name must fit the library's length type; the crate
/// panics where one does not.
#[verifier::external_body]
pub(crate) fn subject_alternative_name_build(
    names: &openssl::x509::extension::SubjectAlternativeName,
    context: &openssl::x509::X509v3Context<'_>,
) -> (encoded: Result<openssl::x509::X509Extension, CryptoError>)
    requires
        names_fit(alternative_names(*names)),
{
    names.build(context)
}

/// `Uuid::new_v4` in its hyphenated form. The identifier is random: nothing
/// is claimed of it.
#[verifier::external_body]
pub(crate) fn uuid_v4_hyphenated() -> (identifier: String) {
    uuid::Uuid::new_v4().hyphenated().to_string()
}

} // verus!
