use crate::config::Config;
use crate::crypto::{
    certificate_pem, public_key_pem, rsa_generate, rsa_private_key_to_pem, rsa_public_pem,
    uuid_v4_hyphenated, x509_from_pem, x509_reencode, x509_to_pem, CryptoError,
};
use crate::encoding::{text_of, to_text};
use crate::error::ErrorKind;
use crate::issue::{issue, refused_of, SigningAuthority, MAX_TEXT_LEN};
use crate::paths::{join, join_spec};
use crate::pem::{encrypted, mentions_encryption};
use crate::profile::{CertificateProfile, Profile};
use crate::store::FileStore;
use crate::text::texts;
use crate::system::{hostname_of, System};
use vstd::prelude::*;
use vstd::string::*;
use vstd::utf8::*;

verus! {

/// The single category under which key and certificate handling fails.
#[derive(Clone, Copy, Debug, PartialEq, Eq, Structural)]
pub enum PKIError {
    OpenSSLError,
}

impl PKIError {
    /// The category that a run reports.
    pub fn kind(&self) -> (kind: ErrorKind)
        ensures
            kind == ErrorKind::CryptoOrIO,
    {
        ErrorKind::CryptoOrIO
    }
}

/// Bits of every RSA key that is generated.
pub const KEY_BITS: u32 = 2048;

/// The files after an operation that only creates: every file that was
/// there is there unchanged, and what is new stands at one of `paths`.
pub open spec fn grew_within(
    before: Map<Seq<char>, Seq<u8>>,
    after: Map<Seq<char>, Seq<u8>>,
    paths: Set<Seq<char>>,
) -> bool {
    &&& before.submap_of(after)
    &&& after.dom().subset_of(before.dom().union(paths))
}

/// Two operations that only create, one after the other, only create, and
/// within what holds the paths of both.
pub proof fn lemma_grew_chain(
    before: Map<Seq<char>, Seq<u8>>,
    between: Map<Seq<char>, Seq<u8>>,
    after: Map<Seq<char>, Seq<u8>>,
    first: Set<Seq<char>>,
    second: Set<Seq<char>>,
    paths: Set<Seq<char>>,
)
    requires
        grew_within(before, between, first),
        grew_within(between, after, second),
        first.subset_of(paths),
        second.subset_of(paths),
    ensures
        grew_within(before, after, paths),
{
    assert forall|path: Seq<char>| #[trigger] before.dom().contains(path) implies after.dom().contains(
        path,
    ) && before[path] == after[path] by {
        assert(between.dom().contains(path));
        assert(after.dom().contains(path));
    }
    assert forall|path: Seq<char>| #[trigger] after.dom().contains(path) implies before.dom().union(
        paths,
    ).contains(path) by {
        assert(between.dom().union(second).contains(path));
        if between.dom().contains(path) {
            assert(before.dom().union(first).contains(path));
        }
    }
}

/// Writing a file that was not there at first, after an operation that
/// only creates, only creates.
pub proof fn lemma_grew_by_write(
    before: Map<Seq<char>, Seq<u8>>,
    between: Map<Seq<char>, Seq<u8>>,
    path: Seq<char>,
    contents: Seq<u8>,
    first: Set<Seq<char>>,
    paths: Set<Seq<char>>,
)
    requires
        grew_within(before, between, first),
        !before.contains_key(path),
        first.subset_of(paths),
        paths.contains(path),
    ensures
        grew_within(before, between.insert(path, contents), paths),
{
    let after = between.insert(path, contents);
    assert forall|other: Seq<char>| #[trigger] before.dom().contains(other) implies after.dom().contains(
        other,
    ) && before[other] == after[other] by {
        assert(between.dom().contains(other));
    }
    assert forall|other: Seq<char>| #[trigger] after.dom().contains(other) implies before.dom().union(
        paths,
    ).contains(other) by {
        if other != path {
            assert(between.dom().contains(other));
            assert(before.dom().union(first).contains(other));
        }
    }
}

/// The text of the file at `path`, where there is one and it is UTF-8.
pub open spec fn text_at(files: Map<Seq<char>, Seq<u8>>, path: Seq<char>) -> Option<Seq<char>> {
    if files.contains_key(path) {
        text_of(files[path])
    } else {
        None
    }
}

/// Maps the cryptographic library's error to the library's own.
pub(crate) fn lift<T>(outcome: Result<T, CryptoError>) -> (lifted: Result<T, PKIError>)
    ensures
        match outcome {
            Ok(value) => lifted == Ok::<T, PKIError>(value),
            Err(_) => lifted == Err::<T, PKIError>(PKIError::OpenSSLError),
        },
{
    match outcome {
        Ok(value) => Ok(value),
        Err(_) => Err(PKIError::OpenSSLError),
    }
}

/// Reads the file at `path` as text.
pub(crate) fn read_text(files: &FileStore, path: &str) -> (text: Result<String, PKIError>)
    ensures
        match text {
            Ok(t) => text_at(files@, path@) == Some(t@),
            Err(_) => text_at(files@, path@) is None,
        },
{
    match files.read(path) {
        Some(bytes) => match to_text(bytes) {
            Some(text) => Ok(text),
            None => Err(PKIError::OpenSSLError),
        },
        None => Err(PKIError::OpenSSLError),
    }
}

/// Reads the file at `path`, which must hold text, as it is.
pub(crate) fn read_pem(files: &FileStore, path: &str) -> (pem: Result<Vec<u8>, PKIError>)
    ensures
        match pem {
            Ok(bytes) => text_at(files@, path@) is Some && bytes@ == files@[path@],
            Err(_) => text_at(files@, path@) is None,
        },
{
    match files.read(path) {
        Some(bytes) => match to_text(bytes) {
            Some(_) => Ok(bytes.clone()),
            None => Err(PKIError::OpenSSLError),
        },
        None => Err(PKIError::OpenSSLError),
    }
}

/// A private key by name and directory, as contracts speak of it.
pub struct KeyView {
    pub name: Seq<char>,
    pub path: Seq<char>,
}

impl KeyView {
    /// Where the key's file stands.
    pub open spec fn key_path(self) -> Seq<char> {
        join_spec(self.path, self.name)
    }

    /// The public half of the key as PEM text, as the cryptographic library
    /// derives it from the key's file, read with the empty passphrase:
    /// `None` where the file is missing, is no text, is too long for that
    /// library or mentions encryption, where the library reads no RSA key
    /// from it, and where what it writes out is no text.
    pub open spec fn public_half(self, files: Map<Seq<char>, Seq<u8>>) -> Option<Seq<char>> {
        if text_at(files, self.key_path()) is Some && files[self.key_path()].len()
            <= MAX_TEXT_LEN && !mentions_encryption(files[self.key_path()]) {
            match public_key_pem(files[self.key_path()], Seq::empty()) {
                Some(bytes) => text_of(bytes),
                None => None,
            }
        } else {
            None
        }
    }
}

/// An RSA private key, bound to a name and to the directory that holds it.
/// It is created once, where absent, and read as it is ever after.
pub struct Key<'a> {
    name: &'a str,
    path: &'a str,
}

impl<'a> View for Key<'a> {
    type V = KeyView;

    closed spec fn view(&self) -> KeyView {
        KeyView { name: self.name@, path: self.path@ }
    }
}

impl<'a> Key<'a> {
    pub fn new(name: &'a str, path: &'a str) -> (key: Key<'a>)
        ensures
            key@ == (KeyView { name: name@, path: path@ }),
    {
        Key { name, path }
    }

    /// Where the key's file stands.
    pub fn key_path(&self) -> (path: String)
        ensures
            path@ == self@.key_path(),
    {
        join(self.path, self.name)
    }

    /// The key as PEM text, as its file holds it.
    pub fn key(&self, files: &FileStore) -> (pem: Result<String, PKIError>)
        ensures
            match pem {
                Ok(text) => text_at(files@, self@.key_path()) == Some(text@),
                Err(error) => text_at(files@, self@.key_path()) is None && error
                    == PKIError::OpenSSLError,
            },
    {
        let path = self.key_path();
        read_text(files, path.as_str())
    }

    /// The public half of the key as PEM text, derived from the key's file,
    /// which stays as it is. The result depends on what that file holds
    /// alone, so two calls on the same files agree.
    pub fn public_key(&self, files: &FileStore) -> (pem: Result<String, PKIError>)
        ensures
            match pem {
                Ok(text) => self@.public_half(files@) == Some(text@),
                Err(error) => self@.public_half(files@) is None && error
                    == PKIError::OpenSSLError,
            },
    {
        let path = self.key_path();
        let private = read_pem(files, path.as_str())?;
        if private.len() > MAX_TEXT_LEN || encrypted(private.as_slice()) {
            return Err(PKIError::OpenSSLError);
        }
        let passphrase: Vec<u8> = Vec::new();
        match rsa_public_pem(private.as_slice(), passphrase.as_slice()) {
            Some(public) => match to_text(&public) {
                Some(text) => Ok(text),
                None => Err(PKIError::OpenSSLError),
            },
            None => Err(PKIError::OpenSSLError),
        }
    }

    /// Makes sure that the key exists: a key that is there is left as it
    /// is, and where none is, a fresh one of 2048 bits is generated and
    /// written. On failure nothing is written.
    pub fn present(&self, files: &mut FileStore) -> (done: Result<(), PKIError>)
        ensures
            old(files)@.contains_key(self@.key_path()) ==> done is Ok && final(files)@ == old(
                files,
            )@,
            grew_within(old(files)@, final(files)@, set![self@.key_path()]),
            done is Ok ==> final(files)@.contains_key(self@.key_path()),
            done matches Err(error) ==> final(files)@ == old(files)@ && error
                == PKIError::OpenSSLError,
    {
        let path = self.key_path();
        if files.contains(path.as_str()) {
            return Ok(());
        }
        let key = lift(rsa_generate(KEY_BITS))?;
        let pem = lift(rsa_private_key_to_pem(&key))?;
        files.write(path.as_str(), pem);
        Ok(())
    }
}

/// The certificate authority of a configuration, as contracts speak of it.
pub struct AuthorityView {
    pub secrets_path: Seq<char>,
}

impl AuthorityView {
    /// Where the authority's certificate stands.
    pub open spec fn cert_path(self) -> Seq<char> {
        join_spec(self.secrets_path, "ca.crt"@)
    }

    /// The authority's key.
    pub open spec fn key(self) -> KeyView {
        KeyView { name: "ca.key"@, path: self.secrets_path }
    }

    /// The files that making the authority present may create.
    pub open spec fn paths(self) -> Set<Seq<char>> {
        set![self.cert_path(), self.key().key_path()]
    }

    /// The authority's certificate as PEM text, as the cryptographic
    /// library writes it out after reading it from its file: `None` where
    /// the file is missing, is no text, is too long for that library or
    /// mentions encryption, and where the library reads no certificate from
    /// it.
    pub open spec fn pem(self, files: Map<Seq<char>, Seq<u8>>) -> Option<Seq<u8>> {
        if text_at(files, self.cert_path()) is Some && files[self.cert_path()].len()
            <= MAX_TEXT_LEN && !mentions_encryption(files[self.cert_path()]) {
            certificate_pem(files[self.cert_path()])
        } else {
            None
        }
    }
}

/// The root of the trust domain: a self-signed certificate and its key in
/// the secrets directory. It is created on first use and never renewed.
pub struct CaCertificate<'a> {
    config: &'a Config,
}

impl<'a> View for CaCertificate<'a> {
    type V = AuthorityView;

    closed spec fn view(&self) -> AuthorityView {
        AuthorityView { secrets_path: self.config.secrets.path@ }
    }
}

impl<'a> CaCertificate<'a> {
    pub fn new(config: &'a Config) -> (authority: CaCertificate<'a>)
        ensures
            authority@ == (AuthorityView { secrets_path: config.secrets.path@ }),
    {
        CaCertificate { config }
    }

    /// Where the authority's certificate stands.
    pub fn cert_path(&self) -> (path: String)
        ensures
            path@ == self@.cert_path(),
    {
        join(self.config.secrets.path.as_str(), "ca.crt")
    }

    /// The authority's key.
    pub fn key(&self) -> (key: Key<'a>)
        ensures
            key@ == self@.key(),
    {
        Key::new("ca.key", self.config.secrets.path.as_str())
    }

    /// The authority's certificate, read from its file. It fails where the
    /// file cannot be read as text or is too long for the cryptographic
    /// library, and where that library rejects it.
    pub fn cert(&self, files: &FileStore) -> (certificate: Result<openssl::x509::X509, PKIError>)
        ensures
            text_at(files@, self@.cert_path()) is None ==> certificate is Err,
            text_at(files@, self@.cert_path()) matches Some(text) && encode_utf8(text).len()
                > MAX_TEXT_LEN ==> certificate is Err,
            certificate matches Err(error) ==> error == PKIError::OpenSSLError,
    {
        let path = self.cert_path();
        let pem = read_text(files, path.as_str())?;
        if pem.as_str().as_bytes().len() > MAX_TEXT_LEN {
            return Err(PKIError::OpenSSLError);
        }
        lift(x509_from_pem(pem.as_str().as_bytes()))
    }

    /// The authority's certificate as PEM text, read from its file and
    /// written out again by the cryptographic library. The result depends
    /// on what that file holds alone.
    pub fn pem(&self, files: &FileStore) -> (pem: Result<Vec<u8>, PKIError>)
        ensures
            match pem {
                Ok(bytes) => self@.pem(files@) == Some(bytes@),
                Err(error) => self@.pem(files@) is None && error == PKIError::OpenSSLError,
            },
    {
        let path = self.cert_path();
        let stored = read_pem(files, path.as_str())?;
        if stored.len() > MAX_TEXT_LEN || encrypted(stored.as_slice()) {
            return Err(PKIError::OpenSSLError);
        }
        match x509_reencode(stored.as_slice()) {
            Some(encoded) => Ok(encoded),
            None => Err(PKIError::OpenSSLError),
        }
    }

    /// Makes sure that the authority exists. A certificate that is there
    /// decides: with its key beside it, both are left as they are, with no
    /// look at what they hold; without its key there is no authority to
    /// return and none is made, so it fails. Where no certificate is, the
    /// key is made present and a self-signed certificate is issued for it
    /// and written; its organization and common name are two fresh random
    /// identifiers. After success both files are there. On failure no
    /// certificate is written.
    pub fn present(&self, files: &mut FileStore) -> (done: Result<(), PKIError>)
        ensures
            old(files)@.contains_key(self@.cert_path()) ==> final(files)@ == old(files)@ && (
            done is Ok <==> old(files)@.contains_key(self@.key().key_path())),
            grew_within(old(files)@, final(files)@, self@.paths()),
            done is Ok ==> final(files)@.contains_key(self@.cert_path()),
            done is Ok ==> final(files)@.contains_key(self@.key().key_path()),
            done matches Err(error) ==> error == PKIError::OpenSSLError && grew_within(
                old(files)@,
                final(files)@,
                set![self@.key().key_path()],
            ),
    {
        let path = self.cert_path();
        if files.contains(path.as_str()) {
            if files.contains(self.key().key_path().as_str()) {
                return Ok(());
            }
            return Err(PKIError::OpenSSLError);
        }
        let organization = uuid_v4_hyphenated();
        let common_name = uuid_v4_hyphenated();
        let key = self.key();
        let certificate = Certificate::create(
            organization.as_str(),
            common_name.as_str(),
            &Vec::new(),
            &key,
            None,
            files,
        )?;
        let pem = lift(x509_to_pem(&certificate))?;
        files.write(path.as_str(), pem);
        Ok(())
    }
}

/// A leaf certificate with its key and authority, as contracts speak of it.
pub struct CertificateView {
    pub name: Seq<char>,
    pub path: Seq<char>,
    pub organization: Seq<char>,
    pub common_name: Seq<char>,
    pub extra_ips: Seq<Seq<char>>,
    pub key: KeyView,
    pub authority: AuthorityView,
}

impl CertificateView {
    /// Where the certificate stands.
    pub open spec fn cert_path(self) -> Seq<char> {
        join_spec(self.path, self.name)
    }

    /// The files that making the certificate present may create, the
    /// certificate itself left out.
    pub open spec fn supporting_paths(self) -> Set<Seq<char>> {
        self.authority.paths().insert(self.key.key_path())
    }

    /// The files that making the certificate present may create.
    pub open spec fn paths(self) -> Set<Seq<char>> {
        self.supporting_paths().insert(self.cert_path())
    }

    /// What the certificate is to hold on the host `hostname`: a leaf with
    /// the role's subject that names loopback, the host and the role's
    /// extra addresses.
    pub open spec fn profile(self, hostname: Seq<char>) -> Profile {
        Profile::leaf(self.organization, self.common_name, hostname, self.extra_ips)
    }

    /// What making the certificate present does to the files: it only
    /// creates, and only the certificate, its key and the authority; a
    /// certificate that is there is left with everything else as it is;
    /// after success the certificate is there, and where it was issued
    /// just now, so are its key and the authority's certificate and key; on
    /// failure it was not written.
    pub open spec fn presented(
        self,
        before: Map<Seq<char>, Seq<u8>>,
        after: Map<Seq<char>, Seq<u8>>,
        succeeded: bool,
    ) -> bool {
        &&& before.contains_key(self.cert_path()) ==> succeeded && after == before
        &&& grew_within(before, after, self.paths())
        &&& succeeded ==> after.contains_key(self.cert_path())
        &&& succeeded && !before.contains_key(self.cert_path()) ==> after.contains_key(
            self.key.key_path(),
        ) && after.contains_key(self.authority.cert_path()) && after.contains_key(
            self.authority.key().key_path(),
        )
        &&& !succeeded ==> grew_within(before, after, self.supporting_paths())
    }
}

/// What is handed to the cryptographic library to have a certificate
/// issued, as contracts speak of it: what the certificate is to hold, the
/// key it is for, and for a leaf the authority's key and certificate.
pub struct Request {
    pub profile: Profile,
    pub key_pem: Seq<u8>,
    pub authority: Option<(Seq<u8>, Seq<u8>)>,
}

/// What is handed to the cryptographic library to have a certificate
/// issued.
pub struct CertificateRequest {
    pub profile: CertificateProfile,
    pub key_pem: Vec<u8>,
    pub authority: Option<SigningAuthority>,
}

impl View for CertificateRequest {
    type V = Request;

    open spec fn view(&self) -> Request {
        Request {
            profile: self.profile@,
            key_pem: self.key_pem@,
            authority: match self.authority {
                Some(signer) => Some((signer.key_pem@, signer.certificate_pem@)),
                None => None,
            },
        }
    }
}

/// The request for a certificate with the given subject for `key`, as the
/// files determine it. Without an authority it asks for a self-signed
/// authority. With one it asks for a leaf on the host that the files name,
/// with loopback, the host and the extra addresses as its names, to be
/// signed with the authority's key under the authority's certificate.
/// There is none where the key, or for a leaf the authority's key, the
/// authority's certificate or the host's name, cannot be read as text.
pub open spec fn requested(
    organization: Seq<char>,
    common_name: Seq<char>,
    extra_ips: Seq<Seq<char>>,
    key: KeyView,
    authority: Option<AuthorityView>,
    files: Map<Seq<char>, Seq<u8>>,
) -> Option<Request> {
    if text_at(files, key.key_path()) is None {
        None
    } else {
        match authority {
            None => Some(
                Request {
                    profile: Profile::authority(organization, common_name),
                    key_pem: files[key.key_path()],
                    authority: None,
                },
            ),
            Some(signer) => {
                if text_at(files, signer.key().key_path()) is None || text_at(
                    files,
                    signer.cert_path(),
                ) is None {
                    None
                } else {
                    match hostname_of(files) {
                        Some(hostname) => Some(
                            Request {
                                profile: Profile::leaf(
                                    organization,
                                    common_name,
                                    hostname,
                                    extra_ips,
                                ),
                                key_pem: files[key.key_path()],
                                authority: Some(
                                    (files[signer.key().key_path()], files[signer.cert_path()]),
                                ),
                            },
                        ),
                        None => None,
                    }
                }
            },
        }
    }
}

/// The authority that a certificate is asked of, as contracts speak of it.
pub open spec fn authority_of(ca_cert: Option<&CaCertificate>) -> Option<AuthorityView> {
    match ca_cert {
        Some(authority) => Some(authority@),
        None => None,
    }
}

/// The files that preparing a request may create: the key and, for a leaf,
/// the authority's key.
pub open spec fn request_paths(key: KeyView, authority: Option<AuthorityView>) -> Set<Seq<char>> {
    match authority {
        Some(signer) => set![key.key_path(), signer.key().key_path()],
        None => set![key.key_path()],
    }
}

/// A role's leaf certificate: its file, its subject, the extra addresses it
/// names, its key and the authority that signs it.
pub struct Certificate<'a> {
    name: &'a str,
    path: &'a str,
    o: &'a str,
    cn: &'a str,
    extra_ips: Vec<String>,
    key: Key<'a>,
    ca: CaCertificate<'a>,
}

impl<'a> View for Certificate<'a> {
    type V = CertificateView;

    closed spec fn view(&self) -> CertificateView {
        CertificateView {
            name: self.name@,
            path: self.path@,
            organization: self.o@,
            common_name: self.cn@,
            extra_ips: Seq::new(self.extra_ips@.len(), |i: int| self.extra_ips@[i]@),
            key: self.key@,
            authority: self.ca@,
        }
    }
}

impl<'a> Certificate<'a> {
    pub fn new(
        name: &'a str,
        path: &'a str,
        o: &'a str,
        cn: &'a str,
        extra_ips: Vec<String>,
        key: Key<'a>,
        ca: CaCertificate<'a>,
    ) -> (certificate: Certificate<'a>)
        ensures
            certificate@ == (CertificateView {
                name: name@,
                path: path@,
                organization: o@,
                common_name: cn@,
                extra_ips: Seq::new(extra_ips@.len(), |i: int| extra_ips@[i]@),
                key: key@,
                authority: ca@,
            }),
    {
        Certificate { name, path, o, cn, extra_ips, key, ca }
    }

    /// The certificate's key.
    pub fn key(&self) -> (key: &Key<'a>)
        ensures
            key@ == self@.key,
    {
        &self.key
    }

    /// Where the certificate stands.
    pub fn cert_path(&self) -> (path: String)
        ensures
            path@ == self@.cert_path(),
    {
        join(self.path, self.name)
    }

    /// What the certificate is to hold on the host `hostname`.
    pub fn profile(&self, hostname: &str) -> (profile: CertificateProfile)
        ensures
            profile@ == self@.profile(hostname@),
    {
        CertificateProfile::leaf(self.o, self.cn, hostname, &self.extra_ips)
    }

    /// The certificate as PEM text, as its file holds it.
    pub fn cert(&self, files: &FileStore) -> (pem: Result<String, PKIError>)
        ensures
            match pem {
                Ok(text) => text_at(files@, self@.cert_path()) == Some(text@),
                Err(error) => text_at(files@, self@.cert_path()) is None && error
                    == PKIError::OpenSSLError,
            },
    {
        let path = self.cert_path();
        read_text(files, path.as_str())
    }

    /// Prepares the request for a certificate for `key`: the key is made
    /// present first, and with an authority the authority's key too; then
    /// the key, and for a leaf the authority's key and certificate and the
    /// host's name, are read. Nothing but the two keys is written. It
    /// succeeds exactly where all that is to be read can be read.
    pub fn request(
        o: &str,
        cn: &str,
        extra_ips: &Vec<String>,
        key: &Key,
        ca_cert: Option<&CaCertificate>,
        files: &mut FileStore,
    ) -> (request: Result<CertificateRequest, PKIError>)
        ensures
            grew_within(old(files)@, final(files)@, request_paths(key@, authority_of(ca_cert))),
            match request {
                Ok(prepared) => requested(
                    o@,
                    cn@,
                    texts(extra_ips@),
                    key@,
                    authority_of(ca_cert),
                    final(files)@,
                ) == Some(prepared@),
                Err(error) => requested(
                    o@,
                    cn@,
                    texts(extra_ips@),
                    key@,
                    authority_of(ca_cert),
                    final(files)@,
                ) is None && error == PKIError::OpenSSLError,
            },
    {
        let ghost paths = request_paths(key@, authority_of(ca_cert));
        assert(texts(extra_ips@) =~= Seq::new(extra_ips@.len(), |i: int| extra_ips@[i]@));
        let presented = key.present(files);
        proof {
            lemma_grew_chain(
                old(files)@,
                old(files)@,
                files@,
                Set::empty(),
                set![key@.key_path()],
                paths,
            );
        }
        presented?;
        let key_path = key.key_path();
        let key_pem = read_pem(files, key_path.as_str())?;
        let ghost keyed = files@;
        match ca_cert {
            Some(authority) => {
                let authority_key = authority.key();
                let presented = authority_key.present(files);
                proof {
                    lemma_grew_chain(
                        old(files)@,
                        keyed,
                        files@,
                        paths,
                        set![authority@.key().key_path()],
                        paths,
                    );
                    assert(keyed.dom().contains(key_path@));
                    assert(files@[key_path@] == keyed[key_path@]);
                }
                presented?;
                let authority_pem = read_pem(files, authority_key.key_path().as_str())?;
                let certificate_pem = read_pem(files, authority.cert_path().as_str())?;
                let hostname = match System::hostname(files) {
                    Ok(name) => name,
                    Err(_) => {
                        return Err(PKIError::OpenSSLError);
                    },
                };
                let profile = CertificateProfile::leaf(o, cn, hostname.as_str(), extra_ips);
                Ok(
                    CertificateRequest {
                        profile,
                        key_pem,
                        authority: Some(
                            SigningAuthority { key_pem: authority_pem, certificate_pem },
                        ),
                    },
                )
            },
            None => {
                let profile = CertificateProfile::authority(o, cn);
                Ok(CertificateRequest { profile, key_pem, authority: None })
            },
        }
    }

    /// Issues a certificate for `key`: the request is prepared, which makes
    /// the key and, with an authority, the authority's key present, and is
    /// handed to the cryptographic library. With an authority the result is
    /// a leaf for the host that the files name, and the authority's
    /// certificate must be there. Without one the result is a self-signed
    /// authority. Nothing but the two keys is written. Where no request
    /// can be prepared, and where the request is one that issuing refuses,
    /// it fails; else the cryptographic library decides.
    pub fn create(
        o: &str,
        cn: &str,
        extra_ips: &Vec<String>,
        key: &Key,
        ca_cert: Option<&CaCertificate>,
        files: &mut FileStore,
    ) -> (certificate: Result<openssl::x509::X509, PKIError>)
        ensures
            grew_within(old(files)@, final(files)@, request_paths(key@, authority_of(ca_cert))),
            certificate is Ok ==> requested(
                o@,
                cn@,
                texts(extra_ips@),
                key@,
                authority_of(ca_cert),
                final(files)@,
            ) is Some,
            match requested(
                o@,
                cn@,
                texts(extra_ips@),
                key@,
                authority_of(ca_cert),
                final(files)@,
            ) {
                Some(request) => refused_of(request.profile, request.key_pem, request.authority)
                    ==> certificate is Err,
                None => certificate is Err,
            },
            certificate is Ok ==> final(files)@.contains_key(key@.key_path()),
            certificate is Ok && ca_cert is Some ==> final(files)@.contains_key(
                ca_cert->0@.key().key_path(),
            ) && final(files)@.contains_key(ca_cert->0@.cert_path()),
            certificate matches Err(error) ==> error == PKIError::OpenSSLError,
    {
        let request = Certificate::request(o, cn, extra_ips, key, ca_cert, files)?;
        issue(&request.profile, request.key_pem.as_slice(), request.authority)
    }

    /// Makes sure that the certificate exists: one that is there is left as
    /// it is, whatever the role now asks for. Where none is, its key and the
    /// authority are made present, the certificate is issued and written.
    /// On failure no certificate is written.
    pub fn present(&self, files: &mut FileStore) -> (done: Result<(), PKIError>)
        ensures
            self@.presented(old(files)@, final(files)@, done is Ok),
            done matches Err(error) ==> error == PKIError::OpenSSLError,
    {
        let path = self.cert_path();
        if files.contains(path.as_str()) {
            return Ok(());
        }
        self.key.present(files)?;
        let ghost keyed = files@;
        let authority = self.ca.present(files);
        let ghost rooted = files@;
        proof {
            lemma_grew_chain(
                old(files)@,
                keyed,
                rooted,
                set![self@.key.key_path()],
                self@.authority.paths(),
                self@.supporting_paths(),
            );
        }
        authority?;
        let created = Certificate::create(
            self.o,
            self.cn,
            &self.extra_ips,
            &self.key,
            Some(&self.ca),
            files,
        );
        let ghost issued = files@;
        proof {
            lemma_grew_chain(
                old(files)@,
                rooted,
                issued,
                self@.supporting_paths(),
                set![self@.key.key_path(), self@.authority.key().key_path()],
                self@.supporting_paths(),
            );
        }
        let certificate = created?;
        let pem = lift(x509_to_pem(&certificate))?;
        files.write(path.as_str(), pem);
        proof {
            lemma_grew_by_write(
                old(files)@,
                issued,
                path@,
                pem@,
                self@.supporting_paths(),
                self@.paths(),
            );
        }
        Ok(())
    }
}

/// Making a certificate present a second time, after it succeeded once,
/// succeeds and leaves every file as the first time left it.
pub proof fn lemma_present_idempotent(
    certificate: CertificateView,
    before: Map<Seq<char>, Seq<u8>>,
    between: Map<Seq<char>, Seq<u8>>,
    after: Map<Seq<char>, Seq<u8>>,
    succeeded: bool,
)
    requires
        certificate.presented(before, between, true),
        certificate.presented(between, after, succeeded),
    ensures
        succeeded,
        after == between,
{
}

} // verus!
