use kubeception::config::{Bootstrap, Certificates, Config, Etcd, Kubeception, Kubelet, Net, Secrets};
use kubeception::error::ErrorKind;
use kubeception::issue::{
    alternative_names_of, basic_constraints_of, extended_key_usage_of, issue, key_usage_of,
    SigningAuthority,
};
use kubeception::pki::{CaCertificate, Certificate, Key, PKIError};
use kubeception::profile::{CertificateProfile, Issuer, NameKind};
use kubeception::store::FileStore;
use openssl::nid::Nid;
use openssl::rsa::Rsa;
use openssl::symm::Cipher;
use openssl::x509::extension::{
    BasicConstraints, ExtendedKeyUsage, KeyUsage, SubjectAlternativeName,
};
use openssl::x509::X509;

fn config() -> Config {
    Config {
        bootstrap: Bootstrap { manifests_path: "/manifests".to_string() },
        certificates: Certificates { ca_path: "/etc/ssl/certs".to_string() },
        secrets: Secrets { path: "/secrets".to_string() },
        kubelet: Kubelet { config_file: "/etc/kubelet".to_string() },
        etcd: Etcd { config_file: "/etc/etcd.conf".to_string(), config_path: "/etcd".to_string() },
        net: Net {
            cluster_cidr: "10.2.0.0/16".to_string(),
            service_cluster_ip_range: "10.3.0.0/24".to_string(),
            apiserver_cluster_ip: "10.3.0.1".to_string(),
            dns_cluster_ip: "10.3.0.10".to_string(),
        },
        kubeception: Kubeception { image: "image".to_string(), nodeport: "30080".to_string() },
    }
}

fn host_files() -> FileStore {
    let mut files = FileStore::new();
    files.write("/etc/hostname", b"node1\n".to_vec());
    files
}

fn bytes(files: &FileStore, path: &str) -> Vec<u8> {
    files.read(path).unwrap().clone()
}

fn parsed(files: &FileStore, path: &str) -> X509 {
    X509::from_pem(&bytes(files, path)).unwrap()
}

fn dump(certificate: &X509) -> String {
    String::from_utf8(certificate.to_text().unwrap()).unwrap()
}

fn entry(certificate: &X509, nid: Nid) -> String {
    let name = certificate.subject_name();
    let entry = name.entries_by_nid(nid).next().unwrap();
    entry.data().as_utf8().unwrap().to_string()
}

fn validity_days(certificate: &X509) -> (i32, i32) {
    let diff = certificate.not_before().diff(certificate.not_after()).unwrap();
    (diff.days, diff.secs)
}

fn names(certificate: &X509) -> Vec<String> {
    match certificate.subject_alt_names() {
        Some(stack) => stack
            .iter()
            .map(|name| {
                if let Some(dns) = name.dnsname() {
                    format!("DNS:{}", dns)
                } else if let Some(ip) = name.ipaddress() {
                    let parts: Vec<String> = ip.iter().map(|b| b.to_string()).collect();
                    format!("IP:{}", parts.join("."))
                } else {
                    "other".to_string()
                }
            })
            .collect(),
        None => Vec::new(),
    }
}

fn apiserver<'a>(config: &'a Config, extra: &str) -> Certificate<'a> {
    Certificate::new(
        "apiserver.crt",
        "/secrets",
        "kube-master",
        "kube-apiserver",
        vec![extra.to_string()],
        Key::new("apiserver.key", "/secrets"),
        CaCertificate::new(config),
    )
}

#[test]
fn key_paths() {
    assert_eq!(Key::new("admin.key", "/secrets").key_path(), "/secrets/admin.key");
    assert_eq!(Key::new("admin.key", "/secrets/").key_path(), "/secrets/admin.key");
}

#[test]
fn key_present_generates_rsa_2048() {
    let mut files = FileStore::new();
    let key = Key::new("admin.key", "/secrets");
    assert_eq!(key.present(&mut files), Ok(()));
    assert_eq!(files.len(), 1);
    let rsa = Rsa::private_key_from_pem(&bytes(&files, "/secrets/admin.key")).unwrap();
    assert_eq!(rsa.size(), 256);
    assert_eq!(key.key(&files).unwrap().into_bytes(), bytes(&files, "/secrets/admin.key"));
}

#[test]
fn key_present_keeps_what_is_there() {
    let mut files = FileStore::new();
    files.write("/secrets/admin.key", b"whatever is here".to_vec());
    let key = Key::new("admin.key", "/secrets");
    assert_eq!(key.present(&mut files), Ok(()));
    assert_eq!(files.len(), 1);
    assert_eq!(key.key(&files).unwrap(), "whatever is here");
}

#[test]
fn key_present_twice_changes_nothing() {
    let mut files = FileStore::new();
    let key = Key::new("admin.key", "/secrets");
    key.present(&mut files).unwrap();
    let first = bytes(&files, "/secrets/admin.key");
    key.present(&mut files).unwrap();
    assert_eq!(files.len(), 1);
    assert_eq!(bytes(&files, "/secrets/admin.key"), first);
}

#[test]
fn key_that_is_missing_cannot_be_read() {
    let files = FileStore::new();
    let key = Key::new("admin.key", "/secrets");
    assert_eq!(key.key(&files), Err(PKIError::OpenSSLError));
    assert_eq!(key.public_key(&files), Err(PKIError::OpenSSLError));
}

#[test]
fn key_that_is_no_text_cannot_be_read() {
    let mut files = FileStore::new();
    files.write("/secrets/admin.key", vec![0xff, 0x00, 0xfe]);
    let key = Key::new("admin.key", "/secrets");
    assert_eq!(key.key(&files), Err(PKIError::OpenSSLError));
    assert_eq!(key.public_key(&files), Err(PKIError::OpenSSLError));
}

#[test]
fn public_key_of_what_is_no_key_fails() {
    let mut files = FileStore::new();
    files.write("/secrets/admin.key", b"not a key".to_vec());
    assert_eq!(Key::new("admin.key", "/secrets").public_key(&files), Err(PKIError::OpenSSLError));
}

#[test]
fn public_key_is_the_public_half() {
    let mut files = FileStore::new();
    let key = Key::new("service-account.key", "/secrets");
    key.present(&mut files).unwrap();
    let public = key.public_key(&files).unwrap();
    assert!(public.starts_with("-----BEGIN PUBLIC KEY-----\n"));
    let private = Rsa::private_key_from_pem(key.key(&files).unwrap().as_bytes()).unwrap();
    let read = Rsa::public_key_from_pem(public.as_bytes()).unwrap();
    assert_eq!(read.n().to_vec(), private.n().to_vec());
    assert_eq!(read.e().to_vec(), private.e().to_vec());
    assert_ne!(public, key.key(&files).unwrap());
    // the same key gives the same text every time
    assert_eq!(key.public_key(&files).unwrap(), public);
}

#[test]
fn pki_error_is_reported_as_crypto_or_io() {
    assert_eq!(PKIError::OpenSSLError.kind(), ErrorKind::CryptoOrIO);
}

#[test]
fn authority_paths() {
    let config = config();
    let authority = CaCertificate::new(&config);
    assert_eq!(authority.cert_path(), "/secrets/ca.crt");
    assert_eq!(authority.key().key_path(), "/secrets/ca.key");
}

#[test]
fn authority_present_creates_a_self_signed_authority() {
    let config = config();
    let mut files = FileStore::new();
    let authority = CaCertificate::new(&config);
    assert_eq!(authority.present(&mut files), Ok(()));
    assert!(files.contains("/secrets/ca.crt"));
    assert!(files.contains("/secrets/ca.key"));
    assert_eq!(files.len(), 2);
    let certificate = parsed(&files, "/secrets/ca.crt");
    assert_eq!(
        certificate.subject_name().to_der().unwrap(),
        certificate.issuer_name().to_der().unwrap()
    );
    assert_eq!(certificate.version(), 2);
    let text = dump(&certificate);
    assert!(text.contains("X509v3 Basic Constraints: critical"));
    assert!(text.contains("CA:TRUE"));
    assert!(text.contains("Certificate Sign"));
    assert!(text.contains("Digital Signature"));
    assert!(text.contains("Key Encipherment"));
    assert!(text.contains("X509v3 Extended Key Usage: critical"));
    assert!(names(&certificate).is_empty());
    assert!(certificate.verify(&certificate.public_key().unwrap()).unwrap());
    assert!(certificate.serial_number().to_bn().unwrap().num_bits() <= 128);
    // the key in the file is the certificate's
    let key = Rsa::private_key_from_pem(&bytes(&files, "/secrets/ca.key")).unwrap();
    assert_eq!(
        certificate.public_key().unwrap().rsa().unwrap().n().to_vec(),
        key.n().to_vec()
    );
}

#[test]
fn authority_is_valid_for_3650_days() {
    let config = config();
    let mut files = FileStore::new();
    CaCertificate::new(&config).present(&mut files).unwrap();
    let (days, seconds) = validity_days(&parsed(&files, "/secrets/ca.crt"));
    assert!((days == 3650 && seconds <= 5) || (days == 3649 && seconds >= 86395));
}

#[test]
fn authority_subject_is_two_random_identifiers() {
    let config = config();
    let mut files = FileStore::new();
    CaCertificate::new(&config).present(&mut files).unwrap();
    let certificate = parsed(&files, "/secrets/ca.crt");
    let organization = entry(&certificate, Nid::ORGANIZATIONNAME);
    let common_name = entry(&certificate, Nid::COMMONNAME);
    assert_eq!(organization.len(), 36);
    assert_eq!(common_name.len(), 36);
    assert_eq!(organization.matches('-').count(), 4);
    assert_ne!(organization, common_name);
}

#[test]
fn authority_present_twice_changes_nothing() {
    let config = config();
    let mut files = FileStore::new();
    let authority = CaCertificate::new(&config);
    authority.present(&mut files).unwrap();
    let certificate = bytes(&files, "/secrets/ca.crt");
    let key = bytes(&files, "/secrets/ca.key");
    assert_eq!(authority.present(&mut files), Ok(()));
    assert_eq!(files.len(), 2);
    assert_eq!(bytes(&files, "/secrets/ca.crt"), certificate);
    assert_eq!(bytes(&files, "/secrets/ca.key"), key);
}

#[test]
fn authority_that_is_there_is_not_looked_at() {
    let config = config();
    let mut files = FileStore::new();
    files.write("/secrets/ca.crt", b"not even a certificate".to_vec());
    files.write("/secrets/ca.key", b"not even a key".to_vec());
    let authority = CaCertificate::new(&config);
    assert_eq!(authority.present(&mut files), Ok(()));
    assert_eq!(files.len(), 2);
    assert!(authority.cert(&files).is_err());
}

#[test]
fn authority_without_its_key_is_none() {
    let config = config();
    let mut files = FileStore::new();
    let authority = CaCertificate::new(&config);
    authority.present(&mut files).unwrap();
    let mut only_certificate = FileStore::new();
    only_certificate.write("/secrets/ca.crt", bytes(&files, "/secrets/ca.crt"));
    assert_eq!(authority.present(&mut only_certificate), Err(PKIError::OpenSSLError));
    assert_eq!(only_certificate.len(), 1);
    assert!(!only_certificate.contains("/secrets/ca.key"));
}

#[test]
fn authority_certificate_is_read_from_its_file() {
    let config = config();
    let mut files = FileStore::new();
    let authority = CaCertificate::new(&config);
    assert!(authority.cert(&files).is_err());
    authority.present(&mut files).unwrap();
    let certificate = authority.cert(&files).unwrap();
    assert_eq!(certificate.to_pem().unwrap(), bytes(&files, "/secrets/ca.crt"));
}

#[test]
fn certificate_paths() {
    let config = config();
    let certificate = apiserver(&config, "10.3.0.1");
    assert_eq!(certificate.cert_path(), "/secrets/apiserver.crt");
    assert_eq!(certificate.key().key_path(), "/secrets/apiserver.key");
}

#[test]
fn leaf_is_issued_by_the_authority() {
    let config = config();
    let mut files = host_files();
    assert_eq!(apiserver(&config, "10.3.0.1").present(&mut files), Ok(()));
    for path in ["/secrets/ca.crt", "/secrets/ca.key", "/secrets/apiserver.crt", "/secrets/apiserver.key"] {
        assert!(files.contains(path));
    }
    assert_eq!(files.len(), 5);
    let authority = parsed(&files, "/secrets/ca.crt");
    let leaf = parsed(&files, "/secrets/apiserver.crt");
    assert_eq!(leaf.issuer_name().to_der().unwrap(), authority.subject_name().to_der().unwrap());
    assert_ne!(leaf.subject_name().to_der().unwrap(), authority.subject_name().to_der().unwrap());
    assert!(leaf.verify(&authority.public_key().unwrap()).unwrap());
    assert!(!leaf.verify(&leaf.public_key().unwrap()).unwrap());
    assert_eq!(entry(&leaf, Nid::ORGANIZATIONNAME), "kube-master");
    assert_eq!(entry(&leaf, Nid::COMMONNAME), "kube-apiserver");
    assert_eq!(leaf.version(), 2);
    let key = Rsa::private_key_from_pem(&bytes(&files, "/secrets/apiserver.key")).unwrap();
    assert_eq!(leaf.public_key().unwrap().rsa().unwrap().n().to_vec(), key.n().to_vec());
}

#[test]
fn leaf_is_no_authority() {
    let config = config();
    let mut files = host_files();
    apiserver(&config, "10.3.0.1").present(&mut files).unwrap();
    let text = dump(&parsed(&files, "/secrets/apiserver.crt"));
    assert!(text.contains("CA:FALSE"));
    assert!(!text.contains("CA:TRUE"));
    assert!(!text.contains("X509v3 Basic Constraints: critical"));
    assert!(!text.contains("Certificate Sign"));
    assert!(text.contains("Digital Signature, Key Encipherment"));
    assert!(text.contains("X509v3 Extended Key Usage: critical"));
    assert!(text.contains("TLS Web Server Authentication, TLS Web Client Authentication"));
}

#[test]
fn leaf_names_loopback_host_and_extra_address_once_each() {
    let config = config();
    let mut files = host_files();
    apiserver(&config, "10.3.0.1").present(&mut files).unwrap();
    assert_eq!(
        names(&parsed(&files, "/secrets/apiserver.crt")),
        vec!["IP:127.0.0.1".to_string(), "DNS:node1".to_string(), "IP:10.3.0.1".to_string()]
    );
}

#[test]
fn leaf_without_extra_addresses_names_loopback_and_host() {
    let config = config();
    let mut files = host_files();
    let certificate = Certificate::new(
        "admin.crt",
        "/secrets",
        "system:masters",
        "admin",
        Vec::new(),
        Key::new("admin.key", "/secrets"),
        CaCertificate::new(&config),
    );
    certificate.present(&mut files).unwrap();
    let leaf = parsed(&files, "/secrets/admin.crt");
    assert_eq!(names(&leaf), vec!["IP:127.0.0.1".to_string(), "DNS:node1".to_string()]);
    assert_eq!(entry(&leaf, Nid::ORGANIZATIONNAME), "system:masters");
    assert_eq!(certificate.cert(&files).unwrap().into_bytes(), bytes(&files, "/secrets/admin.crt"));
}

#[test]
fn leaf_is_valid_for_365_days() {
    let config = config();
    let mut files = host_files();
    apiserver(&config, "10.3.0.1").present(&mut files).unwrap();
    let (days, seconds) = validity_days(&parsed(&files, "/secrets/apiserver.crt"));
    assert!((days == 365 && seconds <= 5) || (days == 364 && seconds >= 86395));
}

#[test]
fn leaf_present_twice_leaves_every_file_as_it_is() {
    let config = config();
    let mut files = host_files();
    let certificate = apiserver(&config, "10.3.0.1");
    certificate.present(&mut files).unwrap();
    let writes = files.len();
    let before: Vec<Vec<u8>> = ["/secrets/ca.crt", "/secrets/ca.key", "/secrets/apiserver.crt", "/secrets/apiserver.key"]
        .iter()
        .map(|path| bytes(&files, path))
        .collect();
    assert_eq!(certificate.present(&mut files), Ok(()));
    assert_eq!(files.len(), writes);
    let after: Vec<Vec<u8>> = ["/secrets/ca.crt", "/secrets/ca.key", "/secrets/apiserver.crt", "/secrets/apiserver.key"]
        .iter()
        .map(|path| bytes(&files, path))
        .collect();
    assert_eq!(before, after);
}

#[test]
fn leaf_keeps_its_names_when_the_role_changes() {
    let config = config();
    let mut files = host_files();
    apiserver(&config, "10.3.0.1").present(&mut files).unwrap();
    let first = bytes(&files, "/secrets/apiserver.crt");
    assert_eq!(apiserver(&config, "10.9.9.9").present(&mut files), Ok(()));
    assert_eq!(bytes(&files, "/secrets/apiserver.crt"), first);
    assert_eq!(
        names(&parsed(&files, "/secrets/apiserver.crt")),
        vec!["IP:127.0.0.1".to_string(), "DNS:node1".to_string(), "IP:10.3.0.1".to_string()]
    );
}

#[test]
fn leaf_with_loopback_as_extra_address_names_it_twice() {
    let config = config();
    let mut files = host_files();
    apiserver(&config, "127.0.0.1").present(&mut files).unwrap();
    assert_eq!(
        names(&parsed(&files, "/secrets/apiserver.crt")),
        vec!["IP:127.0.0.1".to_string(), "DNS:node1".to_string(), "IP:127.0.0.1".to_string()]
    );
}

#[test]
fn two_leaves_share_one_authority() {
    let config = config();
    let mut files = host_files();
    apiserver(&config, "10.3.0.1").present(&mut files).unwrap();
    let authority = bytes(&files, "/secrets/ca.crt");
    let other = Certificate::new(
        "etcd-client.crt",
        "/secrets",
        "etcd",
        "etcd-client",
        Vec::new(),
        Key::new("etcd-client.key", "/secrets"),
        CaCertificate::new(&config),
    );
    other.present(&mut files).unwrap();
    assert_eq!(bytes(&files, "/secrets/ca.crt"), authority);
    let leaf = parsed(&files, "/secrets/etcd-client.crt");
    assert!(leaf.verify(&parsed(&files, "/secrets/ca.crt").public_key().unwrap()).unwrap());
    assert_ne!(
        leaf.serial_number().to_bn().unwrap().to_vec(),
        parsed(&files, "/secrets/apiserver.crt").serial_number().to_bn().unwrap().to_vec()
    );
}

#[test]
fn leaf_without_a_hostname_is_not_written() {
    let config = config();
    let mut files = FileStore::new();
    assert_eq!(apiserver(&config, "10.3.0.1").present(&mut files), Err(PKIError::OpenSSLError));
    assert!(!files.contains("/secrets/apiserver.crt"));
    // what was created before the failure is complete and stays
    assert!(files.contains("/secrets/apiserver.key"));
    assert!(files.contains("/secrets/ca.crt"));
    assert!(files.contains("/secrets/ca.key"));
}

#[test]
fn leaf_with_an_address_that_is_none_is_not_written() {
    let config = config();
    let mut files = host_files();
    assert_eq!(apiserver(&config, "not an address").present(&mut files), Err(PKIError::OpenSSLError));
    assert!(!files.contains("/secrets/apiserver.crt"));
}

#[test]
fn create_without_an_authority_is_self_signed() {
    let mut files = FileStore::new();
    let key = Key::new("ca.key", "/secrets");
    let certificate =
        Certificate::create("organization", "name", &Vec::new(), &key, None, &mut files).unwrap();
    assert_eq!(files.len(), 1);
    assert!(files.contains("/secrets/ca.key"));
    assert_eq!(
        certificate.subject_name().to_der().unwrap(),
        certificate.issuer_name().to_der().unwrap()
    );
    assert_eq!(entry(&certificate, Nid::ORGANIZATIONNAME), "organization");
    assert_eq!(entry(&certificate, Nid::COMMONNAME), "name");
    assert!(dump(&certificate).contains("CA:TRUE"));
}

#[test]
fn create_with_an_authority_needs_its_certificate() {
    let config = config();
    let mut files = host_files();
    let key = Key::new("admin.key", "/secrets");
    let authority = CaCertificate::new(&config);
    let created = Certificate::create("o", "cn", &Vec::new(), &key, Some(&authority), &mut files);
    assert!(matches!(created, Err(PKIError::OpenSSLError)));
    // the two keys were made present, and nothing else
    assert!(files.contains("/secrets/admin.key"));
    assert!(files.contains("/secrets/ca.key"));
    assert!(!files.contains("/secrets/ca.crt"));
    assert_eq!(files.len(), 3);
}

#[test]
fn create_with_an_authority_gives_a_leaf() {
    let config = config();
    let mut files = host_files();
    let authority = CaCertificate::new(&config);
    authority.present(&mut files).unwrap();
    let key = Key::new("admin.key", "/secrets");
    let extra = vec!["10.0.0.7".to_string(), "10.0.0.8".to_string()];
    let leaf = Certificate::create("o", "cn", &extra, &key, Some(&authority), &mut files).unwrap();
    assert!(!files.contains("/secrets/admin.crt"));
    assert_eq!(
        names(&leaf),
        vec![
            "IP:127.0.0.1".to_string(),
            "DNS:node1".to_string(),
            "IP:10.0.0.7".to_string(),
            "IP:10.0.0.8".to_string()
        ]
    );
    assert_eq!(
        leaf.issuer_name().to_der().unwrap(),
        parsed(&files, "/secrets/ca.crt").subject_name().to_der().unwrap()
    );
}

#[test]
fn authority_profile() {
    let profile = CertificateProfile::authority("o", "cn");
    assert_eq!(profile.organization, "o");
    assert_eq!(profile.common_name, "cn");
    assert_eq!(profile.issuer, Issuer::Own);
    assert_eq!(profile.validity_days, 3650);
    assert!(profile.basic_constraints_critical);
    assert!(profile.certificate_authority);
    assert!(profile.digital_signature && profile.key_encipherment && profile.key_cert_sign);
    assert!(profile.extended_key_usage_critical && profile.server_auth && profile.client_auth);
    assert!(profile.subject_alt_names.is_empty());
}

#[test]
fn leaf_profile() {
    let extra = vec!["10.3.0.1".to_string()];
    let profile = CertificateProfile::leaf("kube-master", "kube-apiserver", "node1", &extra);
    assert_eq!(profile.organization, "kube-master");
    assert_eq!(profile.common_name, "kube-apiserver");
    assert_eq!(profile.issuer, Issuer::Authority);
    assert_eq!(profile.validity_days, 365);
    assert!(!profile.basic_constraints_critical);
    assert!(!profile.certificate_authority);
    assert!(profile.digital_signature && profile.key_encipherment && !profile.key_cert_sign);
    assert!(profile.extended_key_usage_critical && profile.server_auth && profile.client_auth);
    let names: Vec<(NameKind, &str)> =
        profile.subject_alt_names.iter().map(|name| (name.kind, name.value.as_str())).collect();
    assert_eq!(
        names,
        vec![(NameKind::Ip, "127.0.0.1"), (NameKind::Dns, "node1"), (NameKind::Ip, "10.3.0.1")]
    );
}

#[test]
fn issue_refuses_a_leaf_without_an_authority() {
    let key = Rsa::generate(2048).unwrap().private_key_to_pem().unwrap();
    let profile = CertificateProfile::leaf("o", "cn", "node1", &Vec::new());
    assert!(matches!(issue(&profile, &key, None), Err(PKIError::OpenSSLError)));
}

#[test]
fn issue_refuses_a_validity_it_cannot_hand_on() {
    let key = Rsa::generate(2048).unwrap().private_key_to_pem().unwrap();
    let mut profile = CertificateProfile::authority("o", "cn");
    profile.validity_days = 24856;
    assert!(issue(&profile, &key, None).is_err());
    profile.validity_days = 24855;
    assert!(issue(&profile, &key, None).is_ok());
}

#[test]
fn issue_rejects_what_is_no_key() {
    let profile = CertificateProfile::authority("o", "cn");
    assert!(issue(&profile, b"no key", None).is_err());
}

#[test]
fn issue_follows_the_profile() {
    let key = Rsa::generate(2048).unwrap().private_key_to_pem().unwrap();
    let mut profile = CertificateProfile::authority("o", "cn");
    profile.validity_days = 7;
    profile.key_encipherment = false;
    profile.client_auth = false;
    profile.extended_key_usage_critical = false;
    let certificate = issue(&profile, &key, None).unwrap();
    let (days, seconds) = validity_days(&certificate);
    assert!((days == 7 && seconds <= 5) || (days == 6 && seconds >= 86395));
    let text = dump(&certificate);
    assert!(text.contains("Digital Signature, Certificate Sign"));
    assert!(!text.contains("Key Encipherment"));
    assert!(text.contains("TLS Web Server Authentication"));
    assert!(!text.contains("TLS Web Client Authentication"));
    assert!(!text.contains("X509v3 Extended Key Usage: critical"));
}

#[test]
fn issue_signs_a_leaf_with_the_authority() {
    let authority_key = Rsa::generate(2048).unwrap().private_key_to_pem().unwrap();
    let authority = issue(&CertificateProfile::authority("root", "root"), &authority_key, None).unwrap();
    let key = Rsa::generate(2048).unwrap().private_key_to_pem().unwrap();
    let signer = SigningAuthority {
        key_pem: authority_key.clone(),
        certificate_pem: authority.to_pem().unwrap(),
    };
    let profile = CertificateProfile::leaf("etcd", "etcd-peer", "node1", &Vec::new());
    let leaf = issue(&profile, &key, Some(signer)).unwrap();
    assert!(leaf.verify(&authority.public_key().unwrap()).unwrap());
    assert_eq!(leaf.issuer_name().to_der().unwrap(), authority.subject_name().to_der().unwrap());
    assert_eq!(entry(&leaf, Nid::COMMONNAME), "etcd-peer");
}

#[test]
fn certificate_profile_is_the_leaf_of_its_role() {
    let config = config();
    let profile = apiserver(&config, "10.3.0.1").profile("node1");
    assert_eq!(profile.organization, "kube-master");
    assert_eq!(profile.common_name, "kube-apiserver");
    assert_eq!(profile.issuer, Issuer::Authority);
    assert!(!profile.certificate_authority);
    assert_eq!(profile.validity_days, 365);
    let names: Vec<(NameKind, &str)> =
        profile.subject_alt_names.iter().map(|name| (name.kind, name.value.as_str())).collect();
    assert_eq!(
        names,
        vec![(NameKind::Ip, "127.0.0.1"), (NameKind::Dns, "node1"), (NameKind::Ip, "10.3.0.1")]
    );
}

#[test]
fn request_for_an_authority() {
    let mut files = FileStore::new();
    let key = Key::new("ca.key", "/secrets");
    let request = Certificate::request("o", "cn", &Vec::new(), &key, None, &mut files).unwrap();
    assert_eq!(files.len(), 1);
    assert_eq!(request.key_pem, bytes(&files, "/secrets/ca.key"));
    assert!(request.authority.is_none());
    assert_eq!(request.profile.issuer, Issuer::Own);
    assert_eq!(request.profile.organization, "o");
    assert_eq!(request.profile.common_name, "cn");
    assert_eq!(request.profile.validity_days, 3650);
    assert!(request.profile.certificate_authority);
    assert!(request.profile.subject_alt_names.is_empty());
}

#[test]
fn request_for_a_leaf() {
    let config = config();
    let mut files = host_files();
    let authority = CaCertificate::new(&config);
    authority.present(&mut files).unwrap();
    let key = Key::new("admin.key", "/secrets");
    let extra = vec!["10.3.0.1".to_string()];
    let request =
        Certificate::request("o", "cn", &extra, &key, Some(&authority), &mut files).unwrap();
    assert_eq!(files.len(), 4);
    assert_eq!(request.key_pem, bytes(&files, "/secrets/admin.key"));
    let signer = request.authority.unwrap();
    assert_eq!(signer.key_pem, bytes(&files, "/secrets/ca.key"));
    assert_eq!(signer.certificate_pem, bytes(&files, "/secrets/ca.crt"));
    assert_eq!(request.profile.issuer, Issuer::Authority);
    assert_eq!(request.profile.validity_days, 365);
    assert!(!request.profile.certificate_authority);
    let names: Vec<(NameKind, &str)> = request
        .profile
        .subject_alt_names
        .iter()
        .map(|name| (name.kind, name.value.as_str()))
        .collect();
    assert_eq!(
        names,
        vec![(NameKind::Ip, "127.0.0.1"), (NameKind::Dns, "node1"), (NameKind::Ip, "10.3.0.1")]
    );
}

#[test]
fn request_keeps_the_key_that_is_there() {
    let mut files = FileStore::new();
    files.write("/secrets/ca.key", b"some text".to_vec());
    let key = Key::new("ca.key", "/secrets");
    let request = Certificate::request("o", "cn", &Vec::new(), &key, None, &mut files).unwrap();
    assert_eq!(files.len(), 1);
    assert_eq!(request.key_pem, b"some text".to_vec());
}

#[test]
fn request_needs_what_it_reads() {
    let config = config();
    let authority = CaCertificate::new(&config);
    let key = Key::new("admin.key", "/secrets");
    // a key that is no text
    let mut files = FileStore::new();
    files.write("/secrets/admin.key", vec![0xff]);
    assert!(Certificate::request("o", "cn", &Vec::new(), &key, None, &mut files).is_err());
    assert_eq!(files.len(), 1);
    // no certificate of the authority
    let mut files = host_files();
    assert!(Certificate::request("o", "cn", &Vec::new(), &key, Some(&authority), &mut files).is_err());
    // no hostname
    let mut files = FileStore::new();
    authority.present(&mut files).unwrap();
    assert!(Certificate::request("o", "cn", &Vec::new(), &key, Some(&authority), &mut files).is_err());
    assert!(files.contains("/secrets/admin.key"));
    // a hostname that is no text
    files.write("/etc/hostname", vec![0xff]);
    assert!(Certificate::request("o", "cn", &Vec::new(), &key, Some(&authority), &mut files).is_err());
    files.write("/etc/hostname", b"node1".to_vec());
    assert!(Certificate::request("o", "cn", &Vec::new(), &key, Some(&authority), &mut files).is_ok());
}

#[test]
fn extensions_are_those_of_the_profile() {
    let authority = CertificateProfile::authority("o", "cn");
    let extra = vec!["10.3.0.1".to_string()];
    let leaf = CertificateProfile::leaf("o", "cn", "node1", &extra);
    assert_eq!(
        basic_constraints_of(&authority).build().unwrap().to_der().unwrap(),
        BasicConstraints::new().critical().ca().build().unwrap().to_der().unwrap()
    );
    assert_eq!(
        basic_constraints_of(&leaf).build().unwrap().to_der().unwrap(),
        BasicConstraints::new().build().unwrap().to_der().unwrap()
    );
    assert_eq!(
        key_usage_of(&authority).build().unwrap().to_der().unwrap(),
        KeyUsage::new()
            .digital_signature()
            .key_encipherment()
            .key_cert_sign()
            .build()
            .unwrap()
            .to_der()
            .unwrap()
    );
    assert_eq!(
        key_usage_of(&leaf).build().unwrap().to_der().unwrap(),
        KeyUsage::new().digital_signature().key_encipherment().build().unwrap().to_der().unwrap()
    );
    assert_eq!(
        extended_key_usage_of(&leaf).build().unwrap().to_der().unwrap(),
        ExtendedKeyUsage::new()
            .server_auth()
            .client_auth()
            .critical()
            .build()
            .unwrap()
            .to_der()
            .unwrap()
    );
    let builder = X509::builder().unwrap();
    let context = builder.x509v3_context(None, None);
    assert_eq!(
        alternative_names_of(&leaf).build(&context).unwrap().to_der().unwrap(),
        SubjectAlternativeName::new()
            .ip("127.0.0.1")
            .dns("node1")
            .ip("10.3.0.1")
            .build(&context)
            .unwrap()
            .to_der()
            .unwrap()
    );
    assert_ne!(
        basic_constraints_of(&authority).build().unwrap().to_der().unwrap(),
        basic_constraints_of(&leaf).build().unwrap().to_der().unwrap()
    );
}

#[test]
fn authority_pem_is_the_certificate_written_out_again() {
    let config = config();
    let mut files = FileStore::new();
    let authority = CaCertificate::new(&config);
    assert_eq!(authority.pem(&files), Err(PKIError::OpenSSLError));
    authority.present(&mut files).unwrap();
    let stored = bytes(&files, "/secrets/ca.crt");
    assert_eq!(authority.pem(&files).unwrap(), stored);
    // text around the certificate is not written out again
    let mut padded = b"a line before\n".to_vec();
    padded.extend_from_slice(&stored);
    files.write("/secrets/ca.crt", padded);
    assert_eq!(authority.pem(&files).unwrap(), stored);
    files.write("/secrets/ca.crt", b"no certificate".to_vec());
    assert_eq!(authority.pem(&files), Err(PKIError::OpenSSLError));
    files.write("/secrets/ca.crt", vec![0xff]);
    assert_eq!(authority.pem(&files), Err(PKIError::OpenSSLError));
}

#[test]
fn issuance_of_the_profiles() {
    let authority = CertificateProfile::authority("o", "cn").issuance();
    assert_eq!(authority.version, 2);
    assert_eq!(authority.not_before_days, 0);
    assert_eq!(authority.not_after_days, 3650);
    assert_eq!(authority.serial_bits, 128);
    assert_eq!(authority.issuer_name, Issuer::Own);
    assert_eq!(authority.signing_key, Issuer::Own);
    let leaf = CertificateProfile::leaf("o", "cn", "node1", &Vec::new()).issuance();
    assert_eq!(leaf.version, 2);
    assert_eq!(leaf.not_before_days, 0);
    assert_eq!(leaf.not_after_days, 365);
    assert_eq!(leaf.serial_bits, 128);
    assert_eq!(leaf.issuer_name, Issuer::Authority);
    assert_eq!(leaf.signing_key, Issuer::Authority);
}

#[test]
fn public_key_keeps_the_key_file() {
    let mut files = FileStore::new();
    let key = Key::new("service-account.key", "/secrets");
    key.present(&mut files).unwrap();
    let before = bytes(&files, "/secrets/service-account.key");
    let first = key.public_key(&files).unwrap();
    let second = key.public_key(&files).unwrap();
    assert_eq!(first, second);
    assert_eq!(files.len(), 1);
    assert_eq!(bytes(&files, "/secrets/service-account.key"), before);
    assert!(!first.contains("PRIVATE"));
}

#[test]
fn encrypted_key_is_not_read() {
    let key = Rsa::generate(2048).unwrap();
    let pem = key.private_key_to_pem_passphrase(Cipher::aes_128_cbc(), b"secret").unwrap();
    let mut files = FileStore::new();
    files.write("/secrets/admin.key", pem.clone());
    assert_eq!(Key::new("admin.key", "/secrets").public_key(&files), Err(PKIError::OpenSSLError));
    // issuing hands the library the empty passphrase, which does not fit
    let profile = CertificateProfile::authority("o", "cn");
    assert!(issue(&profile, &pem, None).is_err());
}

#[test]
fn key_text_that_mentions_encryption_is_not_read() {
    let mut pem = Rsa::generate(2048).unwrap().private_key_to_pem().unwrap();
    pem.extend_from_slice(b"a remark: not ENCRYPTED\n");
    let mut files = FileStore::new();
    files.write("/secrets/admin.key", pem);
    assert_eq!(Key::new("admin.key", "/secrets").public_key(&files), Err(PKIError::OpenSSLError));
}

#[test]
fn authority_certificate_that_mentions_encryption_is_not_read() {
    let config = config();
    let mut files = FileStore::new();
    let authority = CaCertificate::new(&config);
    authority.present(&mut files).unwrap();
    let mut marked = b"Proc-Type: 4,ENCRYPTED\n".to_vec();
    marked.extend_from_slice(&bytes(&files, "/secrets/ca.crt"));
    files.write("/secrets/ca.crt", marked);
    assert_eq!(authority.pem(&files), Err(PKIError::OpenSSLError));
}
