//! The choice of TLS settings: protocol versions and cipher suites named in the configuration,
//! the application protocols offered, the certificate chain and private key presented, and the
//! files they are read from.
use tokio_rustls::rustls::ALL_CIPHER_SUITES;
use vstd::prelude::*;
use vstd::utf8::encode_utf8;

use crate::config::NetConfig;

verus! {

/// A TLS protocol version the service can be restricted to.
#[derive(Clone, Copy, Debug, PartialEq, Eq, Structural)]
pub enum TlsVersion {
    /// TLS 1.2.
    Tls12,
    /// TLS 1.3.
    Tls13,
}

/// The version a configuration name stands for: `"1.2"` and `"1.3"`; no other name is valid.
pub open spec fn version_named(name: Seq<char>) -> Option<TlsVersion> {
    if name == "1.2"@ {
        Some(TlsVersion::Tls12)
    } else if name == "1.3"@ {
        Some(TlsVersion::Tls13)
    } else {
        None
    }
}

/// The version that `name` stands for, if any.
pub fn lookup_version(name: &String) -> (r: Option<TlsVersion>)
    ensures
        r == version_named(name@),
{
    if *name == String::from_str("1.2") {
        Some(TlsVersion::Tls12)
    } else if *name == String::from_str("1.3") {
        Some(TlsVersion::Tls13)
    } else {
        None
    }
}

/// Whether every name in `names` stands for a TLS version.
pub open spec fn versions_known(names: Seq<String>) -> bool {
    forall|i: int| 0 <= i < names.len() ==> (#[trigger] version_named(names[i]@)) is Some
}

/// The versions that `names` stand for, in their order.
pub fn lookup_versions(names: &Vec<String>) -> (r: Vec<TlsVersion>)
    requires
        versions_known(names@),
    ensures
        r@.len() == names@.len(),
        forall|i: int| 0 <= i < r@.len() ==> Some(#[trigger] r@[i]) == version_named(names@[i]@),
{
    let mut out: Vec<TlsVersion> = Vec::new();
    let n = names.len();
    for i in 0..n
        invariant
            n == names@.len(),
            versions_known(names@),
            out@.len() == i,
            forall|j: int| 0 <= j < i ==> Some(#[trigger] out@[j]) == version_named(names@[j]@),
    {
        match lookup_version(&names[i]) {
            Some(v) => out.push(v),
            None => {
                proof {
                    assert(version_named(names@[i as int]@) is Some);
                }
            },
        }
    }
    out
}

/// The cipher suites that rustls supports, in the order of `rustls::ALL_CIPHER_SUITES`, by the
/// names their `Debug` prints.
pub open spec fn cipher_suite_names() -> Seq<Seq<char>> {
    seq![
        "TLS13_AES_256_GCM_SHA384"@,
        "TLS13_AES_128_GCM_SHA256"@,
        "TLS13_CHACHA20_POLY1305_SHA256"@,
        "TLS_ECDHE_ECDSA_WITH_AES_256_GCM_SHA384"@,
        "TLS_ECDHE_ECDSA_WITH_AES_128_GCM_SHA256"@,
        "TLS_ECDHE_ECDSA_WITH_CHACHA20_POLY1305_SHA256"@,
        "TLS_ECDHE_RSA_WITH_AES_256_GCM_SHA384"@,
        "TLS_ECDHE_RSA_WITH_AES_128_GCM_SHA256"@,
        "TLS_ECDHE_RSA_WITH_CHACHA20_POLY1305_SHA256"@,
    ]
}

/// The number of entries of `rustls::ALL_CIPHER_SUITES`. The contract claims that it is the
/// number of names in `cipher_suite_names`, as the source of rustls 0.20 shows with its `tls12`
/// feature on (tokio-rustls turns it on by default).
#[verifier::external_body]
fn rustls_suite_count() -> (r: usize)
    ensures
        r == cipher_suite_names().len(),
{
    ALL_CIPHER_SUITES.len()
}

/// The `Debug` text of the `suite()` of entry `index` of `rustls::ALL_CIPHER_SUITES`. The
/// contract claims that it is the name at `index` in `cipher_suite_names`, as the source of
/// rustls 0.20 shows (the `CipherSuite` enum derives `Debug`, which prints the variant's name,
/// and each entry carries the suite it is named after).
#[verifier::external_body]
fn rustls_suite_name(index: usize) -> (r: String)
    requires
        index < cipher_suite_names().len(),
    ensures
        r@ == cipher_suite_names()[index as int],
{
    format!("{:?}", ALL_CIPHER_SUITES[index].suite())
}

/// What `str::to_lowercase` makes of `text`.
pub uninterp spec fn lowercase(text: Seq<char>) -> Seq<char>;

/// Lower-cases `text` with `str::to_lowercase`. The contract claims that the result is
/// `lowercase` of the text.
#[verifier::external_body]
fn lowercase_text(text: &str) -> (r: String)
    ensures
        r@ == lowercase(text@),
{
    text.to_lowercase()
}

/// Whether the suite at `index` bears `name`, ignoring case.
pub open spec fn suite_matches(index: int, name: Seq<char>) -> bool {
    lowercase(cipher_suite_names()[index]) == lowercase(name)
}

/// Whether `index` is the first suite that bears `name`, ignoring case.
pub open spec fn first_suite(name: Seq<char>, index: int) -> bool {
    &&& 0 <= index < cipher_suite_names().len()
    &&& suite_matches(index, name)
    &&& forall|j: int| 0 <= j < index ==> !#[trigger] suite_matches(j, name)
}

/// Whether some suite bears `name`, ignoring case.
pub open spec fn suite_known(name: Seq<char>) -> bool {
    exists|i: int| 0 <= i < cipher_suite_names().len() && #[trigger] suite_matches(i, name)
}

/// The position in `rustls::ALL_CIPHER_SUITES` of the first suite named `name`, ignoring case.
pub fn find_suite(name: &String) -> (r: Option<usize>)
    ensures
        match r {
            Some(i) => first_suite(name@, i as int),
            None => !suite_known(name@),
        },
{
    let wanted = lowercase_text(name.as_str());
    let n = rustls_suite_count();
    for i in 0..n
        invariant
            n == cipher_suite_names().len(),
            wanted@ == lowercase(name@),
            forall|j: int| 0 <= j < i ==> !#[trigger] suite_matches(j, name@),
    {
        let suite_name = rustls_suite_name(i);
        let candidate = lowercase_text(suite_name.as_str());
        if candidate == wanted {
            return Some(i);
        }
    }
    None
}

/// Cipher suite names are matched regardless of case: names that lower-case alike select the
/// same suite.
pub proof fn law_suite_names_ignore_case(name: Seq<char>, other: Seq<char>, index: int)
    requires
        lowercase(name) == lowercase(other),
    ensures
        first_suite(name, index) <==> first_suite(other, index),
        suite_known(name) <==> suite_known(other),
{
    assert forall|j: int|
        #![trigger suite_matches(j, name)]
        #![trigger suite_matches(j, other)]
        suite_matches(j, name) <==> suite_matches(j, other) by {}
}

/// Whether every name in `names` names a suite.
pub open spec fn suites_known(names: Seq<String>) -> bool {
    forall|i: int| 0 <= i < names.len() ==> #[trigger] suite_known(names[i]@)
}

/// The positions in `rustls::ALL_CIPHER_SUITES` of the suites that `names` name, in their order.
pub fn lookup_suites(names: &Vec<String>) -> (r: Vec<usize>)
    requires
        suites_known(names@),
    ensures
        r@.len() == names@.len(),
        forall|i: int| 0 <= i < r@.len() ==> first_suite(names@[i]@, #[trigger] r@[i] as int),
{
    let mut out: Vec<usize> = Vec::new();
    let n = names.len();
    for i in 0..n
        invariant
            n == names@.len(),
            suites_known(names@),
            out@.len() == i,
            forall|j: int| 0 <= j < i ==> first_suite(names@[j]@, #[trigger] out@[j] as int),
    {
        match find_suite(&names[i]) {
            Some(s) => out.push(s),
            None => {
                proof {
                    assert(suite_known(names@[i as int]@));
                }
            },
        }
    }
    out
}

/// The application protocols to offer: the UTF-8 bytes of each name, in their order.
pub fn alpn_protocols(names: &Vec<String>) -> (r: Vec<Vec<u8>>)
    ensures
        r@.len() == names@.len(),
        forall|i: int| 0 <= i < r@.len() ==> (#[trigger] r@[i])@ == encode_utf8(names@[i]@),
{
    let mut out: Vec<Vec<u8>> = Vec::new();
    let n = names.len();
    for i in 0..n
        invariant
            n == names@.len(),
            out@.len() == i,
            forall|j: int| 0 <= j < i ==> (#[trigger] out@[j])@ == encode_utf8(names@[j]@),
    {
        out.push(names[i].as_str().as_bytes_vec());
    }
    out
}

/// The certificate chain to present: a lone certificate is followed by the authority's
/// certificates, so that the peer receives a chain; otherwise the certificates as they are.
pub open spec fn completed_chain(certs: Seq<Vec<u8>>, ca_certs: Seq<Vec<u8>>) -> Seq<Vec<u8>> {
    if certs.len() == 1 && ca_certs.len() > 0 {
        certs + ca_certs
    } else {
        certs
    }
}

/// A lone certificate is presented followed by every certificate of the authority, in their
/// order; any other list of certificates is presented as it is.
pub proof fn law_lone_certificate_gets_every_ca(certs: Seq<Vec<u8>>, ca_certs: Seq<Vec<u8>>)
    ensures
        certs.len() == 1 && ca_certs.len() > 0 ==> {
            let chain = completed_chain(certs, ca_certs);
            &&& chain.len() == 1 + ca_certs.len()
            &&& chain[0] == certs[0]
            &&& forall|i: int| 0 <= i < ca_certs.len() ==> #[trigger] chain[i + 1] == ca_certs[i]
        },
        !(certs.len() == 1 && ca_certs.len() > 0) ==> completed_chain(certs, ca_certs) == certs,
{
}

/// The certificate chain to present, from the node's certificates and the authority's.
pub fn complete_cert_chain(certs: Vec<Vec<u8>>, ca_certs: Vec<Vec<u8>>) -> (r: Vec<Vec<u8>>)
    ensures
        r@ == completed_chain(certs@, ca_certs@),
        certs@.len() == 1 && ca_certs@.len() > 0 ==> {
            &&& r@.len() == 1 + ca_certs@.len()
            &&& r@[0] == certs@[0]
            &&& forall|i: int| 0 <= i < ca_certs@.len() ==> #[trigger] r@[i + 1] == ca_certs@[i]
        },
        !(certs@.len() == 1 && ca_certs@.len() > 0) ==> r@ == certs@,
{
    let mut certs = certs;
    let mut ca_certs = ca_certs;
    if certs.len() == 1 && ca_certs.len() > 0 {
        certs.append(&mut ca_certs);
    }
    certs
}

/// The private key to use, from the RSA keys and the PKCS #8 keys found in the key file: the
/// first PKCS #8 key where there is one, else the first RSA key.
pub fn select_private_key(rsa_keys: Vec<Vec<u8>>, pkcs8_keys: Vec<Vec<u8>>) -> (r: Vec<u8>)
    requires
        pkcs8_keys@.len() > 0 || rsa_keys@.len() > 0,
    ensures
        r == (if pkcs8_keys@.len() > 0 {
            pkcs8_keys@[0]
        } else {
            rsa_keys@[0]
        }),
{
    let mut rsa_keys = rsa_keys;
    let mut pkcs8_keys = pkcs8_keys;
    if pkcs8_keys.len() > 0 {
        pkcs8_keys.swap_remove(0)
    } else {
        rsa_keys.swap_remove(0)
    }
}

/// The contents of a list of byte buffers.
pub open spec fn byte_seqs(v: Seq<Vec<u8>>) -> Seq<Seq<u8>> {
    v.map_values(|b: Vec<u8>| b@)
}

/// What `rustls_pemfile::certs` finds in the PEM text `pem`: the DER bytes of each certificate
/// section, in their order, or `None` where the text is not well-formed PEM.
pub uninterp spec fn pem_certificates(pem: Seq<u8>) -> Option<Seq<Seq<u8>>>;

/// What `rustls_pemfile::rsa_private_keys` finds in the PEM text `pem`: the DER bytes of each
/// RSA key section, in their order, or `None` where the text is not well-formed PEM.
pub uninterp spec fn pem_rsa_keys(pem: Seq<u8>) -> Option<Seq<Seq<u8>>>;

/// What `rustls_pemfile::pkcs8_private_keys` finds in the PEM text `pem`: the DER bytes of
/// each PKCS #8 key section, in their order, or `None` where the text is not well-formed PEM.
pub uninterp spec fn pem_pkcs8_keys(pem: Seq<u8>) -> Option<Seq<Seq<u8>>>;

/// Reads the certificates of the PEM text `pem` with `rustls_pemfile::certs`. The contract
/// claims that the outcome is `pem_certificates` of the bytes: reading from a byte slice cannot
/// fail, so the outcome depends on the bytes alone.
#[verifier::external_body]
fn parse_certificates(pem: &[u8]) -> (r: Option<Vec<Vec<u8>>>)
    ensures
        match r {
            Some(v) => pem_certificates(pem@) == Some(byte_seqs(v@)),
            None => pem_certificates(pem@) is None,
        },
{
    let mut reader: &[u8] = pem;
    rustls_pemfile::certs(&mut reader).ok()
}

/// Reads the RSA private keys of the PEM text `pem` with `rustls_pemfile::rsa_private_keys`.
/// The contract claims that the outcome is `pem_rsa_keys` of the bytes.
#[verifier::external_body]
fn parse_rsa_keys(pem: &[u8]) -> (r: Option<Vec<Vec<u8>>>)
    ensures
        match r {
            Some(v) => pem_rsa_keys(pem@) == Some(byte_seqs(v@)),
            None => pem_rsa_keys(pem@) is None,
        },
{
    let mut reader: &[u8] = pem;
    rustls_pemfile::rsa_private_keys(&mut reader).ok()
}

/// Reads the PKCS #8 private keys of the PEM text `pem` with
/// `rustls_pemfile::pkcs8_private_keys`. The contract claims that the outcome is
/// `pem_pkcs8_keys` of the bytes.
#[verifier::external_body]
fn parse_pkcs8_keys(pem: &[u8]) -> (r: Option<Vec<Vec<u8>>>)
    ensures
        match r {
            Some(v) => pem_pkcs8_keys(pem@) == Some(byte_seqs(v@)),
            None => pem_pkcs8_keys(pem@) is None,
        },
{
    let mut reader: &[u8] = pem;
    rustls_pemfile::pkcs8_private_keys(&mut reader).ok()
}

/// The certificates (DER bytes) of a certificate file's contents, in their order; `None` where
/// the contents are not well-formed PEM.
pub fn certificates_from_pem(pem: &[u8]) -> (r: Option<Vec<Vec<u8>>>)
    ensures
        match r {
            Some(v) => pem_certificates(pem@) == Some(byte_seqs(v@)),
            None => pem_certificates(pem@) is None,
        },
{
    parse_certificates(pem)
}

/// Why no private key could be taken from a key file.
#[derive(Clone, Copy, Debug, PartialEq, Eq, Structural)]
pub enum KeyFileError {
    /// The contents could not be read for RSA keys.
    InvalidRsaKey,
    /// The contents could not be read for PKCS #8 keys.
    InvalidPkcs8Key,
    /// The file holds neither kind of key.
    NoKey,
}

/// The private key (DER bytes) of a key file's contents: the first PKCS #8 key where there is
/// one, else the first RSA key. The contents are read for RSA keys first, then for PKCS #8
/// keys; the first reading that fails is reported, and a file with no key is refused.
pub fn private_key_from_pem(pem: &[u8]) -> (r: Result<Vec<u8>, KeyFileError>)
    ensures
        match (pem_rsa_keys(pem@), pem_pkcs8_keys(pem@)) {
            (None, _) => r == Err::<Vec<u8>, KeyFileError>(KeyFileError::InvalidRsaKey),
            (Some(_), None) => r == Err::<Vec<u8>, KeyFileError>(KeyFileError::InvalidPkcs8Key),
            (Some(rsa), Some(pkcs8)) => if pkcs8.len() > 0 {
                r matches Ok(k) && k@ == pkcs8[0]
            } else if rsa.len() > 0 {
                r matches Ok(k) && k@ == rsa[0]
            } else {
                r == Err::<Vec<u8>, KeyFileError>(KeyFileError::NoKey)
            },
        },
{
    let rsa_keys = match parse_rsa_keys(pem) {
        Some(keys) => keys,
        None => return Err(KeyFileError::InvalidRsaKey),
    };
    let pkcs8_keys = match parse_pkcs8_keys(pem) {
        Some(keys) => keys,
        None => return Err(KeyFileError::InvalidPkcs8Key),
    };
    if pkcs8_keys.len() == 0 && rsa_keys.len() == 0 {
        return Err(KeyFileError::NoKey);
    }
    proof {
        assert(byte_seqs(pkcs8_keys@).len() == pkcs8_keys@.len());
        assert(byte_seqs(rsa_keys@).len() == rsa_keys@.len());
    }
    Ok(select_private_key(rsa_keys, pkcs8_keys))
}

/// The protocol settings that the configuration asks for: the cipher suites (positions in
/// `rustls::ALL_CIPHER_SUITES`), the protocol versions and the application protocols; `None`
/// where the configuration leaves rustls's choice.
pub struct TlsProfile {
    /// The cipher suites to offer.
    pub cipher_suites: Option<Vec<usize>>,
    /// The protocol versions to offer.
    pub versions: Option<Vec<TlsVersion>>,
    /// The application protocols to offer.
    pub alpn_protocols: Option<Vec<Vec<u8>>>,
}

/// Whether the configuration names only known cipher suites and protocol versions.
pub open spec fn tls_names_known(config: NetConfig) -> bool {
    &&& (config.cypher_suits matches Some(v) ==> suites_known(v@))
    &&& (config.protocols matches Some(v) ==> versions_known(v@))
}

/// Whether `profile` holds the settings that `config` asks for: the first suite bearing each
/// configured suite name, the version each configured protocol name stands for, and the UTF-8
/// bytes of each protocol name as an application protocol.
pub open spec fn profile_of(config: NetConfig, profile: TlsProfile) -> bool {
    &&& match config.cypher_suits {
        Some(names) => profile.cipher_suites matches Some(s) && s@.len() == names@.len() && forall|
            i: int,
        | 0 <= i < s@.len() ==> first_suite(names@[i]@, #[trigger] s@[i] as int),
        None => profile.cipher_suites is None,
    }
    &&& match config.protocols {
        Some(names) => {
            &&& profile.versions matches Some(v) && v@.len() == names@.len() && forall|i: int|
                0 <= i < v@.len() ==> Some(#[trigger] v@[i]) == version_named(names@[i]@)
            &&& profile.alpn_protocols matches Some(p) && p@.len() == names@.len() && forall|i: int|
                0 <= i < p@.len() ==> (#[trigger] p@[i])@ == encode_utf8(names@[i]@)
        },
        None => profile.versions is None && profile.alpn_protocols is None,
    }
}

/// The protocol settings that `config` asks for. The configured protocol names are both the
/// versions to offer and the application protocols.
pub fn tls_profile(config: &NetConfig) -> (r: TlsProfile)
    requires
        tls_names_known(*config),
    ensures
        profile_of(*config, r),
{
    let cipher_suites = match &config.cypher_suits {
        Some(names) => Some(lookup_suites(names)),
        None => None,
    };
    let (versions, alpn) = match &config.protocols {
        Some(names) => (Some(lookup_versions(names)), Some(alpn_protocols(names))),
        None => (None, None),
    };
    TlsProfile { cipher_suites, versions, alpn_protocols: alpn }
}

/// A name in the configuration that stands for nothing.
pub enum TlsNameError {
    /// No cipher suite bears this name.
    UnknownCipherSuite(String),
    /// This names no protocol version.
    UnknownVersion(String),
}

/// The position of the first name in `names` that names no suite.
pub open spec fn first_unknown_suite(names: Seq<String>, i: int) -> bool {
    &&& 0 <= i < names.len()
    &&& !suite_known(names[i]@)
    &&& forall|j: int| 0 <= j < i ==> #[trigger] suite_known(names[j]@)
}

/// The position of the first name in `names` that stands for no version.
pub open spec fn first_unknown_version(names: Seq<String>, i: int) -> bool {
    &&& 0 <= i < names.len()
    &&& version_named(names[i]@) is None
    &&& forall|j: int| 0 <= j < i ==> (#[trigger] version_named(names[j]@)) is Some
}

/// The first configured cipher suite name that names no suite, if any.
fn unknown_suite(names: &Vec<String>) -> (r: Option<String>)
    ensures
        match r {
            Some(n) => exists|i: int| first_unknown_suite(names@, i) && #[trigger] names@[i]@ == n@,
            None => suites_known(names@),
        },
{
    let n = names.len();
    for i in 0..n
        invariant
            n == names@.len(),
            forall|j: int| 0 <= j < i ==> #[trigger] suite_known(names@[j]@),
    {
        if find_suite(&names[i]).is_none() {
            let name = names[i].clone();
            proof {
                assert(first_unknown_suite(names@, i as int));
            }
            return Some(name);
        }
    }
    None
}

/// The first configured protocol name that stands for no version, if any.
fn unknown_version(names: &Vec<String>) -> (r: Option<String>)
    ensures
        match r {
            Some(n) => exists|i: int| first_unknown_version(names@, i) && #[trigger] names@[i]@ == n@,
            None => versions_known(names@),
        },
{
    let n = names.len();
    for i in 0..n
        invariant
            n == names@.len(),
            forall|j: int| 0 <= j < i ==> (#[trigger] version_named(names@[j]@)) is Some,
    {
        if lookup_version(&names[i]).is_none() {
            let name = names[i].clone();
            proof {
                assert(first_unknown_version(names@, i as int));
            }
            return Some(name);
        }
    }
    None
}

/// The protocol settings that `config` asks for, or the first name that stands for nothing: the
/// cipher suite names are looked at before the protocol names.
pub fn resolve_tls_profile(config: &NetConfig) -> (r: Result<TlsProfile, TlsNameError>)
    ensures
        r is Ok <==> tls_names_known(*config),
        match r {
            Ok(p) => profile_of(*config, p),
            Err(TlsNameError::UnknownCipherSuite(n)) => config.cypher_suits matches Some(names)
                && exists|i: int| first_unknown_suite(names@, i) && #[trigger] names@[i]@ == n@,
            Err(TlsNameError::UnknownVersion(n)) => {
                &&& (config.cypher_suits matches Some(names) ==> suites_known(names@))
                &&& config.protocols matches Some(names) && exists|i: int|
                    first_unknown_version(names@, i) && #[trigger] names@[i]@ == n@
            },
        },
{
    if let Some(names) = &config.cypher_suits {
        if let Some(name) = unknown_suite(names) {
            proof {
                let i = choose|i: int| first_unknown_suite(names@, i) && #[trigger] names@[i]@ == name@;
                assert(!suite_known(names@[i]@));
            }
            return Err(TlsNameError::UnknownCipherSuite(name));
        }
    }
    if let Some(names) = &config.protocols {
        if let Some(name) = unknown_version(names) {
            proof {
                let i = choose|i: int| first_unknown_version(names@, i) && #[trigger] names@[i]@ == name@;
                assert(version_named(names@[i]@) is None);
            }
            return Err(TlsNameError::UnknownVersion(name));
        }
    }
    Ok(tls_profile(config))
}

/// The files the server side of TLS reads: the authority's certificate, the node's certificate
/// chain and its private key.
pub struct ServerTlsFiles {
    /// The authority's certificate.
    pub ca_cert: String,
    /// The node's certificate chain.
    pub cert_chain: String,
    /// The node's private key.
    pub private_key: String,
}

/// The files the server side of TLS reads; all three must be configured.
pub fn server_tls_files(config: &NetConfig) -> (r: ServerTlsFiles)
    requires
        config.ca_cert is Some,
        config.server_chain_certs is Some,
        config.server_key is Some,
    ensures
        r.ca_cert@ == config.ca_cert->0@,
        r.cert_chain@ == config.server_chain_certs->0@,
        r.private_key@ == config.server_key->0@,
{
    let ca_cert = match &config.ca_cert {
        Some(f) => f.clone(),
        None => String::new(),
    };
    let cert_chain = match &config.server_chain_certs {
        Some(f) => f.clone(),
        None => String::new(),
    };
    let private_key = match &config.server_key {
        Some(f) => f.clone(),
        None => String::new(),
    };
    ServerTlsFiles { ca_cert, cert_chain, private_key }
}

/// The files the client side of TLS reads: the authority's certificate and, where the node
/// presents a certificate of its own, its private key and certificate chain.
pub struct ClientTlsFiles {
    /// The authority's certificate.
    pub ca_cert: String,
    /// The node's private key and certificate chain, where it presents them.
    pub identity: Option<(String, String)>,
}

/// Whether the configuration names the files the client side of TLS needs: the authority's
/// certificate, and the key and the chain together or neither.
pub open spec fn client_files_complete(config: NetConfig) -> bool {
    &&& config.ca_cert is Some
    &&& (config.server_key is Some || config.server_chain_certs is Some) ==> (
    config.server_key is Some && config.server_chain_certs is Some)
}

/// The files the client side of TLS reads: the node presents its own certificate where a key or
/// a chain is configured, and then both must be.
pub fn client_tls_files(config: &NetConfig) -> (r: ClientTlsFiles)
    requires
        client_files_complete(*config),
    ensures
        r.ca_cert@ == config.ca_cert->0@,
        match r.identity {
            Some(id) => config.server_key matches Some(k) && config.server_chain_certs matches Some(
                c,
            ) && id.0@ == k@ && id.1@ == c@,
            None => config.server_key is None && config.server_chain_certs is None,
        },
{
    let ca_cert = match &config.ca_cert {
        Some(f) => f.clone(),
        None => String::new(),
    };
    let identity = match (&config.server_key, &config.server_chain_certs) {
        (Some(k), Some(c)) => Some((k.clone(), c.clone())),
        _ => None,
    };
    ClientTlsFiles { ca_cert, identity }
}

} // verus!
