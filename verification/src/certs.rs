//! The certificate authority: a root certificate, loaded or generated once,
//! and the TLS server configurations issued under it, one for each domain and
//! kept for as long as the authority lives.
//!
//! Keys and signatures are made by `rcgen`, PEM is read by `rustls_pemfile`
//! and the server configuration is built by `rustls`. The root is held as
//! its two PEM texts, so that everything said of it is said of plain text.
//! What is decided here is which root is fit to sign with, when a root is
//! loaded and when it is generated, which leaf is issued and which is
//! reused, what goes into a leaf's chain, what is handed to the TLS library,
//! and which protocols a configuration offers.

use crate::cache::{join_path, joined};
use crate::text::{push_char, to_chars};
use std::sync::Arc;
use tokio_rustls::rustls::ServerConfig;
use vstd::prelude::*;
use vstd::string::StringExecFns;
use vstd::utf8::is_ascii_chars;

verus! {

#[verifier::external_type_specification]
#[verifier::external_body]
pub struct ExRcgenError(rcgen::RcgenError);

#[verifier::external_type_specification]
#[verifier::external_body]
pub struct ExServerConfig(ServerConfig);

#[verifier::external_type_specification]
#[verifier::external_body]
pub struct ExTlsError(tokio_rustls::rustls::Error);

/// Why the authority could not do what was asked.
#[derive(Clone, Copy, Debug, PartialEq, Eq, Structural)]
pub enum CertificateAuthorityError {
    /// The stored root certificate or its key could not be read.
    MalformedRoot,
    /// A new root could not be generated.
    RootGeneration,
    /// The domain holds characters outside ASCII.
    InvalidDomain,
    /// The leaf certificate could not be generated or signed.
    Issuance,
    /// The chain of the leaf and the root could not be read back.
    UnreadableChain,
    /// The leaf came without a private key.
    MissingKey,
    /// The TLS library refused the chain or the key.
    TlsConfig,
}

/// The root certificate and its private key, both as PEM text.
#[derive(Clone, Debug)]
pub struct RootFiles {
    pub cert_pem: String,
    pub key_pem: String,
}

/// Where the root certificate is kept in the directory `dir`.
pub fn root_cert_path(dir: &str) -> (path: String)
    ensures
        path@ == joined(dir@, "ca.crt"@),
{
    join_path(dir, "ca.crt")
}

/// Where the root's private key is kept in the directory `dir`.
pub fn root_key_path(dir: &str) -> (path: String)
    ensures
        path@ == joined(dir@, "ca.key"@),
{
    join_path(dir, "ca.key")
}

/// The organisation named in a generated root.
pub fn root_organization() -> (name: &'static str)
    ensures
        name@ == "Sentiric Traffic Cache"@,
{
    "Sentiric Traffic Cache"
}

/// The common name of a generated root.
pub fn root_common_name() -> (name: &'static str)
    ensures
        name@ == "Sentiric CA (Development)"@,
{
    "Sentiric CA (Development)"
}

/// One entry of a root's subject, as far as writing it again can go wrong:
/// the components of the attribute's object identifier where it is none of
/// the six standard attributes, and the value where it is a PrintableString.
pub open spec fn subject_view(entries: Option<Vec<(Option<Vec<u64>>, Option<String>)>>) -> Option<
    Seq<(Option<Seq<u64>>, Option<Seq<char>>)>,
> {
    match entries {
        Some(list) => Some(Seq::new(list@.len(), |i: int| entry_view(list@[i]))),
        None => None,
    }
}

/// The view of one subject entry.
pub open spec fn entry_view(entry: (Option<Vec<u64>>, Option<String>)) -> (Option<Seq<u64>>, Option<Seq<char>>) {
    (
        match entry.0 {
            Some(oid) => Some(oid@),
            None => None,
        },
        match entry.1 {
            Some(text) => Some(text@),
            None => None,
        },
    )
}

/// What loading a stored root gives: `None` where the certificate and its
/// key do not load as a signing certificate, otherwise the entries of the
/// certificate's subject, in order.
pub uninterp spec fn stored_subject(cert_pem: Seq<char>, key_pem: Seq<char>) -> Option<
    Seq<(Option<Seq<u64>>, Option<Seq<char>>)>,
>;

/// `KeyPair::from_pem`, `CertificateParams::from_ca_cert_pem` and
/// `Certificate::from_params`, then the entries of the loaded subject, each
/// reduced to the two things that the encoder is particular about. The
/// outcome is a function of the two texts alone; this contract does no more
/// than name it.
#[verifier::external_body]
pub(crate) fn root_subject(cert_pem: &str, key_pem: &str) -> (entries: Option<Vec<(Option<Vec<u64>>, Option<String>)>>)
    ensures
        subject_view(entries) == stored_subject(cert_pem@, key_pem@),
{
    let key = rcgen::KeyPair::from_pem(key_pem).ok()?;
    let params = rcgen::CertificateParams::from_ca_cert_pem(cert_pem, key).ok()?;
    let root = rcgen::Certificate::from_params(params).ok()?;
    let mut entries = Vec::new();
    for (kind, value) in root.get_params().distinguished_name.iter() {
        let oid = match kind { rcgen::DnType::CustomDnType(oid) => Some(oid.clone()), _ => None };
        let printable = match value { rcgen::DnValue::PrintableString(text) => Some(text.clone()), _ => None };
        entries.push((oid, printable));
    }
    Some(entries)
}

/// Whether the encoder takes an object identifier: at least two components,
/// the first below three, the second below forty unless the first is two.
pub open spec fn is_writable_oid(oid: Seq<u64>) -> bool {
    &&& oid.len() >= 2
    &&& oid[0] < 3
    &&& oid[1] < 18446744073709551535
    &&& (oid[0] >= 2 || oid[1] < 40)
}

/// Whether a character may stand in a PrintableString as the encoder reads
/// the rule: a letter, a digit, a space, or one of `' ( ) + , - . / : =`.
pub open spec fn is_printable_char(c: char) -> bool {
    ||| c == ' '
    ||| ('\'' <= c && c <= ':' && c != '*')
    ||| c == '='
    ||| ('A' <= c && c <= 'Z')
    ||| ('a' <= c && c <= 'z')
}

/// Whether a text may stand in a PrintableString.
pub open spec fn is_printable_text(text: Seq<char>) -> bool {
    forall|i: int| 0 <= i < text.len() ==> is_printable_char(#[trigger] text[i])
}

/// Whether the encoder takes a subject entry.
pub open spec fn is_writable_entry(entry: (Option<Seq<u64>>, Option<Seq<char>>)) -> bool {
    &&& match entry.0 {
        Some(oid) => is_writable_oid(oid),
        None => true,
    }
    &&& match entry.1 {
        Some(text) => is_printable_text(text),
        None => true,
    }
}

/// Whether the encoder takes every entry of a subject.
pub open spec fn is_writable_subject(entries: Seq<(Option<Seq<u64>>, Option<Seq<char>>)>) -> bool {
    forall|i: int| 0 <= i < entries.len() ==> is_writable_entry(#[trigger] entries[i])
}

/// Whether a certificate and its key are fit to sign with: they load, and
/// the subject, which every leaf repeats as its issuer, can be written again.
pub open spec fn is_signing_root(cert_pem: Seq<char>, key_pem: Seq<char>) -> bool {
    match stored_subject(cert_pem, key_pem) {
        Some(entries) => is_writable_subject(entries),
        None => false,
    }
}

fn is_printable(text: &str) -> (r: bool)
    ensures
        r == is_printable_text(text@),
{
    let chars = to_chars(text);
    let mut i: usize = 0;
    while i < chars.len()
        invariant
            i <= chars.len(),
            chars@ == text@,
            forall|j: int| 0 <= j < i ==> is_printable_char(#[trigger] text@[j]),
        decreases chars.len() - i,
    {
        let c = chars[i];
        let ok = c == ' ' || (c >= '\'' && c <= ':' && c != '*') || c == '=' || (c >= 'A' && c <= 'Z') || (c
            >= 'a' && c <= 'z');
        if !ok {
            assert(!is_printable_char(text@[i as int]));
            return false;
        }
        i += 1;
    }
    true
}

fn is_writable(entry: &(Option<Vec<u64>>, Option<String>)) -> (r: bool)
    ensures
        r == is_writable_entry(entry_view(*entry)),
{
    let oid_ok = match &entry.0 {
        Some(oid) => oid.len() >= 2 && oid[0] < 3 && oid[1] < 18446744073709551535 && (oid[0] >= 2 || oid[1]
            < 40),
        None => true,
    };
    let text_ok = match &entry.1 {
        Some(text) => is_printable(text.as_str()),
        None => true,
    };
    oid_ok && text_ok
}

/// Whether a certificate and its key are fit to sign with.
pub fn can_sign(cert_pem: &str, key_pem: &str) -> (r: bool)
    ensures
        r == is_signing_root(cert_pem@, key_pem@),
{
    match root_subject(cert_pem, key_pem) {
        None => false,
        Some(entries) => {
            let mut i: usize = 0;
            while i < entries.len()
                invariant
                    i <= entries.len(),
                    subject_view(Some(entries)) == stored_subject(cert_pem@, key_pem@),
                    forall|j: int|
                        0 <= j < i ==> is_writable_entry(#[trigger] stored_subject(cert_pem@, key_pem@).unwrap()[j]),
                decreases entries.len() - i,
            {
                assert(stored_subject(cert_pem@, key_pem@).unwrap()[i as int] == entry_view(entries@[i as int]));
                if !is_writable(&entries[i]) {
                    return false;
                }
                i += 1;
            }
            true
        },
    }
}

/// `Certificate::from_params` on the parameters of a certificate authority
/// without path length limit, with the given organisation and common name
/// and an ECDSA P-256 key, then `serialize_pem` and
/// `serialize_private_key_pem`: the two PEM texts of a new root. The key is
/// random; nothing is claimed of the outcome.
#[verifier::external_body]
pub(crate) fn generate_root(organization: &str, common_name: &str) -> Result<(String, String), rcgen::RcgenError> {
    let mut params = rcgen::CertificateParams::new(Vec::<String>::new());
    params.is_ca = rcgen::IsCa::Ca(rcgen::BasicConstraints::Unconstrained);
    params.distinguished_name = rcgen::DistinguishedName::new();
    params.distinguished_name.push(rcgen::DnType::OrganizationName, organization);
    params.distinguished_name.push(rcgen::DnType::CommonName, common_name);
    params.alg = &rcgen::PKCS_ECDSA_P256_SHA256;
    let cert = rcgen::Certificate::from_params(params)?;
    let cert_pem = cert.serialize_pem()?;
    Ok((cert_pem, cert.serialize_private_key_pem()))
}

/// The root is loaded from its two texts as `root_subject` loads it; then
/// `Certificate::from_params` on the parameters of a certificate for
/// `domain`, named as subject alternative name and as common name, with an
/// ECDSA P-256 key, `serialize_pem_with_signer` under the root and
/// `serialize_private_key_pem`: the leaf's certificate and key as PEM texts.
/// The encoder panics on a name outside ASCII and on an issuer that it
/// cannot write; both are left out. The key is random; nothing is claimed of
/// the outcome.
#[verifier::external_body]
pub(crate) fn issue_leaf(root_pem: &str, root_key_pem: &str, domain: &str) -> Result<
    (String, String),
    rcgen::RcgenError,
>
    requires
        is_ascii_chars(domain@),
        is_signing_root(root_pem@, root_key_pem@),
{
    let key = rcgen::KeyPair::from_pem(root_key_pem)?;
    let root = rcgen::Certificate::from_params(rcgen::CertificateParams::from_ca_cert_pem(root_pem, key)?)?;
    let mut params = rcgen::CertificateParams::new(vec![domain.to_string()]);
    params.distinguished_name = rcgen::DistinguishedName::new();
    params.distinguished_name.push(rcgen::DnType::CommonName, domain);
    params.alg = &rcgen::PKCS_ECDSA_P256_SHA256;
    let leaf = rcgen::Certificate::from_params(params)?;
    let cert_pem = leaf.serialize_pem_with_signer(&root)?;
    Ok((cert_pem, leaf.serialize_private_key_pem()))
}

/// The certificates that a PEM text holds, each in DER, in the text's order;
/// `None` where the text is damaged.
pub uninterp spec fn pem_certificate_ders(pem: Seq<char>) -> Option<Seq<Seq<u8>>>;

/// The PKCS#8 private keys that a PEM text holds, each in DER, in the text's
/// order; `None` where the text is damaged.
pub uninterp spec fn pem_private_key_ders(pem: Seq<char>) -> Option<Seq<Seq<u8>>>;

/// Whether the TLS library takes a private key given in DER.
pub uninterp spec fn tls_key_accepted(key_der: Seq<u8>) -> bool;

/// The views of DER blobs, in order.
pub open spec fn der_views(ders: Seq<Vec<u8>>) -> Seq<Seq<u8>> {
    Seq::new(ders.len(), |i: int| ders[i]@)
}

/// The view of a list of DER blobs.
pub open spec fn ders_view(ders: Option<Vec<Vec<u8>>>) -> Option<Seq<Seq<u8>>> {
    match ders {
        Some(list) => Some(der_views(list@)),
        None => None,
    }
}

/// `rustls_pemfile::certs` on the bytes of a text. The outcome is a function
/// of the text alone; this contract does no more than name it.
#[verifier::external_body]
pub(crate) fn pem_certificates(pem: &str) -> (ders: Option<Vec<Vec<u8>>>)
    ensures
        ders_view(ders) == pem_certificate_ders(pem@),
{
    rustls_pemfile::certs(&mut pem.as_bytes()).ok()
}

/// `rustls_pemfile::pkcs8_private_keys` on the bytes of a text. The outcome
/// is a function of the text alone; this contract does no more than name it.
#[verifier::external_body]
pub(crate) fn pem_private_keys(pem: &str) -> (ders: Option<Vec<Vec<u8>>>)
    ensures
        ders_view(ders) == pem_private_key_ders(pem@),
{
    rustls_pemfile::pkcs8_private_keys(&mut pem.as_bytes()).ok()
}

/// `ServerConfig::builder` with the safe defaults, no client authentication
/// and `with_single_cert` on the chain and the key; the protocols to offer
/// are then written into the configuration. The library refuses exactly the
/// keys that it cannot read, whatever the chain; which those are is named,
/// not stated.
#[verifier::external_body]
pub(crate) fn tls_server_config(chain: Vec<Vec<u8>>, key: Vec<u8>, protocols: Vec<Vec<u8>>) -> (config: Result<
    Arc<ServerConfig>,
    tokio_rustls::rustls::Error,
>)
    ensures
        config is Ok == tls_key_accepted(key@),
{
    let chain = chain.into_iter().map(tokio_rustls::rustls::Certificate).collect();
    let mut config = ServerConfig::builder()
        .with_safe_defaults()
        .with_no_client_auth()
        .with_single_cert(chain, tokio_rustls::rustls::PrivateKey(key))?;
    config.alpn_protocols = protocols;
    Ok(Arc::new(config))
}

/// `Arc::clone`: another handle on the same configuration.
#[verifier::external_body]
pub(crate) fn share_config(config: &Arc<ServerConfig>) -> (shared: Arc<ServerConfig>)
    ensures
        shared == *config,
{
    Arc::clone(config)
}

/// The protocols offered in the TLS handshake, most preferred first: `h2`,
/// then `http/1.1`.
pub open spec fn offered_protocols() -> Seq<Seq<u8>> {
    seq![seq![104u8, 50u8], seq![104u8, 116u8, 116u8, 112u8, 47u8, 49u8, 46u8, 49u8]]
}

/// The protocols offered in the TLS handshake.
pub fn alpn_protocols() -> (protocols: Vec<Vec<u8>>)
    ensures
        protocols@.len() == 2,
        protocols@[0]@ == offered_protocols()[0],
        protocols@[1]@ == offered_protocols()[1],
{
    let mut h2: Vec<u8> = Vec::new();
    h2.push(104);
    h2.push(50);
    let mut http11: Vec<u8> = Vec::new();
    http11.push(104);
    http11.push(116);
    http11.push(116);
    http11.push(112);
    http11.push(47);
    http11.push(49);
    http11.push(46);
    http11.push(49);
    let mut protocols: Vec<Vec<u8>> = Vec::new();
    protocols.push(h2);
    protocols.push(http11);
    assert(protocols@[0]@ =~= offered_protocols()[0]);
    assert(protocols@[1]@ =~= offered_protocols()[1]);
    protocols
}

/// The PEM text of a leaf's chain: the leaf, a line break, the root.
pub open spec fn chain_text(leaf_pem: Seq<char>, root_pem: Seq<char>) -> Seq<char> {
    leaf_pem.push('\n') + root_pem
}

/// A leaf certificate issued for one domain, with the server configuration
/// that presents it.
pub struct LeafCertificateEntry {
    pub domain: String,
    /// The leaf and the root it chains to, as PEM.
    pub chain_pem: String,
    pub config: Arc<ServerConfig>,
}

/// The view of a [`LeafCertificateEntry`].
pub struct LeafView {
    pub domain: Seq<char>,
    pub chain_pem: Seq<char>,
    pub config: ServerConfig,
}

impl View for LeafCertificateEntry {
    type V = LeafView;

    open spec fn view(&self) -> LeafView {
        LeafView { domain: self.domain@, chain_pem: self.chain_pem@, config: *self.config }
    }
}

/// The views of a list of leaves, in order.
pub open spec fn leaf_views(leaves: Seq<LeafCertificateEntry>) -> Seq<LeafView> {
    Seq::new(leaves.len(), |i: int| leaves[i]@)
}

/// The index of the first leaf for `domain` at index `from` or later.
pub open spec fn position_from(leaves: Seq<LeafView>, from: int, domain: Seq<char>) -> Option<int>
    decreases leaves.len() - from,
{
    if from < 0 || from >= leaves.len() {
        None
    } else if leaves[from].domain == domain {
        Some(from)
    } else {
        position_from(leaves, from + 1, domain)
    }
}

/// The index of the leaf for `domain`, if one has been issued.
pub open spec fn position(leaves: Seq<LeafView>, domain: Seq<char>) -> Option<int> {
    position_from(leaves, 0, domain)
}

/// Whether no domain has two leaves.
pub open spec fn one_leaf_each(leaves: Seq<LeafView>) -> bool {
    forall|i: int, j: int|
        0 <= i < j < leaves.len() ==> (#[trigger] leaves[i]).domain != (#[trigger] leaves[j]).domain
}

/// Whether a leaf's chain is some leaf certificate followed by this root.
pub open spec fn chains_to(leaf: LeafView, root_pem: Seq<char>) -> bool {
    exists|leaf_pem: Seq<char>| leaf.chain_pem == #[trigger] chain_text(leaf_pem, root_pem)
}

/// Whether an authority is sound: its root is fit to sign with, no domain
/// has two leaves, and every leaf's chain ends in the authority's root.
pub open spec fn is_sound(ca: AuthorityView) -> bool {
    &&& is_signing_root(ca.root_pem, ca.root_key_pem)
    &&& one_leaf_each(ca.leaves)
    &&& forall|i: int| 0 <= i < ca.leaves.len() ==> chains_to(#[trigger] ca.leaves[i], ca.root_pem)
}

/// What is handed to the TLS library for a leaf: the chain as PEM text, the
/// chain's certificates in DER, and the leaf's private key in DER.
#[derive(Debug)]
pub struct TlsMaterial {
    pub chain_pem: String,
    pub chain: Vec<Vec<u8>>,
    pub key: Vec<u8>,
}

/// What the PEM texts of a leaf, its key and the root yield for the TLS
/// library: the certificates of the chain text and the first private key, or
/// `UnreadableChain` where the chain text is damaged, or `MissingKey` where
/// the key text is damaged or holds no key.
pub open spec fn material_of(leaf_pem: Seq<char>, key_pem: Seq<char>, root_pem: Seq<char>) -> Result<
    (Seq<Seq<u8>>, Seq<u8>),
    CertificateAuthorityError,
> {
    match pem_certificate_ders(chain_text(leaf_pem, root_pem)) {
        None => Err(CertificateAuthorityError::UnreadableChain),
        Some(chain) => match pem_private_key_ders(key_pem) {
            None => Err(CertificateAuthorityError::MissingKey),
            Some(keys) => if keys.len() == 0 {
                Err(CertificateAuthorityError::MissingKey)
            } else {
                Ok((chain, keys[0]))
            },
        },
    }
}

/// Whether `r` is what [`material_of`] says, with the chain text beside it.
pub open spec fn is_material(
    r: Result<TlsMaterial, CertificateAuthorityError>,
    leaf_pem: Seq<char>,
    key_pem: Seq<char>,
    root_pem: Seq<char>,
) -> bool {
    match r {
        Ok(m) => {
            &&& material_of(leaf_pem, key_pem, root_pem) == Ok::<
                (Seq<Seq<u8>>, Seq<u8>),
                CertificateAuthorityError,
            >((der_views(m.chain@), m.key@))
            &&& m.chain_pem@ == chain_text(leaf_pem, root_pem)
        },
        Err(e) => material_of(leaf_pem, key_pem, root_pem) == Err::<
            (Seq<Seq<u8>>, Seq<u8>),
            CertificateAuthorityError,
        >(e),
    }
}

/// Reads what the TLS library is to be handed for a leaf.
pub fn tls_material(leaf_pem: &str, key_pem: &str, root_pem: &str) -> (r: Result<TlsMaterial, CertificateAuthorityError>)
    ensures
        is_material(r, leaf_pem@, key_pem@, root_pem@),
{
    let mut chain_pem = leaf_pem.to_owned();
    push_char(&mut chain_pem, '\n');
    chain_pem.append(root_pem);
    let chain = match pem_certificates(chain_pem.as_str()) {
        Some(chain) => chain,
        None => {
            return Err(CertificateAuthorityError::UnreadableChain);
        },
    };
    let mut keys = match pem_private_keys(key_pem) {
        Some(keys) => keys,
        None => {
            return Err(CertificateAuthorityError::MissingKey);
        },
    };
    if keys.len() == 0 {
        return Err(CertificateAuthorityError::MissingKey);
    }
    let key = keys.remove(0);
    Ok(TlsMaterial { chain_pem, chain, key })
}

/// Why a leaf cannot be configured, or `None` where it can: the failure of
/// [`material_of`], or `TlsConfig` where the TLS library does not take the key.
pub open spec fn configure_failure(leaf_pem: Seq<char>, key_pem: Seq<char>, root_pem: Seq<char>) -> Option<
    CertificateAuthorityError,
> {
    match material_of(leaf_pem, key_pem, root_pem) {
        Err(e) => Some(e),
        Ok(m) => if tls_key_accepted(m.1) {
            None
        } else {
            Some(CertificateAuthorityError::TlsConfig)
        },
    }
}

/// Whether `r` is the outcome of configuring a leaf: the chain text and a
/// configuration exactly where nothing stands in the way, otherwise exactly
/// the failure that [`configure_failure`] names.
pub open spec fn is_configured(
    r: Result<(String, Arc<ServerConfig>), CertificateAuthorityError>,
    leaf_pem: Seq<char>,
    key_pem: Seq<char>,
    root_pem: Seq<char>,
) -> bool {
    match r {
        Ok(made) => configure_failure(leaf_pem, key_pem, root_pem) is None && made.0@ == chain_text(
            leaf_pem,
            root_pem,
        ),
        Err(e) => configure_failure(leaf_pem, key_pem, root_pem) == Some(e),
    }
}

/// Builds the server configuration for a leaf from the PEM texts of the
/// leaf, its key and the root, offering [`offered_protocols`].
pub fn configure(leaf_pem: &str, key_pem: &str, root_pem: &str) -> (r: Result<
    (String, Arc<ServerConfig>),
    CertificateAuthorityError,
>)
    ensures
        is_configured(r, leaf_pem@, key_pem@, root_pem@),
{
    let material = match tls_material(leaf_pem, key_pem, root_pem) {
        Ok(m) => m,
        Err(e) => {
            return Err(e);
        },
    };
    let TlsMaterial { chain_pem, chain, key } = material;
    match tls_server_config(chain, key, alpn_protocols()) {
        Ok(config) => Ok((chain_pem, config)),
        Err(_) => Err(CertificateAuthorityError::TlsConfig),
    }
}

/// The state of an authority: the root's certificate and key as PEM, and the
/// leaves issued so far, oldest first.
pub struct AuthorityView {
    pub root_pem: Seq<char>,
    pub root_key_pem: Seq<char>,
    pub leaves: Seq<LeafView>,
}

/// Whether two states have the same root, certificate and key.
pub open spec fn same_root(before: AuthorityView, after: AuthorityView) -> bool {
    after.root_pem == before.root_pem && after.root_key_pem == before.root_key_pem
}

/// Whether `ca` is the authority over the root `files`, with no leaves yet.
pub open spec fn is_authority_over(ca: AuthorityView, files: RootFiles) -> bool {
    &&& ca.leaves.len() == 0
    &&& ca.root_pem == files.cert_pem@
    &&& ca.root_key_pem == files.key_pem@
}

/// Whether a set-up authority is what `stored` calls for: no leaves yet, and
/// either the stored root with nothing to write, or a new root whose PEM
/// texts are to be written.
pub open spec fn is_set_up(ca: AuthorityView, to_store: Option<RootFiles>, stored: Option<RootFiles>) -> bool {
    match stored {
        Some(files) => to_store is None && is_authority_over(ca, files),
        None => match to_store {
            Some(files) => is_authority_over(ca, files),
            None => false,
        },
    }
}

/// The error of a set-up that fails.
pub open spec fn set_up_failure(stored: Option<RootFiles>) -> CertificateAuthorityError {
    if stored is Some {
        CertificateAuthorityError::MalformedRoot
    } else {
        CertificateAuthorityError::RootGeneration
    }
}

/// Whether a result hands out `config`.
pub open spec fn hands_out(r: Result<Arc<ServerConfig>, CertificateAuthorityError>, config: ServerConfig) -> bool {
    match r {
        Ok(c) => *c == config,
        Err(_) => false,
    }
}

/// Whether a result is the refusal `e`.
pub open spec fn is_refusal(r: Result<Arc<ServerConfig>, CertificateAuthorityError>, e: CertificateAuthorityError) -> bool {
    match r {
        Ok(_) => false,
        Err(x) => x == e,
    }
}

/// Whether `after` is `before` with one more leaf, the newest, issued for
/// `domain` with `config` and a chain that ends in the root; the root and
/// all earlier leaves are as they were.
pub open spec fn is_issued(before: AuthorityView, after: AuthorityView, domain: Seq<char>, config: ServerConfig) -> bool {
    &&& same_root(before, after)
    &&& after.leaves.len() == before.leaves.len() + 1
    &&& after.leaves.drop_last() == before.leaves
    &&& after.leaves.last().domain == domain
    &&& after.leaves.last().config == config
    &&& chains_to(after.leaves.last(), before.root_pem)
}

/// Whether `r` and `after` are a possible outcome of issuing a leaf for
/// `domain`: on success the leaf handed out has been added, on failure
/// nothing has changed.
pub open spec fn is_issue_outcome(
    r: Result<Arc<ServerConfig>, CertificateAuthorityError>,
    before: AuthorityView,
    after: AuthorityView,
    domain: Seq<char>,
) -> bool {
    match r {
        Ok(config) => is_issued(before, after, domain, *config),
        Err(_) => after == before,
    }
}

/// The view of what was issued for a leaf: its certificate and key as PEM.
pub open spec fn issued_view(issued: Option<(String, String)>) -> Option<(Seq<char>, Seq<char>)> {
    match issued {
        Some(pair) => Some((pair.0@, pair.1@)),
        None => None,
    }
}

/// Whether `r` and `after` are what comes of keeping what was issued for
/// `domain`.
///
/// A domain that has a leaf keeps it: its configuration is handed out and
/// nothing changes. Otherwise, where nothing was issued the result is
/// `Issuance`; where the leaf cannot be configured it is the failure that
/// [`configure_failure`] names; either way nothing changes. Where the leaf
/// can be configured, it becomes the newest leaf, under `domain`, with the
/// chain of the issued certificate and the root, and its configuration is
/// handed out.
pub open spec fn is_kept(
    r: Result<Arc<ServerConfig>, CertificateAuthorityError>,
    before: AuthorityView,
    after: AuthorityView,
    domain: Seq<char>,
    issued: Option<(Seq<char>, Seq<char>)>,
) -> bool {
    match position(before.leaves, domain) {
        Some(i) => hands_out(r, before.leaves[i].config) && after == before,
        None => match issued {
            None => is_refusal(r, CertificateAuthorityError::Issuance) && after == before,
            Some(pair) => match configure_failure(pair.0, pair.1, before.root_pem) {
                Some(e) => is_refusal(r, e) && after == before,
                None => match r {
                    Ok(config) => is_issued(before, after, domain, *config) && after.leaves.last().chain_pem
                        == chain_text(pair.0, before.root_pem),
                    Err(_) => false,
                },
            },
        },
    }
}

/// The root of trust and the leaves issued under it.
pub struct CertificateAuthority {
    root: RootFiles,
    leaf_cache: Vec<LeafCertificateEntry>,
}

impl View for CertificateAuthority {
    type V = AuthorityView;

    closed spec fn view(&self) -> AuthorityView {
        AuthorityView {
            root_pem: self.root.cert_pem@,
            root_key_pem: self.root.key_pem@,
            leaves: leaf_views(self.leaf_cache@),
        }
    }
}

impl CertificateAuthority {
    /// The invariant of an authority: it is sound.
    pub open spec fn wf(&self) -> bool {
        is_sound(self@)
    }

    /// The authority over a given root: there is one exactly where the root
    /// is fit to sign with, and it has no leaves yet.
    pub fn with_root(files: RootFiles) -> (made: Option<CertificateAuthority>)
        ensures
            made is Some == is_signing_root(files.cert_pem@, files.key_pem@),
            made matches Some(ca) ==> ca.wf() && is_authority_over(ca@, files),
    {
        if can_sign(files.cert_pem.as_str(), files.key_pem.as_str()) {
            Some(CertificateAuthority { root: files, leaf_cache: Vec::new() })
        } else {
            None
        }
    }

    /// Sets an authority up. With the stored PEM texts of a root certificate
    /// and its key, that root is taken, and nothing is to be written; this
    /// succeeds exactly where the stored root is fit to sign with, and fails
    /// with `MalformedRoot` otherwise. With none, a new root is generated,
    /// and its two PEM texts are handed back to be stored; a failure there
    /// gives `RootGeneration`. Either way no leaf has been issued yet.
    pub fn new(stored: Option<RootFiles>) -> (r: Result<(CertificateAuthority, Option<RootFiles>), CertificateAuthorityError>)
        ensures
            r matches Ok(made) ==> made.0.wf() && is_set_up(made.0@, made.1, stored),
            r matches Err(e) ==> e == set_up_failure(stored),
            stored matches Some(files) ==> (r is Ok <==> is_signing_root(files.cert_pem@, files.key_pem@)),
    {
        match stored {
            Some(files) => match CertificateAuthority::with_root(files) {
                Some(ca) => Ok((ca, None)),
                None => Err(CertificateAuthorityError::MalformedRoot),
            },
            None => match generate_root(root_organization(), root_common_name()) {
                Ok(pair) => {
                    let (cert_pem, key_pem) = pair;
                    let files = RootFiles { cert_pem: cert_pem.clone(), key_pem: key_pem.clone() };
                    match CertificateAuthority::with_root(RootFiles { cert_pem, key_pem }) {
                        Some(ca) => Ok((ca, Some(files))),
                        None => Err(CertificateAuthorityError::RootGeneration),
                    }
                },
                Err(_) => Err(CertificateAuthorityError::RootGeneration),
            },
        }
    }

    /// The root certificate as PEM.
    pub fn root_pem(&self) -> (pem: &str)
        ensures
            pem@ == self@.root_pem,
    {
        self.root.cert_pem.as_str()
    }

    /// The number of leaves issued so far.
    pub fn issued(&self) -> (n: usize)
        ensures
            n == self@.leaves.len(),
    {
        self.leaf_cache.len()
    }

    /// The leaf issued for `domain`, if there is one.
    pub fn leaf(&self, domain: &str) -> (found: Option<&LeafCertificateEntry>)
        ensures
            found is Some == position(self@.leaves, domain@) is Some,
            found matches Some(entry) ==> entry@ == self@.leaves[position(self@.leaves, domain@).unwrap()],
    {
        match self.find(domain) {
            Some(i) => Some(&self.leaf_cache[i]),
            None => None,
        }
    }

    fn find(&self, domain: &str) -> (found: Option<usize>)
        ensures
            found is Some == position(self@.leaves, domain@) is Some,
            found matches Some(i) ==> i < self@.leaves.len() && position(self@.leaves, domain@) == Some(i as int),
    {
        let wanted = domain.to_owned();
        let mut i: usize = 0;
        while i < self.leaf_cache.len()
            invariant
                i <= self.leaf_cache.len(),
                wanted@ == domain@,
                position(self@.leaves, domain@) == position_from(self@.leaves, i as int, domain@),
            decreases self.leaf_cache.len() - i,
        {
            if self.leaf_cache[i].domain == wanted {
                return Some(i);
            }
            i += 1;
        }
        None
    }

    /// Keeps what was issued for `domain`: the leaf's certificate and key as
    /// PEM, or nothing where issuing failed. The outcome is as [`is_kept`]
    /// says.
    pub fn keep_leaf(&mut self, domain: &str, issued: Option<(String, String)>) -> (r: Result<
        Arc<ServerConfig>,
        CertificateAuthorityError,
    >)
        requires
            old(self).wf(),
        ensures
            final(self).wf(),
            is_kept(r, old(self)@, final(self)@, domain@, issued_view(issued)),
    {
        match self.find(domain) {
            Some(i) => {
                return Ok(share_config(&self.leaf_cache[i].config));
            },
            None => {},
        }
        let (leaf_pem, key_pem) = match issued {
            Some(pair) => pair,
            None => {
                return Err(CertificateAuthorityError::Issuance);
            },
        };
        let (chain_pem, config) = match configure(leaf_pem.as_str(), key_pem.as_str(), self.root.cert_pem.as_str()) {
            Ok(made) => made,
            Err(e) => {
                return Err(e);
            },
        };
        let shared = share_config(&config);
        proof {
            lemma_absent_everywhere(self@.leaves, 0, domain@);
        }
        let ghost before = self@.leaves;
        self.leaf_cache.push(LeafCertificateEntry { domain: domain.to_owned(), chain_pem, config });
        proof {
            let after = leaf_views(self.leaf_cache@);
            assert(after.drop_last() =~= before);
            assert(after.last().chain_pem == chain_text(leaf_pem@, self.root.cert_pem@));
            assert forall|i: int, j: int| 0 <= i < j < after.len() implies (#[trigger] after[i]).domain != (
            #[trigger] after[j]).domain by {
                assert(after[i] == before[i]);
                if j < before.len() {
                    assert(after[j] == before[j]);
                }
            }
            assert forall|i: int| 0 <= i < after.len() implies chains_to(
                #[trigger] after[i],
                self.root.cert_pem@,
            ) by {
                if i < before.len() {
                    assert(after[i] == before[i]);
                }
            }
        }
        Ok(shared)
    }

    /// The TLS server configuration for `domain`.
    ///
    /// Where a leaf has been issued for the domain before, its configuration
    /// is handed out again and nothing changes. Otherwise a leaf is issued
    /// under the root and kept as [`CertificateAuthority::keep_leaf`] says:
    /// on success it is the newest leaf, recorded under `domain` with a
    /// chain that ends in the root; on failure nothing changes. The root is
    /// never touched. A domain with characters outside ASCII is refused with
    /// `InvalidDomain`, exactly where no leaf is kept for it.
    pub fn get_server_config(&mut self, domain: &str) -> (r: Result<Arc<ServerConfig>, CertificateAuthorityError>)
        requires
            old(self).wf(),
        ensures
            final(self).wf(),
            same_root(old(self)@, final(self)@),
            position(old(self)@.leaves, domain@) matches Some(i) ==> {
                &&& hands_out(r, old(self)@.leaves[i].config)
                &&& final(self)@ == old(self)@
            },
            position(old(self)@.leaves, domain@) is None ==> {
                &&& is_issue_outcome(r, old(self)@, final(self)@, domain@)
                &&& !is_ascii_chars(domain@) <==> is_refusal(r, CertificateAuthorityError::InvalidDomain)
            },
    {
        match self.find(domain) {
            Some(i) => {
                return Ok(share_config(&self.leaf_cache[i].config));
            },
            None => {},
        }
        if !domain.is_ascii() {
            return Err(CertificateAuthorityError::InvalidDomain);
        }
        let issued = match issue_leaf(self.root.cert_pem.as_str(), self.root.key_pem.as_str(), domain) {
            Ok(pair) => Some(pair),
            Err(_) => None,
        };
        proof {
            lemma_failures_of_configuring(issued_view(issued), self@.root_pem);
        }
        self.keep_leaf(domain, issued)
    }
}

/// Configuring a leaf never fails for the domain's sake.
pub proof fn lemma_failures_of_configuring(issued: Option<(Seq<char>, Seq<char>)>, root_pem: Seq<char>)
    ensures
        issued matches Some(pair) ==> configure_failure(pair.0, pair.1, root_pem) != Some(
            CertificateAuthorityError::InvalidDomain,
        ),
{
}

/// A domain without a position has no leaf at any index.
pub proof fn lemma_absent_everywhere(leaves: Seq<LeafView>, from: int, domain: Seq<char>)
    requires
        0 <= from,
        position_from(leaves, from, domain) is None,
    ensures
        forall|i: int| from <= i < leaves.len() ==> (#[trigger] leaves[i]).domain != domain,
    decreases leaves.len() - from,
{
    if from < leaves.len() {
        lemma_absent_everywhere(leaves, from + 1, domain);
    }
}

/// A leaf, once issued, is reused: after a leaf has been issued for a
/// domain that had none, the domain's position is that of the new leaf, so
/// the next request for the domain is handed the very same configuration;
/// the positions of all other domains are as before.
pub proof fn lemma_issued_leaf_is_reused(
    before: AuthorityView,
    after: AuthorityView,
    domain: Seq<char>,
    config: ServerConfig,
    other: Seq<char>,
)
    requires
        position(before.leaves, domain) is None,
        is_issued(before, after, domain, config),
    ensures
        same_root(before, after),
        position(after.leaves, domain) == Some(before.leaves.len() as int),
        after.leaves[position(after.leaves, domain).unwrap()].config == config,
        other != domain ==> position(after.leaves, other) == position(before.leaves, other),
{
    let leaf = after.leaves.last();
    assert(after.leaves =~= before.leaves.push(leaf));
    lemma_position_after_push(before.leaves, leaf, 0, domain);
    lemma_position_after_push(before.leaves, leaf, 0, other);
}

proof fn lemma_position_after_push(leaves: Seq<LeafView>, leaf: LeafView, from: int, domain: Seq<char>)
    requires
        0 <= from <= leaves.len(),
    ensures
        position_from(leaves.push(leaf), from, domain) == match position_from(leaves, from, domain) {
            Some(i) => Some(i),
            None => if leaf.domain == domain {
                Some(leaves.len() as int)
            } else {
                None
            },
        },
    decreases leaves.len() - from,
{
    let longer = leaves.push(leaf);
    if from < leaves.len() {
        assert(longer[from] == leaves[from]);
        lemma_position_after_push(leaves, leaf, from + 1, domain);
    } else {
        assert(longer[from] == leaf);
        assert(position_from(longer, from + 1, domain) is None);
    }
}

/// Leaves of different domains are different leaves under one root: in a
/// sound authority, two domains that both have a leaf have them at different
/// positions, each recorded under its own domain, and both chains end in the
/// authority's root.
pub proof fn lemma_distinct_domains_distinct_leaves(ca: AuthorityView, first: Seq<char>, second: Seq<char>)
    requires
        is_sound(ca),
        first != second,
        position(ca.leaves, first) is Some,
        position(ca.leaves, second) is Some,
    ensures
        position(ca.leaves, first).unwrap() != position(ca.leaves, second).unwrap(),
        ca.leaves[position(ca.leaves, first).unwrap()].domain == first,
        ca.leaves[position(ca.leaves, second).unwrap()].domain == second,
        ca.leaves[position(ca.leaves, first).unwrap()].domain != ca.leaves[position(
            ca.leaves,
            second,
        ).unwrap()].domain,
        chains_to(ca.leaves[position(ca.leaves, first).unwrap()], ca.root_pem),
        chains_to(ca.leaves[position(ca.leaves, second).unwrap()], ca.root_pem),
{
    lemma_position_points_at(ca.leaves, 0, first);
    lemma_position_points_at(ca.leaves, 0, second);
}

proof fn lemma_position_points_at(leaves: Seq<LeafView>, from: int, domain: Seq<char>)
    requires
        0 <= from,
        position_from(leaves, from, domain) is Some,
    ensures
        from <= position_from(leaves, from, domain).unwrap() < leaves.len(),
        leaves[position_from(leaves, from, domain).unwrap()].domain == domain,
    decreases leaves.len() - from,
{
    if from < leaves.len() && leaves[from].domain != domain {
        lemma_position_points_at(leaves, from + 1, domain);
    }
}

} // verus!
