//! The signing identity of an account on one machine: a private key that is
//! made once and kept, and the development certificate that the portal
//! holds for it.
//!
//! Keys and certificates are held as bytes: a private key as PKCS#8 DER, a
//! certificate as X.509 DER. Reading, writing and comparing them is left to
//! outside crates, each call with a name of its own.

use vstd::prelude::*;
use vstd::utf8::encode_utf8;
use rsa::pkcs1::DecodeRsaPublicKey;
use rsa::pkcs1::EncodeRsaPublicKey;
use rsa::pkcs8::DecodePrivateKey;
use rsa::pkcs8::EncodePrivateKey;
use crate::bytes::same;
use crate::crypto::hex_encode;
use crate::crypto::hex_text;
use crate::crypto::sha1;
use crate::crypto::sha1_digest;
use crate::developer::qh::Cert;
use crate::developer::qh::CsrResponse;
use crate::error::Error;
use crate::error::ErrorModel;
use crate::error::message_text;
use crate::text::chars_of;
use crate::text::concat;
use crate::text::str_equal;
use crate::text::string_of;

verus! {

/// The PKCS#8 DER form of the private key in a PEM document, or the words
/// of the `rsa` crate's error.
pub uninterp spec fn rsa_pem_key(pem: Seq<char>) -> Result<Seq<u8>, Seq<char>>;

/// The PEM document for a private key in PKCS#8 DER form, with line feeds
/// as line endings, or the words of the `rsa` crate's error.
pub uninterp spec fn rsa_key_pem_text(key: Seq<u8>) -> Result<Seq<char>, Seq<char>>;

/// The PKCS#1 DER form of the public key that belongs to a private key in
/// PKCS#8 DER form, or the words of the `rsa` crate's error.
pub uninterp spec fn rsa_public_der(key: Seq<u8>) -> Result<Seq<u8>, Seq<char>>;

/// The PKCS#1 DER form that the `rsa` crate writes for the public key it
/// reads from PKCS#1 DER: none where it reads no key, and the words of its
/// error where it cannot write the key again.
pub uninterp spec fn rsa_public_normal(pkcs1: Seq<u8>) -> Option<Result<Seq<u8>, Seq<char>>>;

/// The bit string that holds the public key of a certificate: the number
/// of its unused bits and its octets; none where the bytes are no certificate.
pub uninterp spec fn certificate_key_bits(der: Seq<u8>) -> Option<(u8, Seq<u8>)>;

/// The DER form that the `x509-certificate` crate writes for the
/// certificate it reads from DER, or the words of its error.
pub uninterp spec fn certificate_der(der: Seq<u8>) -> Result<Seq<u8>, Seq<char>>;

/// The bytes of the serial number of a certificate; none where the bytes
/// are no certificate.
pub uninterp spec fn certificate_serial(der: Seq<u8>) -> Option<Seq<u8>>;

/// The PEM document with the label given around the bytes, with line feeds
/// as line endings; none where the `pem-rfc7468` crate reports an error.
pub uninterp spec fn pem_text(label: Seq<char>, der: Seq<u8>) -> Option<Seq<char>>;

/// The size in bits of the modulus of a private key in PKCS#8 DER form, as
/// the `rsa` crate counts it; none where the crate reads no key there.
pub uninterp spec fn rsa_key_bits(key: Seq<u8>) -> Option<nat>;

/// The blocks of a PEM document, each with its tag and its contents, or
/// the words of the `pem` crate's error.
pub uninterp spec fn pem_blocks(data: Seq<u8>) -> Result<Seq<(Seq<char>, Seq<u8>)>, Seq<char>>;

/// `RsaPrivateKey::from_pkcs8_pem` and `to_pkcs8_der` of the `rsa` crate:
/// the key of a PEM document in DER form.
#[verifier::external_body]
pub(crate) fn rsa_key_from_pem(pem: &str) -> (r: Result<Vec<u8>, String>)
    ensures
        match r {
            Ok(der) => rsa_pem_key(pem@) == Ok::<Seq<u8>, Seq<char>>(der@),
            Err(words) => rsa_pem_key(pem@) == Err::<Seq<u8>, Seq<char>>(words@),
        },
{
    rsa::RsaPrivateKey::from_pkcs8_pem(pem)
        .and_then(|k| k.to_pkcs8_der())
        .map(|d| d.as_bytes().to_vec())
        .map_err(|e| e.to_string())
}

/// `RsaPrivateKey::from_pkcs8_der` and `to_pkcs8_pem` of the `rsa` crate,
/// with line feeds as line endings: the PEM document of a key.
#[verifier::external_body]
pub(crate) fn rsa_key_to_pem(key: &[u8]) -> (r: Result<String, String>)
    ensures
        match r {
            Ok(pem) => rsa_key_pem_text(key@) == Ok::<Seq<char>, Seq<char>>(pem@),
            Err(words) => rsa_key_pem_text(key@) == Err::<Seq<char>, Seq<char>>(words@),
        },
{
    rsa::RsaPrivateKey::from_pkcs8_der(key)
        .and_then(|k| k.to_pkcs8_pem(rsa::pkcs8::LineEnding::LF))
        .map(|p| p.to_string())
        .map_err(|e| e.to_string())
}

/// `RsaPrivateKey::new` of the `rsa` crate with the system's random
/// numbers and the size given in bits, then `to_pkcs8_der`: a fresh key in
/// DER form, or the words of the crate's error. The crate's search ends only
/// on a modulus of exactly the size asked for, and no more is known of the
/// key. Sizes under 64 bits, on which the search for primes may panic, are
/// left out.
#[verifier::external_body]
pub(crate) fn rsa_generate_key(bits: usize) -> (r: Result<Vec<u8>, String>)
    requires
        bits >= 64,
    ensures
        r matches Ok(key) ==> rsa_key_bits(key@) == Some(bits as nat),
{
    let key = rsa::RsaPrivateKey::new(&mut rand::rngs::OsRng, bits).map_err(|e| e.to_string())?;
    key.to_pkcs8_der().map(|d| d.as_bytes().to_vec()).map_err(|e| e.to_string())
}

/// `RsaPrivateKey::from_pkcs8_der`, `to_public_key` and `to_pkcs1_der` of
/// the `rsa` crate: the public key of a private key, in PKCS#1 DER form.
#[verifier::external_body]
pub(crate) fn rsa_public_key_der(key: &[u8]) -> (r: Result<Vec<u8>, String>)
    ensures
        match r {
            Ok(der) => rsa_public_der(key@) == Ok::<Seq<u8>, Seq<char>>(der@),
            Err(words) => rsa_public_der(key@) == Err::<Seq<u8>, Seq<char>>(words@),
        },
{
    let key = rsa::RsaPrivateKey::from_pkcs8_der(key).map_err(|e| e.to_string())?;
    key.to_public_key().to_pkcs1_der().map(|d| d.as_bytes().to_vec()).map_err(|e| e.to_string())
}

/// `RsaPublicKey::from_pkcs1_der` and `to_pkcs1_der` of the `rsa` crate:
/// the key read and written again. None where the bytes are no key.
#[verifier::external_body]
pub(crate) fn rsa_public_key_normalized(pkcs1: &[u8]) -> (r: Option<Result<Vec<u8>, String>>)
    ensures
        match r {
            Some(Ok(der)) => rsa_public_normal(pkcs1@) == Some(Ok::<Seq<u8>, Seq<char>>(der@)),
            Some(Err(words)) => rsa_public_normal(pkcs1@) == Some(
                Err::<Seq<u8>, Seq<char>>(words@),
            ),
            None => rsa_public_normal(pkcs1@) is None,
        },
{
    rsa::RsaPublicKey::from_pkcs1_der(pkcs1)
        .ok()
        .map(|k| k.to_pkcs1_der().map(|d| d.as_bytes().to_vec()).map_err(|e| e.to_string()))
}

/// `X509Certificate::from_der` of the `x509-certificate` crate, then the
/// bit string of the subject's public key: its unused bits and its octets.
#[verifier::external_body]
pub(crate) fn x509_key_bits(der: &[u8]) -> (r: Option<(u8, Vec<u8>)>)
    ensures
        match r {
            Some((unused, octets)) => certificate_key_bits(der@) == Some((unused, octets@)),
            None => certificate_key_bits(der@) is None,
        },
{
    x509_certificate::X509Certificate::from_der(der).ok().map(
        |c|
            {
                let bits = &c.tbs_certificate().subject_public_key_info.subject_public_key;
                (bits.unused(), bits.octet_bytes().to_vec())
            },
    )
}

/// `X509Certificate::from_der` and `encode_der` of the `x509-certificate`
/// crate: the certificate read and written again.
#[verifier::external_body]
pub(crate) fn x509_normalized(der: &[u8]) -> (r: Result<Vec<u8>, String>)
    ensures
        match r {
            Ok(out) => certificate_der(der@) == Ok::<Seq<u8>, Seq<char>>(out@),
            Err(words) => certificate_der(der@) == Err::<Seq<u8>, Seq<char>>(words@),
        },
{
    let certificate = x509_certificate::X509Certificate::from_der(der).map_err(|e| e.to_string())?;
    certificate.encode_der().map_err(|e| e.to_string())
}

/// `X509Certificate::from_der` of the `x509-certificate` crate, then the
/// bytes of the serial number.
#[verifier::external_body]
pub(crate) fn x509_serial(der: &[u8]) -> (r: Option<Vec<u8>>)
    ensures
        match r {
            Some(serial) => certificate_serial(der@) == Some(serial@),
            None => certificate_serial(der@) is None,
        },
{
    x509_certificate::X509Certificate::from_der(der).ok().map(
        |c| c.tbs_certificate().serial_number.clone().into_bytes().to_vec(),
    )
}

/// `encode_string` of the `pem-rfc7468` crate with line feeds.
#[verifier::external_body]
pub(crate) fn pem_encode(label: &str, der: &[u8]) -> (r: Option<String>)
    ensures
        match r {
            Some(text) => pem_text(label@, der@) == Some(text@),
            None => pem_text(label@, der@) is None,
        },
{
    pem_rfc7468::encode_string(label, pem_rfc7468::LineEnding::LF, der).ok()
}

/// `parse_many` of the `pem` crate: the tag and the contents of each block.
#[verifier::external_body]
pub(crate) fn pem_parse_many(data: &[u8]) -> (r: Result<Vec<(String, Vec<u8>)>, String>)
    ensures
        match r {
            Ok(blocks) => pem_blocks(data@) == Ok::<Seq<(Seq<char>, Seq<u8>)>, Seq<char>>(
                blocks_view(blocks@),
            ),
            Err(words) => pem_blocks(data@) == Err::<Seq<(Seq<char>, Seq<u8>)>, Seq<char>>(
                words@,
            ),
        },
{
    pem::parse_many(data)
        .map(|v| v.iter().map(|p| (p.tag().to_owned(), p.contents().to_vec())).collect())
        .map_err(|e| e.to_string())
}

/// What a list of PEM blocks means.
pub open spec fn blocks_view(blocks: Seq<(String, Vec<u8>)>) -> Seq<(Seq<char>, Seq<u8>)> {
    Seq::new(blocks.len(), |i: int| (blocks[i].0@, blocks[i].1@))
}

/// Why a certificate request could not be built.
pub enum CsrFailure {
    /// The key could not be loaded.
    Key(String),
    /// The request could not be put together.
    Build(String),
    /// The request could not be written.
    Serialize(String),
}

/// The certificate request in DER form that the `rcgen` crate builds for a
/// private key in PKCS#8 DER form and a subject of country, state, locality,
/// organization and common name, signed with RSA and SHA-256; none where
/// the crate reports an error.
pub uninterp spec fn certificate_request_der(
    key: Seq<u8>,
    country: Seq<char>,
    state: Seq<char>,
    locality: Seq<char>,
    organization: Seq<char>,
    common_name: Seq<char>,
) -> Option<Seq<u8>>;

/// `KeyPair::from_der`, `Certificate::from_params` and
/// `serialize_request_der` of the `rcgen` crate: a certificate request for
/// the key, signed with RSA and SHA-256, whose subject holds the country,
/// state, locality, organization and common name given. Each call's error
/// comes back in the crate's words. Whether a request is built, and which,
/// depends on the key and the names alone: the request holds no time and no
/// serial number, and the signature with PKCS#1 v1.5 padding takes no
/// random numbers.
#[verifier::external_body]
pub(crate) fn rcgen_request(
    key: &[u8],
    country: &str,
    state: &str,
    locality: &str,
    organization: &str,
    common_name: &str,
) -> (r: Result<Vec<u8>, CsrFailure>)
    ensures
        match r {
            Ok(der) => certificate_request_der(
                key@,
                country@,
                state@,
                locality@,
                organization@,
                common_name@,
            ) == Some(der@),
            Err(_) => certificate_request_der(
                key@,
                country@,
                state@,
                locality@,
                organization@,
                common_name@,
            ) is None,
        },
{
    let pair = rcgen::KeyPair::from_der(key).map_err(|e| CsrFailure::Key(e.to_string()))?;
    let mut params = rcgen::CertificateParams::new(vec![]);
    params.alg = &rcgen::PKCS_RSA_SHA256;
    params.key_pair = Some(pair);
    params.distinguished_name.push(rcgen::DnType::CountryName, country);
    params.distinguished_name.push(rcgen::DnType::StateOrProvinceName, state);
    params.distinguished_name.push(rcgen::DnType::LocalityName, locality);
    params.distinguished_name.push(rcgen::DnType::OrganizationName, organization);
    params.distinguished_name.push(rcgen::DnType::CommonName, common_name);
    let request = rcgen::Certificate::from_params(params)
        .map_err(|e| CsrFailure::Build(e.to_string()))?;
    request.serialize_request_der().map_err(|e| CsrFailure::Serialize(e.to_string()))
}

/// The name of the directory in which the key and the certificate of an
/// account are kept: the SHA-1 digest of the account's name in hexadecimal.
pub open spec fn account_directory(apple_id: Seq<char>) -> Seq<char> {
    hex_text(sha1_digest(encode_utf8(apple_id)))
}

/// The name of the directory for an account.
pub fn account_hash(apple_id: &str) -> (r: String)
    ensures
        r@ == account_directory(apple_id@),
{
    let digest = sha1(apple_id.as_bytes());
    hex_encode(digest.as_slice())
}

/// The key and the certificate of an account on one machine.
#[derive(Debug)]
pub struct CertificateIdentity {
    /// The certificate in DER form, once it is found or issued.
    pub certificate: Option<Vec<u8>>,
    /// The private key in PKCS#8 DER form.
    pub private_key: Vec<u8>,
    /// Where the key is kept, by the components of its path.
    pub key_file: Vec<String>,
    /// Where the certificate is kept, by the components of its path.
    pub cert_file: Vec<String>,
    /// The label under which the portal knows this machine.
    pub machine_name: String,
}

/// An error about a certificate: a fixed beginning and the words of the cause.
pub open spec fn certificate_error(beginning: Seq<char>, words: Seq<char>) -> ErrorModel {
    ErrorModel::Certificate(beginning + words)
}

fn certificate_failure(beginning: &str, words: &str) -> (e: Error)
    ensures
        e@ == certificate_error(beginning@, words@),
{
    Error::Certificate(concat(beginning, words))
}

/// The octets to read a key from, out of the bit string of a certificate:
/// none where there is no bit string, where it is empty, or where it is not
/// full to its last bit.
pub open spec fn key_octets(bits: Option<(u8, Seq<u8>)>) -> Option<Seq<u8>> {
    match bits {
        Some((unused, octets)) => if octets.len() == 0 || unused != 0 {
            None
        } else {
            Some(octets)
        },
        None => None,
    }
}

/// Whether a key that was read and written again is the key given. Octets
/// that hold no key are not the key; a key that cannot be written again is
/// an error.
pub open spec fn key_compared(
    normal: Option<Result<Seq<u8>, Seq<char>>>,
    public_key: Seq<u8>,
) -> Result<bool, ErrorModel> {
    match normal {
        None => Ok(false),
        Some(Err(words)) => Err(certificate_error("Failed to re-encode cert public key: "@, words)),
        Some(Ok(der)) => Ok(der == public_key),
    }
}

/// Whether the key in a certificate is the key given: the certificate's
/// bit string is full and not empty, holds a PKCS#1 public key, and that
/// key, written again, is byte for byte the one given. A key that cannot be
/// written again is an error.
pub open spec fn holds_key(cert_der: Seq<u8>, public_key: Seq<u8>) -> Result<bool, ErrorModel> {
    match key_octets(certificate_key_bits(cert_der)) {
        None => Ok(false),
        Some(octets) => key_compared(rsa_public_normal(octets), public_key),
    }
}

/// Whether a certificate is tagged with the machine's label.
pub open spec fn tagged_for(cert: Cert, machine: Seq<char>) -> bool {
    cert.machine_name matches Some(name) && name@ == machine
}

/// The first certificate from position `from` on that is tagged with the
/// machine's label and holds the key; none where there is none; the error
/// of the first tagged certificate whose key cannot be written again, where
/// that comes first.
pub open spec fn matching_from(
    certs: Seq<Cert>,
    machine: Seq<char>,
    public_key: Seq<u8>,
    from: int,
) -> Result<Option<int>, ErrorModel>
    decreases certs.len() - from,
{
    if from < 0 || from >= certs.len() {
        Ok(None)
    } else if !tagged_for(certs[from], machine) {
        matching_from(certs, machine, public_key, from + 1)
    } else {
        match holds_key(certs[from].cert_content@, public_key) {
            Err(e) => Err(e),
            Ok(true) => Ok(Some(from)),
            Ok(false) => matching_from(certs, machine, public_key, from + 1),
        }
    }
}

/// What looking for an identity's certificate among those the portal lists
/// comes to: the position of the one that matches, or none; an error where
/// the identity's own public key cannot be written or the search fails.
pub open spec fn sought_certificate(
    certs: Seq<Cert>,
    machine: Seq<char>,
    private_key: Seq<u8>,
) -> Result<Option<int>, ErrorModel> {
    match rsa_public_der(private_key) {
        Err(words) => Err(certificate_error("Failed to encode public key (pkcs1): "@, words)),
        Ok(public_key) => matching_from(certs, machine, public_key, 0),
    }
}

/// The certificate that matches an identity among those the portal lists;
/// that there is none is an error here.
pub open spec fn matching_certificate(
    certs: Seq<Cert>,
    machine: Seq<char>,
    private_key: Seq<u8>,
) -> Result<int, ErrorModel> {
    match sought_certificate(certs, machine, private_key) {
        Err(e) => Err(e),
        Ok(Some(i)) => Ok(i),
        Ok(None) => Err(ErrorModel::Certificate("No matching certificate found"@)),
    }
}

/// The octets to read a key from, out of what a certificate's bit string
/// was found to be.
pub fn usable_key_octets(bits: Option<(u8, Vec<u8>)>) -> (r: Option<Vec<u8>>)
    ensures
        match r {
            Some(octets) => key_octets(bits_view(bits)) == Some(octets@),
            None => key_octets(bits_view(bits)) is None,
        },
{
    match bits {
        Some((unused, octets)) => {
            if octets.len() == 0 || unused != 0 {
                None
            } else {
                Some(octets)
            }
        },
        None => None,
    }
}

/// What a bit string that was read means.
pub open spec fn bits_view(bits: Option<(u8, Vec<u8>)>) -> Option<(u8, Seq<u8>)> {
    match bits {
        Some((unused, octets)) => Some((unused, octets@)),
        None => None,
    }
}

/// What a key that was read and written again means.
pub open spec fn normal_view(normal: Option<Result<Vec<u8>, String>>) -> Option<
    Result<Seq<u8>, Seq<char>>,
> {
    match normal {
        Some(Ok(der)) => Some(Ok(der@)),
        Some(Err(words)) => Some(Err(words@)),
        None => None,
    }
}

/// Whether a key that was read and written again is the key given.
pub fn compare_keys(normal: Option<Result<Vec<u8>, String>>, public_key: &[u8]) -> (r: Result<
    bool,
    Error,
>)
    ensures
        match r {
            Ok(b) => key_compared(normal_view(normal), public_key@) == Ok::<bool, ErrorModel>(b),
            Err(e) => key_compared(normal_view(normal), public_key@) == Err::<bool, ErrorModel>(
                e@,
            ),
        },
{
    match normal {
        None => Ok(false),
        Some(Err(words)) => Err(
            certificate_failure("Failed to re-encode cert public key: ", words.as_str()),
        ),
        Some(Ok(der)) => Ok(same(der.as_slice(), public_key)),
    }
}

/// Whether the key in a certificate is the key given.
pub fn certificate_holds_key(cert_der: &[u8], public_key: &[u8]) -> (r: Result<bool, Error>)
    ensures
        match r {
            Ok(b) => holds_key(cert_der@, public_key@) == Ok::<bool, ErrorModel>(b),
            Err(e) => holds_key(cert_der@, public_key@) == Err::<bool, ErrorModel>(e@),
        },
{
    match usable_key_octets(x509_key_bits(cert_der)) {
        None => Ok(false),
        Some(octets) => compare_keys(rsa_public_key_normalized(octets.as_slice()), public_key),
    }
}

/// What looking for the certificate of an identity comes to.
#[derive(Debug)]
pub enum Resolution {
    /// The portal holds the certificate: it is now the identity's, and
    /// this is the PEM document to keep.
    Found(String),
    /// The portal holds no certificate for this key: one has to be issued.
    IssueNew,
}

/// The PEM document of a certificate that was found: the certificate read
/// and written again, under the label `CERTIFICATE`.
pub open spec fn found_pem(cert_der: Seq<u8>) -> Result<(Seq<u8>, Seq<char>), ErrorModel> {
    match certificate_der(cert_der) {
        Err(words) => Err(ErrorModel::Certificate(words)),
        Ok(der) => match pem_text("CERTIFICATE"@, der) {
            Some(text) => Ok((der, text)),
            None => Err(ErrorModel::Certificate("Failed to encode certificate"@)),
        },
    }
}

/// Whether `r`, with the certificate that the identity holds afterwards, is
/// what looking through a list comes to. Where the search fails, its error
/// is the result. Where no certificate of the list matches, one has to be
/// issued. In both cases the identity keeps what it held. The one that
/// matches becomes the identity's, with its PEM document as the result;
/// where it cannot be written, that is the error.
pub open spec fn resolved(
    before: CertificateIdentity,
    certs: Seq<Cert>,
    certificate: Option<Vec<u8>>,
    r: Result<Resolution, Error>,
) -> bool {
    match sought_certificate(certs, before.machine_name@, before.private_key@) {
        Err(e) => (r matches Err(err) && err@ == e) && certificate == before.certificate,
        Ok(None) => (r matches Ok(Resolution::IssueNew)) && certificate == before.certificate,
        Ok(Some(i)) => match found_pem(certs[i].cert_content@) {
            Err(e) => (r matches Err(err) && err@ == e) && certificate == before.certificate,
            Ok((der, text)) => (r matches Ok(Resolution::Found(pem)) && pem@ == text) && (
            certificate matches Some(c) && c@ == der),
        },
    }
}

impl CertificateIdentity {
    /// An identity with the key given and no certificate yet. The files lie
    /// in the directory of the account under `keys` in the configuration
    /// directory.
    pub fn with_key(
        configuration_path: &Vec<String>,
        apple_id: &str,
        machine_name: String,
        private_key: Vec<u8>,
    ) -> (r: CertificateIdentity)
        ensures
            r.certificate is None,
            r.private_key == private_key,
            r.machine_name == machine_name,
            crate::text::strings_view(r.key_file@) == crate::text::strings_view(
                configuration_path@,
            ) + seq!["keys"@, account_directory(apple_id@), "key.pem"@],
            crate::text::strings_view(r.cert_file@) == crate::text::strings_view(
                configuration_path@,
            ) + seq!["keys"@, account_directory(apple_id@), "cert.pem"@],
    {
        let hash = account_hash(apple_id);
        let mut key_file = crate::bundle::copy_path(configuration_path);
        let mut cert_file = crate::bundle::copy_path(configuration_path);
        let ghost base = crate::text::strings_view(configuration_path@);
        assert(crate::text::strings_view(key_file@) =~= base);
        assert(crate::text::strings_view(cert_file@) =~= base);
        key_file.push("keys".to_owned());
        key_file.push(hash.clone());
        key_file.push("key.pem".to_owned());
        cert_file.push("keys".to_owned());
        cert_file.push(hash);
        cert_file.push("cert.pem".to_owned());
        assert(crate::text::strings_view(key_file@) =~= base + seq![
            "keys"@,
            account_directory(apple_id@),
            "key.pem"@,
        ]);
        assert(crate::text::strings_view(cert_file@) =~= base + seq![
            "keys"@,
            account_directory(apple_id@),
            "cert.pem"@,
        ]);
        CertificateIdentity { certificate: None, private_key, key_file, cert_file, machine_name }
    }

    /// Where the certificate is kept.
    pub fn get_certificate_file_path(&self) -> (r: &Vec<String>)
        ensures
            r == &self.cert_file,
    {
        &self.cert_file
    }

    /// Where the private key is kept.
    pub fn get_private_key_file_path(&self) -> (r: &Vec<String>)
        ensures
            r == &self.key_file,
    {
        &self.key_file
    }

    /// The position of the portal's certificate for this identity, where
    /// there is one: the first that is tagged with the machine's label and
    /// holds the key.
    pub fn seek_matching_certificate(&self, certs: &Vec<Cert>) -> (r: Result<Option<usize>, Error>)
        ensures
            match r {
                Ok(Some(i)) => sought_certificate(certs@, self.machine_name@, self.private_key@)
                    == Ok::<Option<int>, ErrorModel>(Some(i as int)) && i < certs.len(),
                Ok(None) => sought_certificate(certs@, self.machine_name@, self.private_key@)
                    == Ok::<Option<int>, ErrorModel>(None),
                Err(e) => sought_certificate(certs@, self.machine_name@, self.private_key@)
                    == Err::<Option<int>, ErrorModel>(e@),
            },
    {
        let ours = match rsa_public_key_der(self.private_key.as_slice()) {
            Ok(der) => der,
            Err(words) => {
                return Err(
                    certificate_failure("Failed to encode public key (pkcs1): ", words.as_str()),
                );
            },
        };
        let mut i: usize = 0;
        while i < certs.len()
            invariant
                i <= certs.len(),
                rsa_public_der(self.private_key@) == Ok::<Seq<u8>, Seq<char>>(ours@),
                matching_from(certs@, self.machine_name@, ours@, 0) == matching_from(
                    certs@,
                    self.machine_name@,
                    ours@,
                    i as int,
                ),
            decreases certs.len() - i,
        {
            let tagged = match &certs[i].machine_name {
                Some(name) => str_equal(name.as_str(), self.machine_name.as_str()),
                None => false,
            };
            if tagged {
                match certificate_holds_key(certs[i].cert_content.as_slice(), ours.as_slice()) {
                    Err(e) => {
                        return Err(e);
                    },
                    Ok(true) => {
                        return Ok(Some(i));
                    },
                    Ok(false) => {},
                }
            }
            i = i + 1;
        }
        Ok(None)
    }

    /// The position of the portal's certificate for this identity: the
    /// first that is tagged with the machine's label and holds the key.
    /// That there is none is an error.
    pub fn find_matching_certificate(&self, certs: &Vec<Cert>) -> (r: Result<usize, Error>)
        ensures
            match r {
                Ok(i) => matching_certificate(certs@, self.machine_name@, self.private_key@)
                    == Ok::<int, ErrorModel>(i as int) && i < certs.len(),
                Err(e) => matching_certificate(certs@, self.machine_name@, self.private_key@)
                    == Err::<int, ErrorModel>(e@),
            },
    {
        match self.seek_matching_certificate(certs) {
            Ok(Some(i)) => Ok(i),
            Ok(None) => Err(Error::Certificate("No matching certificate found".to_owned())),
            Err(e) => Err(e),
        }
    }

    /// Looks for the identity's certificate among those the portal lists.
    /// Where it is found it becomes the identity's. Where there is none, a
    /// certificate has to be issued. Where looking for it fails, that is
    /// the error.
    pub fn resolve(&mut self, certs: &Vec<Cert>) -> (r: Result<Resolution, Error>)
        ensures
            final(self).private_key == old(self).private_key,
            final(self).machine_name == old(self).machine_name,
            final(self).key_file == old(self).key_file,
            final(self).cert_file == old(self).cert_file,
            resolved(*old(self), certs@, final(self).certificate, r),
    {
        let i = match self.seek_matching_certificate(certs) {
            Ok(Some(i)) => i,
            Ok(None) => {
                return Ok(Resolution::IssueNew);
            },
            Err(e) => {
                return Err(e);
            },
        };
        let der = match x509_normalized(certs[i].cert_content.as_slice()) {
            Ok(der) => der,
            Err(words) => {
                return Err(Error::Certificate(words));
            },
        };
        let pem = match pem_encode("CERTIFICATE", der.as_slice()) {
            Some(pem) => pem,
            None => {
                return Err(Error::Certificate("Failed to encode certificate".to_owned()));
            },
        };
        self.certificate = Some(der);
        Ok(Resolution::Found(pem))
    }

    /// What follows from the portal's answer to the request for its list of
    /// certificates. Where the request failed, the failure is the result and
    /// the identity stays as it is: nothing is issued on a list that could
    /// not be had. On a list, the identity's certificate is looked for in it.
    pub fn resolve_listed(&mut self, listing: Result<&Vec<Cert>, Error>) -> (r: Result<
        Resolution,
        Error,
    >)
        ensures
            final(self).private_key == old(self).private_key,
            final(self).machine_name == old(self).machine_name,
            final(self).key_file == old(self).key_file,
            final(self).cert_file == old(self).cert_file,
            match listing {
                Err(failure) => (r matches Err(e) && e@ == failure@) && final(self).certificate
                    == old(self).certificate,
                Ok(certs) => resolved(*old(self), certs@, final(self).certificate, r),
            },
    {
        match listing {
            Err(failure) => Err(failure),
            Ok(certs) => self.resolve(certs),
        }
    }
}

/// The code with which the portal says that no further certificate can be
/// issued before one is revoked.
pub const CERTIFICATE_QUOTA_EXCEEDED: i64 = 7460;

/// A text without the zeros at its start.
pub open spec fn without_leading_zeros(s: Seq<char>) -> Seq<char>
    decreases s.len(),
{
    if s.len() > 0 && s[0] == '0' {
        without_leading_zeros(s.skip(1))
    } else {
        s
    }
}

fn trim_leading_zeros(chars: &Vec<char>) -> (r: Vec<char>)
    ensures
        r@ == without_leading_zeros(chars@),
{
    let mut start: usize = 0;
    assert(chars@.skip(0) =~= chars@);
    while start < chars.len() && chars[start] == '0'
        invariant
            start <= chars.len(),
            without_leading_zeros(chars@) == without_leading_zeros(chars@.skip(start as int)),
        decreases chars.len() - start,
    {
        assert(chars@.skip(start as int).skip(1) =~= chars@.skip(start + 1));
        assert(chars@.skip(start as int)[0] == chars@[start as int]);
        start = start + 1;
    }
    proof {
        if start < chars.len() {
            assert(chars@.skip(start as int)[0] == chars@[start as int]);
        }
    }
    let mut out: Vec<char> = Vec::new();
    let mut i: usize = start;
    while i < chars.len()
        invariant
            start <= i <= chars.len(),
            out@ == chars@.subrange(start as int, i as int),
        decreases chars.len() - i,
    {
        out.push(chars[i]);
        i = i + 1;
    }
    assert(out@ =~= chars@.skip(start as int));
    out
}

/// The serial number of a certificate as the portal writes it: in
/// hexadecimal, without leading zeros.
pub open spec fn serial_text(certificate: Option<Seq<u8>>) -> Result<Seq<char>, ErrorModel> {
    match certificate {
        None => Err(ErrorModel::Certificate("No certificate loaded"@)),
        Some(der) => match certificate_serial(der) {
            None => Err(ErrorModel::Certificate("No certificate loaded"@)),
            Some(serial) => Ok(without_leading_zeros(hex_text(serial))),
        },
    }
}

/// What reading a private key from its PEM document gives.
pub open spec fn loaded_key(pem: Seq<char>) -> Result<Seq<u8>, ErrorModel> {
    match rsa_pem_key(pem) {
        Ok(key) => Ok(key),
        Err(words) => Err(certificate_error("Failed to parse private key: "@, words)),
    }
}

/// The PEM document under which a key is kept.
pub open spec fn key_document(key: Seq<u8>) -> Result<Seq<char>, ErrorModel> {
    match rsa_key_pem_text(key) {
        Ok(pem) => Ok(pem),
        Err(words) => Err(certificate_error("Failed to encode key: "@, words)),
    }
}

/// Reads a private key from the PEM document in which it is kept.
pub fn load_private_key(pem: &str) -> (r: Result<Vec<u8>, Error>)
    ensures
        match r {
            Ok(key) => loaded_key(pem@) == Ok::<Seq<u8>, ErrorModel>(key@),
            Err(e) => loaded_key(pem@) == Err::<Seq<u8>, ErrorModel>(e@),
        },
{
    match rsa_key_from_pem(pem) {
        Ok(key) => Ok(key),
        Err(words) => Err(certificate_failure("Failed to parse private key: ", words.as_str())),
    }
}

/// The PEM document under which a key is to be kept.
pub fn private_key_document(key: &[u8]) -> (r: Result<String, Error>)
    ensures
        match r {
            Ok(pem) => key_document(key@) == Ok::<Seq<char>, ErrorModel>(pem@),
            Err(e) => key_document(key@) == Err::<Seq<char>, ErrorModel>(e@),
        },
{
    match rsa_key_to_pem(key) {
        Ok(pem) => Ok(pem),
        Err(words) => Err(certificate_failure("Failed to encode key: ", words.as_str())),
    }
}

/// Makes a fresh RSA key of 2048 bits, with the PEM document under which it
/// is to be kept at once, before anything is asked of the portal.
pub fn generate_private_key() -> (r: Result<(Vec<u8>, String), Error>)
    ensures
        match r {
            Ok((key, pem)) => rsa_key_bits(key@) == Some(2048nat) && key_document(key@) == Ok::<
                Seq<char>,
                ErrorModel,
            >(pem@),
            Err(e) => e@ is Certificate,
        },
{
    let key = match rsa_generate_key(2048) {
        Ok(key) => key,
        Err(words) => {
            return Err(certificate_failure("Failed to generate key: ", words.as_str()));
        },
    };
    match private_key_document(key.as_slice()) {
        Ok(pem) => Ok((key, pem)),
        Err(e) => Err(e),
    }
}

/// The certificate request for a key in DER form: the one that is built
/// for the subject under which every request of this library goes out.
pub open spec fn request_der(key: Seq<u8>) -> Option<Seq<u8>> {
    certificate_request_der(key, "US"@, "STATE"@, "LOCAL"@, "ORGNIZATION"@, "CN"@)
}

/// The certificate request for a key as it is submitted: the request in DER
/// form inside a PEM document with the label `CERTIFICATE REQUEST`; none
/// where no request can be built for the key or it cannot be written.
pub open spec fn request_document(key: Seq<u8>) -> Option<Seq<char>> {
    match request_der(key) {
        Some(der) => pem_text("CERTIFICATE REQUEST"@, der),
        None => None,
    }
}

/// The words of the error for a request that cannot be written as PEM.
pub open spec fn unwritable_request_text() -> Seq<char> {
    "Failed to serialize CSR: not writable as PEM"@
}

/// The error for a certificate request that could not be built.
pub open spec fn request_error(failure: CsrFailure) -> ErrorModel {
    match failure {
        CsrFailure::Key(words) => certificate_error("Failed to load rcgen key: "@, words@),
        CsrFailure::Build(words) => certificate_error("Failed to build CSR params: "@, words@),
        CsrFailure::Serialize(words) => certificate_error("Failed to serialize CSR: "@, words@),
    }
}

/// Turns the failure of a certificate request into the library's error.
pub fn request_failure(failure: CsrFailure) -> (e: Error)
    ensures
        e@ == request_error(failure),
{
    match failure {
        CsrFailure::Key(words) => certificate_failure("Failed to load rcgen key: ", words.as_str()),
        CsrFailure::Build(words) => certificate_failure(
            "Failed to build CSR params: ",
            words.as_str(),
        ),
        CsrFailure::Serialize(words) => certificate_failure(
            "Failed to serialize CSR: ",
            words.as_str(),
        ),
    }
}

/// Where the submitting of a certificate request stands: whether the
/// request has been submitted again after a revocation already. Only the
/// library moves it on.
#[derive(Debug)]
pub struct Submission {
    retried: bool,
}

impl Submission {
    /// Whether the request has been submitted again already.
    pub closed spec fn retried(&self) -> bool {
        self.retried
    }

    /// The state before the first answer.
    pub fn first() -> (r: Submission)
        ensures
            !r.retried(),
    {
        Submission { retried: false }
    }
}

/// What the portal's answer to a certificate request leads to.
#[derive(Debug)]
pub enum SubmitOutcome {
    /// The certificate with this id was issued: it is fetched next.
    Issued(String),
    /// The quota is used up: the machine's certificate is revoked, and the
    /// request is submitted once more, in the state given.
    RevokeFirst(Submission),
}

/// What a submit outcome means.
pub enum SubmitOutcomeModel {
    Issued(Seq<char>),
    RevokeFirst,
}

impl View for SubmitOutcome {
    type V = SubmitOutcomeModel;

    open spec fn view(&self) -> SubmitOutcomeModel {
        match self {
            SubmitOutcome::Issued(id) => SubmitOutcomeModel::Issued(id@),
            SubmitOutcome::RevokeFirst(_) => SubmitOutcomeModel::RevokeFirst,
        }
    }
}

/// What follows the portal's answer to a certificate request. An issued
/// certificate is fetched. A used-up quota is answered by revoking and
/// submitting again, once: where the request had been submitted again
/// already, the failure is final, as is any other failure.
pub open spec fn after_submit(
    answer: Result<Seq<char>, ErrorModel>,
    retried: bool,
) -> Result<SubmitOutcomeModel, ErrorModel> {
    match answer {
        Ok(certificate_id) => Ok(SubmitOutcomeModel::Issued(certificate_id)),
        Err(e) => if !retried && (e matches ErrorModel::DeveloperSession(code, _) && code
            == CERTIFICATE_QUOTA_EXCEEDED) {
            Ok(SubmitOutcomeModel::RevokeFirst)
        } else {
            Err(certificate_error("Submit CSR failed: "@, message_text(e)))
        },
    }
}

/// What an answer to a certificate request means: the id of the
/// certificate, or the error.
pub open spec fn answer_view(answer: Result<&CsrResponse, &Error>) -> Result<Seq<char>, ErrorModel> {
    match answer {
        Ok(response) => Ok(response.cert_request.certificate_id@),
        Err(e) => Err(e@),
    }
}

/// Decides what follows the portal's answer to a certificate request in
/// the state given. Where the request is to be submitted again, the outcome
/// holds the state for the answer to that: there the request has been
/// submitted again, so a second used-up quota is final.
pub fn submit_outcome(answer: Result<&CsrResponse, &Error>, state: &Submission) -> (r: Result<
    SubmitOutcome,
    Error,
>)
    ensures
        match r {
            Ok(outcome) => after_submit(answer_view(answer), state.retried()) == Ok::<
                SubmitOutcomeModel,
                ErrorModel,
            >(outcome@),
            Err(e) => after_submit(answer_view(answer), state.retried()) == Err::<
                SubmitOutcomeModel,
                ErrorModel,
            >(e@),
        },
        r matches Ok(SubmitOutcome::RevokeFirst(next)) ==> next.retried(),
{
    match answer {
        Ok(response) => Ok(SubmitOutcome::Issued(response.cert_request.certificate_id.clone())),
        Err(e) => {
            let quota = match e {
                Error::DeveloperSession(code, _) => *code == CERTIFICATE_QUOTA_EXCEEDED,
                _ => false,
            };
            if quota && !state.retried {
                Ok(SubmitOutcome::RevokeFirst(Submission { retried: true }))
            } else {
                Err(certificate_failure("Submit CSR failed: ", e.message().as_str()))
            }
        },
    }
}

/// The first certificate from position `from` on that is tagged with the
/// machine's label.
pub open spec fn first_tagged(certs: Seq<Cert>, machine: Seq<char>, from: int) -> Option<int>
    decreases certs.len() - from,
{
    if from < 0 || from >= certs.len() {
        None
    } else if tagged_for(certs[from], machine) {
        Some(from)
    } else {
        first_tagged(certs, machine, from + 1)
    }
}

/// The serial number of the certificate to revoke when the quota is used
/// up: that of the first certificate tagged with the machine's label.
pub open spec fn serial_to_revoke(certs: Seq<Cert>, machine: Seq<char>) -> Result<
    Seq<char>,
    ErrorModel,
> {
    match first_tagged(certs, machine, 0) {
        Some(i) => Ok(certs[i].serial_number@),
        None => Err(ErrorModel::Certificate("Too many certificates"@)),
    }
}

/// The error for a certificate that could not be revoked.
pub open spec fn revoke_error(serial: Seq<char>, cause: ErrorModel) -> ErrorModel {
    ErrorModel::Certificate(
        "Failed to revoke certificate "@ + serial + ": "@ + message_text(cause),
    )
}

/// Turns the failure of a revocation into the library's error.
pub fn revoke_failure(serial: &str, cause: &Error) -> (e: Error)
    ensures
        e@ == revoke_error(serial@, cause@),
{
    let a = concat("Failed to revoke certificate ", serial);
    let b = concat(a.as_str(), ": ");
    Error::Certificate(concat(b.as_str(), cause.message().as_str()))
}

/// The first certificate from position `from` on with the id given.
pub open spec fn first_with_id(certs: Seq<Cert>, id: Seq<char>, from: int) -> Option<int>
    decreases certs.len() - from,
{
    if from < 0 || from >= certs.len() {
        None
    } else if certs[from].certificate_id@ == id {
        Some(from)
    } else {
        first_with_id(certs, id, from + 1)
    }
}

/// What fetching an issued certificate gives: the certificate, read and
/// written again, and the PEM document of exactly those bytes.
pub open spec fn issued(certs: Seq<Cert>, id: Seq<char>) -> Result<(Seq<u8>, Seq<char>), ErrorModel> {
    match first_with_id(certs, id, 0) {
        None => Err(ErrorModel::Certificate("Certificate not found after submission"@)),
        Some(i) => match certificate_der(certs[i].cert_content@) {
            Err(words) => Err(certificate_error("Failed to parse DER: "@, words)),
            Ok(der) => match pem_text("CERTIFICATE"@, der) {
                None => Err(ErrorModel::Certificate("Failed to encode certificate"@)),
                Some(text) => Ok((der, text)),
            },
        },
    }
}

impl CertificateIdentity {
    /// The serial number of the identity's certificate, as the portal
    /// writes serial numbers.
    pub fn get_serial_number(&self) -> (r: Result<String, Error>)
        ensures
            match r {
                Ok(text) => serial_text(
                    match self.certificate {
                        Some(c) => Some(c@),
                        None => None,
                    },
                ) == Ok::<Seq<char>, ErrorModel>(text@),
                Err(e) => serial_text(
                    match self.certificate {
                        Some(c) => Some(c@),
                        None => None,
                    },
                ) == Err::<Seq<char>, ErrorModel>(e@),
            },
    {
        let der = match &self.certificate {
            Some(der) => der,
            None => {
                return Err(Error::Certificate("No certificate loaded".to_owned()));
            },
        };
        let serial = match x509_serial(der.as_slice()) {
            Some(serial) => serial,
            None => {
                return Err(Error::Certificate("No certificate loaded".to_owned()));
            },
        };
        let hex = hex_encode(serial.as_slice());
        let chars = chars_of(hex.as_str());
        Ok(string_of(&trim_leading_zeros(&chars)))
    }

    /// The request for a certificate for the identity's key: the PKCS#10
    /// request for that key, signed with it, as a PEM document. Where no
    /// request can be built for the key, the error tells at which stage
    /// building it failed.
    pub fn certificate_request(&self) -> (r: Result<String, Error>)
        ensures
            match r {
                Ok(pem) => request_document(self.private_key@) == Some(pem@),
                Err(e) => request_document(self.private_key@) is None && (match request_der(
                    self.private_key@,
                ) {
                    None => exists|failure: CsrFailure| e@ == #[trigger] request_error(failure),
                    Some(_) => e@ == ErrorModel::Certificate(unwritable_request_text()),
                }),
            },
    {
        let der = match rcgen_request(
            self.private_key.as_slice(),
            "US",
            "STATE",
            "LOCAL",
            "ORGNIZATION",
            "CN",
        ) {
            Ok(der) => der,
            Err(failure) => {
                let e = request_failure(failure);
                assert(e@ == request_error(failure));
                return Err(e);
            },
        };
        match pem_encode("CERTIFICATE REQUEST", der.as_slice()) {
            Some(pem) => Ok(pem),
            None => Err(
                Error::Certificate("Failed to serialize CSR: not writable as PEM".to_owned()),
            ),
        }
    }

    /// The serial number of the certificate to revoke when the quota is
    /// used up.
    pub fn certificate_to_revoke(&self, certs: &Vec<Cert>) -> (r: Result<String, Error>)
        ensures
            match r {
                Ok(serial) => serial_to_revoke(certs@, self.machine_name@) == Ok::<
                    Seq<char>,
                    ErrorModel,
                >(serial@),
                Err(e) => serial_to_revoke(certs@, self.machine_name@) == Err::<
                    Seq<char>,
                    ErrorModel,
                >(e@),
            },
    {
        let mut i: usize = 0;
        while i < certs.len()
            invariant
                i <= certs.len(),
                first_tagged(certs@, self.machine_name@, 0) == first_tagged(
                    certs@,
                    self.machine_name@,
                    i as int,
                ),
            decreases certs.len() - i,
        {
            let tagged = match &certs[i].machine_name {
                Some(name) => str_equal(name.as_str(), self.machine_name.as_str()),
                None => false,
            };
            if tagged {
                return Ok(certs[i].serial_number.clone());
            }
            i = i + 1;
        }
        Err(Error::Certificate("Too many certificates".to_owned()))
    }

    /// Takes the issued certificate out of the portal's list. It becomes
    /// the identity's, and its PEM document is what is to be kept.
    pub fn issued_certificate(&mut self, certs: &Vec<Cert>, certificate_id: &str) -> (r: Result<
        String,
        Error,
    >)
        ensures
            final(self).private_key == old(self).private_key,
            final(self).machine_name == old(self).machine_name,
            final(self).key_file == old(self).key_file,
            final(self).cert_file == old(self).cert_file,
            match issued(certs@, certificate_id@) {
                Err(e) => (r matches Err(err) && err@ == e) && final(self).certificate == old(
                    self,
                ).certificate,
                Ok((der, text)) => (r matches Ok(pem) && pem@ == text) && (
                final(self).certificate matches Some(c) && c@ == der),
            },
    {
        let mut i: usize = 0;
        let mut found: Option<usize> = None;
        while i < certs.len() && found.is_none()
            invariant
                i <= certs.len(),
                match found {
                    Some(k) => first_with_id(certs@, certificate_id@, 0) == Some(k as int) && k
                        < certs.len(),
                    None => first_with_id(certs@, certificate_id@, 0) == first_with_id(
                        certs@,
                        certificate_id@,
                        i as int,
                    ),
                },
            decreases certs.len() - i + (if found is None { 1int } else { 0int }),
        {
            if str_equal(certs[i].certificate_id.as_str(), certificate_id) {
                found = Some(i);
            } else {
                i = i + 1;
            }
        }
        let k = match found {
            Some(k) => k,
            None => {
                return Err(
                    Error::Certificate("Certificate not found after submission".to_owned()),
                );
            },
        };
        let der = match x509_normalized(certs[k].cert_content.as_slice()) {
            Ok(der) => der,
            Err(words) => {
                return Err(certificate_failure("Failed to parse DER: ", words.as_str()));
            },
        };
        let pem = match pem_encode("CERTIFICATE", der.as_slice()) {
            Some(pem) => pem,
            None => {
                return Err(Error::Certificate("Failed to encode certificate".to_owned()));
            },
        };
        self.certificate = Some(der);
        Ok(pem)
    }
}

/// The PEM document that is handed out for a certificate, found or issued,
/// is the document of exactly the bytes that the identity keeps.
pub proof fn lemma_kept_certificate_is_written(certs: Seq<Cert>, id: Seq<char>, cert_der: Seq<u8>)
    ensures
        issued(certs, id) matches Ok((der, text)) ==> pem_text("CERTIFICATE"@, der) == Some(text),
        found_pem(cert_der) matches Ok((der, text)) ==> pem_text("CERTIFICATE"@, der) == Some(
            text,
        ),
{
}

/// Where no certificate before `from` counts, the search goes on from there.
pub proof fn lemma_matching_skip(
    certs: Seq<Cert>,
    machine: Seq<char>,
    public_key: Seq<u8>,
    from: int,
    to: int,
)
    requires
        0 <= from <= to <= certs.len(),
        forall|j: int|
            from <= j < to ==> !tagged_for(certs[j], machine) || holds_key(
                certs[j].cert_content@,
                public_key,
            ) == Ok::<bool, ErrorModel>(false),
    ensures
        matching_from(certs, machine, public_key, from) == matching_from(
            certs,
            machine,
            public_key,
            to,
        ),
    decreases to - from,
{
    if from < to {
        lemma_matching_skip(certs, machine, public_key, from + 1, to);
    }
}

/// Where exactly one certificate is tagged with the machine's label and
/// holds the key, and every tagged certificate before it holds another key,
/// that certificate is the one found: no certificate is asked for.
pub proof fn lemma_single_match_is_found(
    certs: Seq<Cert>,
    machine: Seq<char>,
    public_key: Seq<u8>,
    i: int,
)
    requires
        0 <= i < certs.len(),
        tagged_for(certs[i], machine),
        holds_key(certs[i].cert_content@, public_key) == Ok::<bool, ErrorModel>(true),
        forall|j: int|
            0 <= j < i ==> !tagged_for(certs[j], machine) || holds_key(
                certs[j].cert_content@,
                public_key,
            ) == Ok::<bool, ErrorModel>(false),
    ensures
        matching_from(certs, machine, public_key, 0) == Ok::<Option<int>, ErrorModel>(Some(i)),
{
    lemma_matching_skip(certs, machine, public_key, 0, i);
}

/// Where no certificate is tagged with the machine's label and holds the
/// key, none is found: a certificate has to be issued.
pub proof fn lemma_no_match_issues(certs: Seq<Cert>, machine: Seq<char>, private_key: Seq<u8>)
    requires
        rsa_public_der(private_key) is Ok,
        forall|j: int|
            0 <= j < certs.len() ==> !tagged_for(certs[j], machine) || holds_key(
                certs[j].cert_content@,
                rsa_public_der(private_key)->Ok_0,
            ) == Ok::<bool, ErrorModel>(false),
    ensures
        sought_certificate(certs, machine, private_key) == Ok::<Option<int>, ErrorModel>(None),
        matching_certificate(certs, machine, private_key) == Err::<int, ErrorModel>(
            ErrorModel::Certificate("No matching certificate found"@),
        ),
{
    lemma_matching_skip(certs, machine, rsa_public_der(private_key)->Ok_0, 0, certs.len() as int);
}

/// A private key as read from a PEM document: in PKCS#8 or in PKCS#1 form.
#[derive(Debug)]
pub enum KeyDer {
    Pkcs8(Vec<u8>),
    Pkcs1(Vec<u8>),
}

/// What a key means.
pub enum KeyDerModel {
    Pkcs8(Seq<u8>),
    Pkcs1(Seq<u8>),
}

/// What a key that was read means.
pub open spec fn key_model(key: KeyDer) -> KeyDerModel {
    match key {
        KeyDer::Pkcs8(k) => KeyDerModel::Pkcs8(k@),
        KeyDer::Pkcs1(k) => KeyDerModel::Pkcs1(k@),
    }
}

/// The certificate and the key to sign with, as read from PEM documents.
#[derive(Debug)]
pub struct Certificate {
    cert: Option<Vec<u8>>,
    pub key: Option<KeyDer>,
}

/// What signing material means.
pub struct CertificateModel {
    pub cert: Option<Seq<u8>>,
    pub key: Option<KeyDerModel>,
}

impl View for Certificate {
    type V = CertificateModel;

    closed spec fn view(&self) -> CertificateModel {
        CertificateModel {
            cert: match self.cert {
                Some(c) => Some(c@),
                None => None,
            },
            key: match self.key {
                Some(KeyDer::Pkcs8(k)) => Some(KeyDerModel::Pkcs8(k@)),
                Some(KeyDer::Pkcs1(k)) => Some(KeyDerModel::Pkcs1(k@)),
                None => None,
            },
        }
    }
}

/// The material after one more block: a certificate or a key takes the
/// place of the one read before, and a block with another tag is passed over.
pub open spec fn with_block(m: CertificateModel, tag: Seq<char>, contents: Seq<u8>) -> CertificateModel {
    if tag == "CERTIFICATE"@ {
        CertificateModel { cert: Some(contents), ..m }
    } else if tag == "PRIVATE KEY"@ {
        CertificateModel { key: Some(KeyDerModel::Pkcs8(contents)), ..m }
    } else if tag == "RSA PRIVATE KEY"@ {
        CertificateModel { key: Some(KeyDerModel::Pkcs1(contents)), ..m }
    } else {
        m
    }
}

/// The material after the blocks given, in their order.
pub open spec fn with_blocks(m: CertificateModel, blocks: Seq<(Seq<char>, Seq<u8>)>) -> CertificateModel
    decreases blocks.len(),
{
    if blocks.len() == 0 {
        m
    } else {
        with_block(with_blocks(m, blocks.drop_last()), blocks.last().0, blocks.last().1)
    }
}

/// The material after the PEM documents given, in their order; the error
/// of the first document that cannot be read.
pub open spec fn with_documents(m: CertificateModel, documents: Seq<Vec<u8>>) -> Result<
    CertificateModel,
    ErrorModel,
>
    decreases documents.len(),
{
    if documents.len() == 0 {
        Ok(m)
    } else {
        match with_documents(m, documents.drop_last()) {
            Err(e) => Err(e),
            Ok(before) => match pem_blocks(documents.last()@) {
                Err(words) => Err(ErrorModel::Pem(words)),
                Ok(blocks) => Ok(with_blocks(before, blocks)),
            },
        }
    }
}

impl Certificate {
    /// The signing material in the PEM documents given.
    pub fn new(documents: &Vec<Vec<u8>>) -> (r: Result<Certificate, Error>)
        ensures
            match r {
                Ok(c) => with_documents(
                    CertificateModel { cert: None, key: None },
                    documents@,
                ) == Ok::<CertificateModel, ErrorModel>(c@),
                Err(e) => with_documents(
                    CertificateModel { cert: None, key: None },
                    documents@,
                ) == Err::<CertificateModel, ErrorModel>(e@),
            },
    {
        let ghost start = CertificateModel { cert: None, key: None };
        let mut material = Certificate { cert: None, key: None };
        let mut i: usize = 0;
        assert(documents@.take(0) =~= Seq::<Vec<u8>>::empty());
        while i < documents.len()
            invariant
                i <= documents.len(),
                start == (CertificateModel { cert: None, key: None }),
                with_documents(start, documents@.take(i as int)) == Ok::<
                    CertificateModel,
                    ErrorModel,
                >(material@),
            decreases documents.len() - i,
        {
            proof {
                assert(documents@.take(i + 1).drop_last() =~= documents@.take(i as int));
                assert(documents@.take(i + 1).last() == documents@[i as int]);
            }
            let blocks = match pem_parse_many(documents[i].as_slice()) {
                Ok(blocks) => blocks,
                Err(words) => {
                    proof {
                        lemma_documents_error(start, documents@, i + 1);
                    }
                    return Err(Error::Pem(words));
                },
            };
            let ghost before = material@;
            let ghost all = blocks_view(blocks@);
            let mut k: usize = 0;
            assert(all.take(0) =~= Seq::<(Seq<char>, Seq<u8>)>::empty());
            while k < blocks.len()
                invariant
                    k <= blocks.len(),
                    all == blocks_view(blocks@),
                    material@ == with_blocks(before, all.take(k as int)),
                decreases blocks.len() - k,
            {
                proof {
                    assert(all.take(k + 1).drop_last() =~= all.take(k as int));
                    assert(all.take(k + 1).last() == all[k as int]);
                }
                let tag = blocks[k].0.as_str();
                if str_equal(tag, "CERTIFICATE") {
                    material.cert = Some(blocks[k].1.clone());
                } else if str_equal(tag, "PRIVATE KEY") {
                    material.key = Some(KeyDer::Pkcs8(blocks[k].1.clone()));
                } else if str_equal(tag, "RSA PRIVATE KEY") {
                    material.key = Some(KeyDer::Pkcs1(blocks[k].1.clone()));
                }
                k = k + 1;
            }
            assert(all.take(blocks.len() as int) =~= all);
            i = i + 1;
        }
        assert(documents@.take(documents.len() as int) =~= documents@);
        Ok(material)
    }

    /// The certificate and the key to sign with; an error where either is
    /// missing.
    pub fn signing_pair(&self) -> (r: Result<(&Vec<u8>, &KeyDer), Error>)
        ensures
            match r {
                Ok((cert, key)) => self@.cert == Some(cert@) && self@.key == Some(key_model(*key)),
                Err(e) => e@ == ErrorModel::CertificatePemMissing && (self@.cert is None
                    || self@.key is None),
            },
    {
        let cert = match &self.cert {
            Some(c) => c,
            None => {
                return Err(Error::CertificatePemMissing);
            },
        };
        match &self.key {
            Some(k) => Ok((cert, k)),
            None => Err(Error::CertificatePemMissing),
        }
    }
}

/// An error in reading the documents up to position `n` is an error in
/// reading all of them.
pub proof fn lemma_documents_error(m: CertificateModel, documents: Seq<Vec<u8>>, n: int)
    requires
        0 <= n <= documents.len(),
        with_documents(m, documents.take(n)) is Err,
    ensures
        with_documents(m, documents) == with_documents(m, documents.take(n)),
    decreases documents.len() - n,
{
    if n == documents.len() {
        assert(documents.take(n) =~= documents);
    } else {
        assert(documents.take(n + 1).drop_last() =~= documents.take(n));
        lemma_documents_error(m, documents, n + 1);
    }
}

} // verus!
