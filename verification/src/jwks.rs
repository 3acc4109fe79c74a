//! The key set by which a compute checks the tokens that it is shown.
use vstd::prelude::*;

use crate::compute::OpaqueJson;
use crate::error::EndpointErrorView;
use crate::outside::{base64_url, encode_base64_url, sha256, spki_public_key};

verus! {

/// The contents of a PEM block, decoded.
#[derive(Debug, PartialEq, Eq)]
pub struct Pem {
    pub contents: Vec<u8>,
}

/// What a key is for.
#[derive(Debug, PartialEq, Eq)]
pub enum PublicKeyUse {
    Signature,
    Named(String),
}

/// An operation that a key may be used in.
#[derive(Debug, PartialEq, Eq)]
pub enum KeyOperations {
    Verify,
    Named(String),
}

/// The algorithm that a key is used with.
#[derive(Debug, PartialEq, Eq)]
pub enum KeyAlgorithm {
    EdDSA,
    Named(String),
}

/// The curve that a key lies on.
#[derive(Debug, PartialEq, Eq)]
pub enum EllipticCurve {
    Ed25519,
    Named(String),
}

/// The key itself, by its type.
#[derive(Debug, PartialEq, Eq)]
pub enum AlgorithmParameters {
    /// An octet key pair: a curve and the public key in base64.
    OctetKeyPair { curve: EllipticCurve, x: String },
    /// A key of another type, carried through.
    Other(OpaqueJson),
}

/// One key of a set.
#[derive(Debug, PartialEq, Eq)]
pub struct Jwk {
    pub public_key_use: Option<PublicKeyUse>,
    pub key_operations: Option<Vec<KeyOperations>>,
    pub key_algorithm: Option<KeyAlgorithm>,
    pub key_id: Option<String>,
    pub x509_url: Option<String>,
    pub x509_chain: Option<Vec<String>>,
    pub x509_sha1_fingerprint: Option<String>,
    pub x509_sha256_fingerprint: Option<String>,
    pub algorithm: AlgorithmParameters,
}

/// A set of keys.
#[derive(Debug, PartialEq, Eq)]
pub struct JwkSet {
    pub keys: Vec<Jwk>,
}

/// A name out of a list of which the library knows one entry.
#[verifier::ext_equal]
pub enum NameView {
    Known,
    Named(Seq<char>),
}

/// What [`AlgorithmParameters`] denote.
#[verifier::ext_equal]
pub enum AlgorithmParametersView {
    OctetKeyPair { curve: NameView, x: Seq<char> },
    Other(Seq<char>),
}

/// What a [`Jwk`] denotes.
#[verifier::ext_equal]
pub struct JwkView {
    pub public_key_use: Option<NameView>,
    pub key_operations: Option<Seq<NameView>>,
    pub key_algorithm: Option<NameView>,
    pub key_id: Option<Seq<char>>,
    pub x509_url: Option<Seq<char>>,
    pub x509_chain: Option<Seq<Seq<char>>>,
    pub x509_sha1_fingerprint: Option<Seq<char>>,
    pub x509_sha256_fingerprint: Option<Seq<char>>,
    pub algorithm: AlgorithmParametersView,
}

impl DeepView for PublicKeyUse {
    type V = NameView;

    open spec fn deep_view(&self) -> NameView {
        match self {
            PublicKeyUse::Signature => NameView::Known,
            PublicKeyUse::Named(name) => NameView::Named(name@),
        }
    }
}

impl DeepView for KeyOperations {
    type V = NameView;

    open spec fn deep_view(&self) -> NameView {
        match self {
            KeyOperations::Verify => NameView::Known,
            KeyOperations::Named(name) => NameView::Named(name@),
        }
    }
}

impl DeepView for KeyAlgorithm {
    type V = NameView;

    open spec fn deep_view(&self) -> NameView {
        match self {
            KeyAlgorithm::EdDSA => NameView::Known,
            KeyAlgorithm::Named(name) => NameView::Named(name@),
        }
    }
}

impl DeepView for EllipticCurve {
    type V = NameView;

    open spec fn deep_view(&self) -> NameView {
        match self {
            EllipticCurve::Ed25519 => NameView::Known,
            EllipticCurve::Named(name) => NameView::Named(name@),
        }
    }
}

impl DeepView for AlgorithmParameters {
    type V = AlgorithmParametersView;

    open spec fn deep_view(&self) -> AlgorithmParametersView {
        match self {
            AlgorithmParameters::OctetKeyPair { curve, x } => AlgorithmParametersView::OctetKeyPair {
                curve: curve.deep_view(),
                x: x@,
            },
            AlgorithmParameters::Other(json) => AlgorithmParametersView::Other(json@),
        }
    }
}

impl DeepView for Jwk {
    type V = JwkView;

    open spec fn deep_view(&self) -> JwkView {
        JwkView {
            public_key_use: self.public_key_use.deep_view(),
            key_operations: self.key_operations.deep_view(),
            key_algorithm: self.key_algorithm.deep_view(),
            key_id: self.key_id.deep_view(),
            x509_url: self.x509_url.deep_view(),
            x509_chain: self.x509_chain.deep_view(),
            x509_sha1_fingerprint: self.x509_sha1_fingerprint.deep_view(),
            x509_sha256_fingerprint: self.x509_sha256_fingerprint.deep_view(),
            algorithm: self.algorithm.deep_view(),
        }
    }
}

impl View for JwkSet {
    type V = Seq<JwkView>;

    open spec fn view(&self) -> Seq<JwkView> {
        self.keys.deep_view()
    }
}

impl Clone for PublicKeyUse {
    fn clone(&self) -> (r: Self)
        ensures
            r.deep_view() == self.deep_view(),
    {
        match self {
            PublicKeyUse::Signature => PublicKeyUse::Signature,
            PublicKeyUse::Named(name) => PublicKeyUse::Named(name.clone()),
        }
    }
}

impl Clone for KeyOperations {
    fn clone(&self) -> (r: Self)
        ensures
            r.deep_view() == self.deep_view(),
    {
        match self {
            KeyOperations::Verify => KeyOperations::Verify,
            KeyOperations::Named(name) => KeyOperations::Named(name.clone()),
        }
    }
}

impl Clone for KeyAlgorithm {
    fn clone(&self) -> (r: Self)
        ensures
            r.deep_view() == self.deep_view(),
    {
        match self {
            KeyAlgorithm::EdDSA => KeyAlgorithm::EdDSA,
            KeyAlgorithm::Named(name) => KeyAlgorithm::Named(name.clone()),
        }
    }
}

impl Clone for EllipticCurve {
    fn clone(&self) -> (r: Self)
        ensures
            r.deep_view() == self.deep_view(),
    {
        match self {
            EllipticCurve::Ed25519 => EllipticCurve::Ed25519,
            EllipticCurve::Named(name) => EllipticCurve::Named(name.clone()),
        }
    }
}

impl Clone for AlgorithmParameters {
    fn clone(&self) -> (r: Self)
        ensures
            r.deep_view() == self.deep_view(),
    {
        match self {
            AlgorithmParameters::OctetKeyPair { curve, x } => AlgorithmParameters::OctetKeyPair {
                curve: curve.clone(),
                x: x.clone(),
            },
            AlgorithmParameters::Other(json) => AlgorithmParameters::Other(json.clone()),
        }
    }
}

impl Clone for Jwk {
    fn clone(&self) -> (r: Self)
        ensures
            r.deep_view() == self.deep_view(),
    {
        let r = Jwk {
            public_key_use: self.public_key_use.clone(),
            key_operations: self.key_operations.clone(),
            key_algorithm: self.key_algorithm.clone(),
            key_id: self.key_id.clone(),
            x509_url: self.x509_url.clone(),
            x509_chain: self.x509_chain.clone(),
            x509_sha1_fingerprint: self.x509_sha1_fingerprint.clone(),
            x509_sha256_fingerprint: self.x509_sha256_fingerprint.clone(),
            algorithm: self.algorithm.clone(),
        };
        assert(r.deep_view() =~~= self.deep_view());
        r
    }
}

impl Clone for JwkSet {
    fn clone(&self) -> (r: Self)
        ensures
            r@ == self@,
    {
        let r = JwkSet { keys: self.keys.clone() };
        assert(r@ =~~= self@);
        r
    }
}

/// The key set for one Ed25519 public key: a single key that verifies EdDSA signatures, named
/// by the base64 of the key's digest.
pub open spec fn verifying_key_set(public_key: Seq<u8>, digest: Seq<u8>) -> Seq<JwkView> {
    seq![
        JwkView {
            public_key_use: Some(NameView::Known),
            key_operations: Some(seq![NameView::Known]),
            key_algorithm: Some(NameView::Known),
            key_id: Some(base64_url(digest)),
            x509_url: None,
            x509_chain: None,
            x509_sha1_fingerprint: None,
            x509_sha256_fingerprint: None,
            algorithm: AlgorithmParametersView::OctetKeyPair {
                curve: NameView::Known,
                x: base64_url(public_key),
            },
        },
    ]
}

/// Makes the key set for a public key and its digest.
pub fn jwks_for_key(public_key: &Vec<u8>, digest: &Vec<u8>) -> (r: JwkSet)
    ensures
        r@ == verifying_key_set(public_key@, digest@),
{
    let mut operations: Vec<KeyOperations> = Vec::new();
    operations.push(KeyOperations::Verify);
    let key = Jwk {
        public_key_use: Some(PublicKeyUse::Signature),
        key_operations: Some(operations),
        key_algorithm: Some(KeyAlgorithm::EdDSA),
        key_id: Some(encode_base64_url(digest.as_slice())),
        x509_url: None,
        x509_chain: None,
        x509_sha1_fingerprint: None,
        x509_sha256_fingerprint: None,
        algorithm: AlgorithmParameters::OctetKeyPair {
            curve: EllipticCurve::Ed25519,
            x: encode_base64_url(public_key.as_slice()),
        },
    };
    let mut keys: Vec<Jwk> = Vec::new();
    keys.push(key);
    let r = JwkSet { keys };
    assert(r@ =~~= verifying_key_set(public_key@, digest@));
    r
}

/// The key set for the public key in the contents of a PEM block.
pub open spec fn jwks_of(contents: Seq<u8>) -> Result<Seq<JwkView>, EndpointErrorView> {
    match spki_public_key(contents) {
        Ok(key) => Ok(verifying_key_set(key, sha256(key))),
        Err(cause) => Err(EndpointErrorView::InvalidPublicKey { cause }),
    }
}

} // verus!
