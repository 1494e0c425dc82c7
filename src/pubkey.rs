use crate::error::{ErrorKind, GateError};
use crate::text::same_text;
use cosmrs::crypto::PublicKey;
use vstd::prelude::*;

verus! {

#[verifier::external_type_specification]
#[verifier::external_body]
pub struct ExPublicKey(cosmrs::crypto::PublicKey);

/// A type-tagged key value: a type identifier and the payload it describes.
#[derive(Clone, Debug)]
pub struct KeyAny {
    pub type_url: String,
    pub value: Vec<u8>,
}

impl View for KeyAny {
    type V = (Seq<char>, Seq<u8>);

    open spec fn view(&self) -> (Seq<char>, Seq<u8>) {
        (self.type_url@, self.value@)
    }
}

/// One signer entry of an auth-info record; only its key matters here.
#[derive(Clone, Debug)]
pub struct SignerInfo {
    pub public_key: Option<KeyAny>,
}

impl View for SignerInfo {
    type V = Option<(Seq<char>, Seq<u8>)>;

    open spec fn view(&self) -> Option<(Seq<char>, Seq<u8>)> {
        match self.public_key {
            Some(k) => Some(k@),
            None => None,
        }
    }
}

/// The signer entries as plain values, in signing order.
pub open spec fn signer_views(signers: Seq<SignerInfo>) -> Seq<Option<(Seq<char>, Seq<u8>)>> {
    signers.map_values(|s: SignerInfo| s@)
}

/// The key algorithms this library accepts.
#[derive(Clone, Copy, Debug, PartialEq, Eq, Structural)]
pub enum KeyAlgorithm {
    Secp256k1,
    Ed25519,
}

pub open spec fn secp256k1_type_url() -> Seq<char> {
    "/cosmos.crypto.secp256k1.PubKey"@
}

pub open spec fn ed25519_type_url() -> Seq<char> {
    "/cosmos.crypto.ed25519.PubKey"@
}

/// The algorithm that a type identifier names, if it is a supported one.
pub open spec fn spec_algorithm_for(type_url: Seq<char>) -> Option<KeyAlgorithm> {
    if type_url == secp256k1_type_url() {
        Some(KeyAlgorithm::Secp256k1)
    } else if type_url == ed25519_type_url() {
        Some(KeyAlgorithm::Ed25519)
    } else {
        None
    }
}

pub fn algorithm_for_type_url(type_url: &str) -> (r: Option<KeyAlgorithm>)
    ensures
        r == spec_algorithm_for(type_url@),
{
    if same_text(type_url, "/cosmos.crypto.secp256k1.PubKey") {
        Some(KeyAlgorithm::Secp256k1)
    } else if same_text(type_url, "/cosmos.crypto.ed25519.PubKey") {
        Some(KeyAlgorithm::Ed25519)
    } else {
        None
    }
}

/// The key bytes that cosmrs reads from a type identifier and its payload.
pub uninterp spec fn cosmos_key_bytes(type_url: Seq<char>, value: Seq<u8>) -> Option<Seq<u8>>;

/// Relies on cosmrs's `PublicKey::try_from(Any)`, and `PublicKey::to_bytes`
/// on what it accepts: it accepts only the two type identifiers it names, and
/// what it reads depends on the identifier and the payload alone.
#[verifier::external_body]
fn cosmos_key_from_any(any: &KeyAny) -> (r: Result<(PublicKey, Vec<u8>), String>)
    ensures
        match r {
            Ok((_, b)) => cosmos_key_bytes(any.type_url@, any.value@) == Some(b@),
            Err(_) => cosmos_key_bytes(any.type_url@, any.value@).is_none(),
        },
        r is Ok ==> spec_algorithm_for(any.type_url@).is_some(),
{
    let any = cosmrs::Any { type_url: any.type_url.clone(), value: any.value.clone() };
    match PublicKey::try_from(any) {
        Ok(pk) => Ok((pk, pk.to_bytes())),
        Err(e) => Err(e.to_string()),
    }
}

/// A validated public key: its algorithm and its canonical bytes.
///
/// `key` is the cosmrs value that `bytes` were read from, under the type
/// identifier that `algorithm` was read from.
#[derive(Debug)]
pub struct CanonicalKey {
    algorithm: KeyAlgorithm,
    bytes: Vec<u8>,
    key: PublicKey,
}

impl View for CanonicalKey {
    type V = (KeyAlgorithm, Seq<u8>);

    closed spec fn view(&self) -> (KeyAlgorithm, Seq<u8>) {
        (self.algorithm, self.bytes@)
    }
}

impl CanonicalKey {
    pub fn algorithm(&self) -> (r: KeyAlgorithm)
        ensures
            r == self@.0,
    {
        self.algorithm
    }

    pub fn bytes(&self) -> (r: &Vec<u8>)
        ensures
            r@ == self@.1,
    {
        &self.bytes
    }
}

/// The account address that cosmrs derives from secp256k1 key bytes under
/// `prefix`, if it accepts them.
pub uninterp spec fn account_id_text(key: Seq<u8>, prefix: Seq<char>) -> Option<Seq<char>>;

/// Relies on cosmrs's `PublicKey::account_id`, written out by the account
/// id's `to_string`: it refuses every key but a secp256k1 one, and for that
/// one the address depends on the key bytes and the prefix alone.
#[verifier::external_body]
pub(crate) fn account_id_of(key: &CanonicalKey, prefix: &str) -> (r: Result<String, String>)
    ensures
        key@.0 == KeyAlgorithm::Ed25519 ==> r is Err,
        key@.0 == KeyAlgorithm::Secp256k1 ==> match r {
            Ok(s) => account_id_text(key@.1, prefix@) == Some(s@),
            Err(_) => account_id_text(key@.1, prefix@).is_none(),
        },
{
    key.key.account_id(prefix).map(|id| id.to_string()).map_err(|e| e.to_string())
}

/// The key value of the first signer entry, if there is one and it has a key.
pub open spec fn first_signer_key(signers: Seq<Option<(Seq<char>, Seq<u8>)>>) -> Option<(Seq<char>, Seq<u8>)> {
    if signers.len() == 0 {
        None
    } else {
        signers[0]
    }
}

/// The key that a signer list resolves to: algorithm and canonical bytes, or
/// the stage error.
pub open spec fn spec_resolve(signers: Seq<Option<(Seq<char>, Seq<u8>)>>) -> Result<(KeyAlgorithm, Seq<u8>), ErrorKind> {
    match first_signer_key(signers) {
        None => Err(ErrorKind::NoSignerKey),
        Some((url, value)) => match spec_algorithm_for(url) {
            None => Err(ErrorKind::UnsupportedKey),
            Some(alg) => match cosmos_key_bytes(url, value) {
                None => Err(ErrorKind::UnsupportedKey),
                Some(b) => Ok((alg, b)),
            },
        },
    }
}

/// Resolves the public key of the first signer; later entries are not read.
pub fn resolve_first_signer(signers: &Vec<SignerInfo>) -> (r: Result<CanonicalKey, GateError>)
    ensures
        match r {
            Ok(k) => spec_resolve(signer_views(signers@)) == Ok::<_, ErrorKind>(k@),
            Err(e) => spec_resolve(signer_views(signers@)) == Err::<(KeyAlgorithm, Seq<u8>), _>(e.kind),
        },
{
    if signers.len() == 0 {
        return Err(GateError::new(ErrorKind::NoSignerKey, String::new()));
    }
    assert(signer_views(signers@)[0] == signers@[0]@);
    match &signers[0].public_key {
        None => Err(GateError::new(ErrorKind::NoSignerKey, String::new())),
        Some(any) => match algorithm_for_type_url(any.type_url.as_str()) {
            None => Err(GateError::new(ErrorKind::UnsupportedKey, any.type_url.clone())),
            Some(algorithm) => match cosmos_key_from_any(any) {
                Ok((key, bytes)) => Ok(CanonicalKey { algorithm, bytes, key }),
                Err(detail) => Err(GateError::new(ErrorKind::UnsupportedKey, detail)),
            },
        },
    }
}

/// With two or more signer entries, the key resolved is the one that the
/// first entry alone resolves to, whatever the other entries hold.
pub proof fn lemma_first_signer_selected(signers: Seq<Option<(Seq<char>, Seq<u8>)>>)
    requires
        signers.len() >= 2,
    ensures
        spec_resolve(signers) == spec_resolve(signers.subrange(0, 1)),
{
}

/// A key whose type identifier is not a supported one is rejected as
/// unsupported, whatever its payload.
pub proof fn lemma_unsupported_type_rejected(signers: Seq<Option<(Seq<char>, Seq<u8>)>>, type_url: Seq<char>, value: Seq<u8>)
    requires
        signers.len() >= 1,
        signers[0] == Some((type_url, value)),
        type_url != secp256k1_type_url(),
        type_url != ed25519_type_url(),
    ensures
        spec_resolve(signers) == Err::<(KeyAlgorithm, Seq<u8>), _>(ErrorKind::UnsupportedKey),
{
}

} // verus!
