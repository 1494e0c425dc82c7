use crate::error::{ErrorKind, GateError};
use crate::pubkey::{account_id_of, account_id_text, CanonicalKey, KeyAlgorithm};
use bech32::ToBase32;
use vstd::prelude::*;

verus! {

/// The checksummed bech32 text of `data` under the human-readable part `hrp`,
/// if the encoding accepts them.
pub uninterp spec fn bech32_text(hrp: Seq<char>, data: Seq<u8>) -> Option<Seq<char>>;

/// Relies on bech32's `encode` with `Variant::Bech32`, over the 5-bit groups
/// that `ToBase32` makes of the bytes: the text depends on its arguments alone.
#[verifier::external_body]
fn bech32_encode(hrp: &str, data: &Vec<u8>) -> (r: Result<String, String>)
    ensures
        match r {
            Ok(s) => bech32_text(hrp@, data@) == Some(s@),
            Err(_) => bech32_text(hrp@, data@).is_none(),
        },
{
    bech32::encode(hrp, data.to_base32(), bech32::Variant::Bech32).map_err(|e| e.to_string())
}

/// The two texts derived from a key: its checksummed encoding and its account
/// address.
#[derive(Clone, Debug)]
pub struct DerivedIdentity {
    pub encoded_key: String,
    pub address: String,
}

impl View for DerivedIdentity {
    type V = (Seq<char>, Seq<char>);

    open spec fn view(&self) -> (Seq<char>, Seq<char>) {
        (self.encoded_key@, self.address@)
    }
}

/// The encoded key and the account address of a key under a prefix, or the
/// stage that failed.
pub open spec fn spec_encode(key: (KeyAlgorithm, Seq<u8>), prefix: Seq<char>) -> Result<(Seq<char>, Seq<char>), ErrorKind> {
    match bech32_text(prefix, key.1) {
        None => Err(ErrorKind::Bech32),
        Some(encoded) => if key.0 == KeyAlgorithm::Ed25519 {
            Err(ErrorKind::AddressDerivation)
        } else {
            match account_id_text(key.1, prefix) {
                None => Err(ErrorKind::AddressDerivation),
                Some(address) => Ok((encoded, address)),
            }
        },
    }
}

/// Encodes a key under a prefix and derives its account address.
pub fn encode_identity(key: &CanonicalKey, prefix: &str) -> (r: Result<DerivedIdentity, GateError>)
    ensures
        match r {
            Ok(id) => spec_encode(key@, prefix@) == Ok::<_, ErrorKind>(id@),
            Err(e) => spec_encode(key@, prefix@) == Err::<(Seq<char>, Seq<char>), _>(e.kind),
        },
{
    let encoded_key = match bech32_encode(prefix, key.bytes()) {
        Ok(s) => s,
        Err(detail) => return Err(GateError::new(ErrorKind::Bech32, detail)),
    };
    match account_id_of(key, prefix) {
        Ok(address) => Ok(DerivedIdentity { encoded_key, address }),
        Err(detail) => Err(GateError::new(ErrorKind::AddressDerivation, detail)),
    }
}

/// Encoding is a function of the key and the prefix: the same key under the
/// same prefix gives the same encoded key and the same address, every time.
pub proof fn lemma_encoding_deterministic(
    first: (KeyAlgorithm, Seq<u8>),
    second: (KeyAlgorithm, Seq<u8>),
    prefix: Seq<char>,
)
    requires
        first == second,
    ensures
        spec_encode(first, prefix) == spec_encode(second, prefix),
{
}

} // verus!
