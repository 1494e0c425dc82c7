use crate::address::{encode_identity, spec_encode, DerivedIdentity};
use crate::envelope::{auth_info_signer_keys, decode_signers, spec_envelope, spec_signers};
use crate::error::{ErrorKind, GateError};
use crate::pubkey::{resolve_first_signer, spec_resolve};
use crate::verdict::{interpret_response, spec_verdict};
use vstd::prelude::*;

verus! {

/// The human-readable prefix of the network's addresses.
pub open spec fn network_prefix() -> Seq<char> {
    "twilight"@
}

pub fn network_prefix_text() -> (r: &'static str)
    ensures
        r@ == network_prefix(),
{
    "twilight"
}

/// The encoded key and account address that base64 transaction text leads
/// to under `prefix`, or the first stage that refused it.
pub open spec fn spec_identity(tx: Seq<char>, prefix: Seq<char>) -> Result<(Seq<char>, Seq<char>), ErrorKind> {
    match spec_signers(tx) {
        Err(kind) => Err(kind),
        Ok(signers) => match spec_resolve(signers) {
            Err(kind) => Err(kind),
            Ok(key) => spec_encode(key, prefix),
        },
    }
}

/// Decodes base64 transaction text, resolves its first signer's key, and
/// derives the key's encoding and account address under `prefix`.
pub fn derive_identity_with_prefix(tx: &str, prefix: &str) -> (r: Result<DerivedIdentity, GateError>)
    ensures
        match r {
            Ok(id) => spec_identity(tx@, prefix@) == Ok::<_, ErrorKind>(id@),
            Err(e) => spec_identity(tx@, prefix@) == Err::<(Seq<char>, Seq<char>), _>(e.kind),
        },
{
    let signers = decode_signers(tx)?;
    let key = resolve_first_signer(&signers)?;
    encode_identity(&key, prefix)
}

/// `derive_identity_with_prefix` under the network's own prefix.
pub fn derive_identity(tx: &str) -> (r: Result<DerivedIdentity, GateError>)
    ensures
        match r {
            Ok(id) => spec_identity(tx@, network_prefix()) == Ok::<_, ErrorKind>(id@),
            Err(e) => spec_identity(tx@, network_prefix()) == Err::<(Seq<char>, Seq<char>), _>(e.kind),
        },
{
    derive_identity_with_prefix(tx, network_prefix_text())
}

/// What came of the call to the allow-list service.
#[derive(Clone, Debug)]
pub enum ServiceOutcome {
    /// The service could not be reached.
    RequestFailed(String),
    /// The service answered with a status, but its body could not be read.
    BodyReadFailed(String),
    /// The service answered with a status and a body.
    Answered { status: u16, body: String },
}

/// The answer to a request: the address checked and the verdict on it.
#[derive(Clone, Debug)]
pub struct GateOutcome {
    pub address: String,
    pub verified: bool,
}

/// Ends a request once the allow-list service has been called for `address`:
/// a failed call is reported at its stage, an answer is interpreted.
pub fn conclude(address: String, outcome: ServiceOutcome) -> (r: Result<GateOutcome, GateError>)
    ensures
        match outcome {
            ServiceOutcome::RequestFailed(_) => r matches Err(e) && e.kind == ErrorKind::RequestFailed,
            ServiceOutcome::BodyReadFailed(_) => r matches Err(e) && e.kind == ErrorKind::BodyReadFailed,
            ServiceOutcome::Answered { status, body } => r matches Ok(o) && o.address@ == address@
                && o.verified == spec_verdict(status, body@),
        },
{
    match outcome {
        ServiceOutcome::RequestFailed(detail) => Err(GateError::new(ErrorKind::RequestFailed, detail)),
        ServiceOutcome::BodyReadFailed(detail) => Err(GateError::new(ErrorKind::BodyReadFailed, detail)),
        ServiceOutcome::Answered { status, body } => {
            let verified = interpret_response(status, body.as_str());
            Ok(GateOutcome { address, verified })
        },
    }
}

/// A transaction without signer keys — empty auth-info bytes, or an
/// auth-info record with no signer entries — is refused for want of a signer
/// key, not as malformed.
pub proof fn lemma_no_signers_means_no_signer_key(tx: Seq<char>, prefix: Seq<char>)
    requires
        spec_envelope(tx) is Ok,
        spec_envelope(tx)->Ok_0.1.len() == 0 || auth_info_signer_keys(spec_envelope(tx)->Ok_0.1) == Some(
            Seq::<Option<(Seq<char>, Seq<u8>)>>::empty(),
        ),
    ensures
        spec_identity(tx, prefix) == Err::<(Seq<char>, Seq<char>), _>(ErrorKind::NoSignerKey),
{
}

/// Two transactions whose first signer entries carry the same key value lead
/// to the same encoded key and address, or to the same error, whatever their
/// other fields and later signers hold.
pub proof fn lemma_identity_follows_first_key(first: Seq<char>, second: Seq<char>, prefix: Seq<char>)
    requires
        spec_signers(first) is Ok,
        spec_signers(second) is Ok,
        spec_signers(first)->Ok_0.len() >= 1,
        spec_signers(second)->Ok_0.len() >= 1,
        spec_signers(first)->Ok_0[0] == spec_signers(second)->Ok_0[0],
    ensures
        spec_identity(first, prefix) == spec_identity(second, prefix),
{
}

} // verus!
