use crate::error::{ErrorKind, GateError};
use crate::pubkey::{signer_views, KeyAny, SignerInfo};
use base64::Engine;
use cosmrs::proto::prost::Message;
use vstd::prelude::*;

verus! {

/// The bytes that standard, padded base64 text decodes to, if it is such text.
pub uninterp spec fn base64_standard_decoded(text: Seq<char>) -> Option<Seq<u8>>;

/// Relies on base64's `general_purpose::STANDARD.decode`: the bytes depend on
/// the text alone, and text that is not standard padded base64 is refused.
#[verifier::external_body]
fn decode_base64(text: &str) -> (r: Result<Vec<u8>, String>)
    ensures
        match r {
            Ok(b) => base64_standard_decoded(text@) == Some(b@),
            Err(_) => base64_standard_decoded(text@).is_none(),
        },
{
    base64::engine::general_purpose::STANDARD.decode(text).map_err(|e| e.to_string())
}

/// The body, auth-info and signature fields of a serialized raw transaction,
/// if the bytes are one.
pub uninterp spec fn raw_tx_fields(bytes: Seq<u8>) -> Option<(Seq<u8>, Seq<u8>, Seq<Seq<u8>>)>;

/// The signer entries of a serialized auth-info record, if the bytes are one.
pub uninterp spec fn auth_info_signer_keys(bytes: Seq<u8>) -> Option<Seq<Option<(Seq<char>, Seq<u8>)>>>;

/// A raw transaction: three opaque fields at this layer.
#[derive(Clone, Debug)]
pub struct TxEnvelope {
    pub body_bytes: Vec<u8>,
    pub auth_info_bytes: Vec<u8>,
    pub signatures: Vec<Vec<u8>>,
}

impl View for TxEnvelope {
    type V = (Seq<u8>, Seq<u8>, Seq<Seq<u8>>);

    open spec fn view(&self) -> (Seq<u8>, Seq<u8>, Seq<Seq<u8>>) {
        (self.body_bytes@, self.auth_info_bytes@, self.signatures.deep_view())
    }
}

/// Relies on cosmrs's `tx::Raw::from_bytes`, read back through its conversion
/// into the protobuf `TxRaw`: the fields depend on the bytes alone.
#[verifier::external_body]
fn parse_raw_tx(bytes: &Vec<u8>) -> (r: Result<TxEnvelope, String>)
    ensures
        match r {
            Ok(env) => raw_tx_fields(bytes@) == Some(env@),
            Err(_) => raw_tx_fields(bytes@).is_none(),
        },
{
    match cosmrs::tx::Raw::from_bytes(bytes.as_slice()) {
        Ok(raw) => {
            let raw: cosmrs::proto::cosmos::tx::v1beta1::TxRaw = raw.into();
            Ok(TxEnvelope {
                body_bytes: raw.body_bytes,
                auth_info_bytes: raw.auth_info_bytes,
                signatures: raw.signatures,
            })
        },
        Err(e) => Err(e.to_string()),
    }
}

/// Relies on prost's `Message::decode` for the protobuf `AuthInfo` of
/// cosmos-sdk-proto: the signer entries depend on the bytes alone and keep
/// their order.
#[verifier::external_body]
fn parse_auth_info(bytes: &Vec<u8>) -> (r: Result<Vec<SignerInfo>, String>)
    ensures
        match r {
            Ok(v) => auth_info_signer_keys(bytes@) == Some(signer_views(v@)),
            Err(_) => auth_info_signer_keys(bytes@).is_none(),
        },
{
    match cosmrs::proto::cosmos::tx::v1beta1::AuthInfo::decode(bytes.as_slice()) {
        Ok(info) => Ok(info.signer_infos.into_iter().map(|s| SignerInfo {
            public_key: s.public_key.map(|k| KeyAny { type_url: k.type_url, value: k.value }),
        }).collect()),
        Err(e) => Err(e.to_string()),
    }
}

/// The raw transaction that base64 text carries, or the stage that refused it.
pub open spec fn spec_envelope(tx: Seq<char>) -> Result<(Seq<u8>, Seq<u8>, Seq<Seq<u8>>), ErrorKind> {
    match base64_standard_decoded(tx) {
        None => Err(ErrorKind::Base64),
        Some(bytes) => match raw_tx_fields(bytes) {
            None => Err(ErrorKind::Envelope),
            Some(fields) => Ok(fields),
        },
    }
}

/// The signer entries that auth-info bytes hold; empty bytes hold none.
pub open spec fn spec_signers_of(auth_info: Seq<u8>) -> Result<Seq<Option<(Seq<char>, Seq<u8>)>>, ErrorKind> {
    if auth_info.len() == 0 {
        Ok(Seq::empty())
    } else {
        match auth_info_signer_keys(auth_info) {
            None => Err(ErrorKind::AuthInfo),
            Some(signers) => Ok(signers),
        }
    }
}

/// The signer entries of the transaction that base64 text carries.
pub open spec fn spec_signers(tx: Seq<char>) -> Result<Seq<Option<(Seq<char>, Seq<u8>)>>, ErrorKind> {
    match spec_envelope(tx) {
        Err(kind) => Err(kind),
        Ok(fields) => spec_signers_of(fields.1),
    }
}

/// Decodes base64 text into a raw transaction.
pub fn decode_envelope(tx: &str) -> (r: Result<TxEnvelope, GateError>)
    ensures
        match r {
            Ok(env) => spec_envelope(tx@) == Ok::<_, ErrorKind>(env@),
            Err(e) => spec_envelope(tx@) == Err::<(Seq<u8>, Seq<u8>, Seq<Seq<u8>>), _>(e.kind),
        },
{
    let bytes = match decode_base64(tx) {
        Ok(b) => b,
        Err(detail) => return Err(GateError::new(ErrorKind::Base64, detail)),
    };
    match parse_raw_tx(&bytes) {
        Ok(env) => Ok(env),
        Err(detail) => Err(GateError::new(ErrorKind::Envelope, detail)),
    }
}

/// Reads the signer entries out of auth-info bytes; empty bytes give none.
pub fn signers_of(auth_info: &Vec<u8>) -> (r: Result<Vec<SignerInfo>, GateError>)
    ensures
        match r {
            Ok(v) => spec_signers_of(auth_info@) == Ok::<_, ErrorKind>(signer_views(v@)),
            Err(e) => spec_signers_of(auth_info@) == Err::<Seq<Option<(Seq<char>, Seq<u8>)>>, _>(e.kind),
        },
{
    if auth_info.len() == 0 {
        let none: Vec<SignerInfo> = Vec::new();
        assert(signer_views(none@) =~= Seq::empty());
        return Ok(none);
    }
    match parse_auth_info(auth_info) {
        Ok(v) => Ok(v),
        Err(detail) => Err(GateError::new(ErrorKind::AuthInfo, detail)),
    }
}

/// Decodes base64 text down to the signer entries of the transaction it carries.
pub fn decode_signers(tx: &str) -> (r: Result<Vec<SignerInfo>, GateError>)
    ensures
        match r {
            Ok(v) => spec_signers(tx@) == Ok::<_, ErrorKind>(signer_views(v@)),
            Err(e) => spec_signers(tx@) == Err::<Seq<Option<(Seq<char>, Seq<u8>)>>, _>(e.kind),
        },
{
    let env = decode_envelope(tx)?;
    signers_of(&env.auth_info_bytes)
}

} // verus!
