use vstd::prelude::*;
use vstd::string::StringExecFns;

verus! {

/// The stage at which a request was turned down.
#[derive(Clone, Copy, Debug, PartialEq, Eq, Structural)]
pub enum ErrorKind {
    /// The request text is not standard, padded base64.
    Base64,
    /// The decoded bytes are not a well-formed raw transaction.
    Envelope,
    /// The auth-info bytes of the transaction are not a well-formed record.
    AuthInfo,
    /// There is no signer, or the first signer carries no public key.
    NoSignerKey,
    /// The first signer's key has an unsupported type or a malformed payload.
    UnsupportedKey,
    /// The checksummed text encoding of the key failed.
    Bech32,
    /// The account address could not be derived from the key.
    AddressDerivation,
    /// The allow-list service could not be reached.
    RequestFailed,
    /// The allow-list service's answer could not be read.
    BodyReadFailed,
}

/// An error of one stage, with the underlying cause in words.
#[derive(Clone, Debug)]
pub struct GateError {
    pub kind: ErrorKind,
    pub detail: String,
}

impl ErrorKind {
    /// The words that open the message reported for this stage.
    pub open spec fn spec_label(self) -> Seq<char> {
        match self {
            ErrorKind::Base64 => "base64 decode failed"@,
            ErrorKind::Envelope => "tx decode failed"@,
            ErrorKind::AuthInfo => "auth_info decode failed"@,
            ErrorKind::NoSignerKey => "no signer public key found"@,
            ErrorKind::UnsupportedKey => "unsupported/invalid pubkey"@,
            ErrorKind::Bech32 => "bech32 encode failed"@,
            ErrorKind::AddressDerivation => "account id derive failed"@,
            ErrorKind::RequestFailed => "whitelist request failed"@,
            ErrorKind::BodyReadFailed => "whitelist body read failed"@,
        }
    }

    /// Whether the message for this stage goes on with the cause in words.
    pub open spec fn spec_has_detail(self) -> bool {
        self != ErrorKind::NoSignerKey
    }

    pub fn label(self) -> (r: &'static str)
        ensures
            r@ == self.spec_label(),
    {
        match self {
            ErrorKind::Base64 => "base64 decode failed",
            ErrorKind::Envelope => "tx decode failed",
            ErrorKind::AuthInfo => "auth_info decode failed",
            ErrorKind::NoSignerKey => "no signer public key found",
            ErrorKind::UnsupportedKey => "unsupported/invalid pubkey",
            ErrorKind::Bech32 => "bech32 encode failed",
            ErrorKind::AddressDerivation => "account id derive failed",
            ErrorKind::RequestFailed => "whitelist request failed",
            ErrorKind::BodyReadFailed => "whitelist body read failed",
        }
    }

    pub fn has_detail(self) -> (r: bool)
        ensures
            r == self.spec_has_detail(),
    {
        !matches!(self, ErrorKind::NoSignerKey)
    }
}

impl GateError {
    pub fn new(kind: ErrorKind, detail: String) -> (r: GateError)
        ensures
            r.kind == kind,
            r.detail@ == detail@,
    {
        GateError { kind, detail }
    }

    pub fn kind(&self) -> (r: ErrorKind)
        ensures
            r == self.kind,
    {
        self.kind
    }

    /// The message reported for this error: the stage's words, then, where
    /// the stage has one, a colon and the cause.
    pub open spec fn spec_message(&self) -> Seq<char> {
        if self.kind.spec_has_detail() {
            self.kind.spec_label() + ": "@ + self.detail@
        } else {
            self.kind.spec_label()
        }
    }

    pub fn message(&self) -> (r: String)
        ensures
            r@ == self.spec_message(),
    {
        let mut text = <String as StringExecFns>::from_str(self.kind.label());
        if self.kind.has_detail() {
            text.append(": ");
            text.append(self.detail.as_str());
        }
        text
    }
}

} // verus!
