use crate::text::{contains_text, occurs_in};
use vstd::prelude::*;

verus! {

/// Whether a text is a JSON document.
pub uninterp spec fn json_text_parses(text: Seq<char>) -> bool;

/// The boolean at a JSON pointer in a JSON text, if the text parses and a
/// boolean stands there.
pub uninterp spec fn json_bool_at(text: Seq<char>, pointer: Seq<char>) -> Option<bool>;

/// The text with each character lowercased.
pub uninterp spec fn lower_of(text: Seq<char>) -> Seq<char>;

/// Relies on serde_json's `from_str` into a `Value`: whether a text parses
/// depends on the text alone.
#[verifier::external_body]
fn parses_as_json(text: &str) -> (r: bool)
    ensures
        r == json_text_parses(text@),
{
    serde_json::from_str::<serde_json::Value>(text).is_ok()
}

/// Relies on serde_json's `from_str` into a `Value`, then `Value::pointer` and
/// `Value::as_bool` on it: the boolean found depends on the text and the
/// pointer alone.
#[verifier::external_body]
fn bool_in_json(text: &str, pointer: &str) -> (r: Option<bool>)
    ensures
        r == json_bool_at(text@, pointer@),
{
    serde_json::from_str::<serde_json::Value>(text)
        .ok()
        .and_then(|v| v.pointer(pointer).and_then(|b| b.as_bool()))
}

/// Relies on std's `str::to_lowercase`: the result depends on the characters
/// alone.
#[verifier::external_body]
fn lowercase(text: &str) -> (r: String)
    ensures
        r@ == lower_of(text@),
{
    text.to_lowercase()
}

/// Whether an HTTP status code is in the success class.
pub open spec fn spec_status_is_success(code: u16) -> bool {
    200 <= code <= 299
}

pub fn status_is_success(code: u16) -> (r: bool)
    ensures
        r == spec_status_is_success(code),
{
    200 <= code && code <= 299
}

/// The boolean indicators that an allow-list answer may carry, each where it
/// was found.
#[derive(Clone, Copy, Debug, PartialEq, Eq)]
pub struct ResponseFlags {
    /// `whitelisted` inside the top-level `data` object.
    pub nested_whitelisted: Option<bool>,
    /// `whitelisted` at the top level.
    pub whitelisted: Option<bool>,
    /// `verified` at the top level.
    pub verified: Option<bool>,
    /// `success` at the top level.
    pub success: Option<bool>,
}

/// The first indicator present, in priority order; without one, whether the
/// status was a success.
pub open spec fn spec_flag_verdict(flags: ResponseFlags, status_ok: bool) -> bool {
    match flags.nested_whitelisted {
        Some(b) => b,
        None => match flags.whitelisted {
            Some(b) => b,
            None => match flags.verified {
                Some(b) => b,
                None => match flags.success {
                    Some(b) => b,
                    None => status_ok,
                },
            },
        },
    }
}

/// Whether lowercased text holds one of the affirmative words.
pub open spec fn spec_affirmative(lowered: Seq<char>) -> bool {
    occurs_in(lowered, "ok"@) || occurs_in(lowered, "true"@) || occurs_in(lowered, "whitelist"@)
}

/// The verdict on an answer that is not JSON: a success status and an
/// affirmative word in the lowercased text.
pub open spec fn spec_text_verdict(lowered: Seq<char>, status_ok: bool) -> bool {
    status_ok && spec_affirmative(lowered)
}

pub fn flag_verdict(flags: ResponseFlags, status_ok: bool) -> (r: bool)
    ensures
        r == spec_flag_verdict(flags, status_ok),
{
    if let Some(b) = flags.nested_whitelisted {
        b
    } else if let Some(b) = flags.whitelisted {
        b
    } else if let Some(b) = flags.verified {
        b
    } else if let Some(b) = flags.success {
        b
    } else {
        status_ok
    }
}

pub fn text_verdict(lowered: &str, status_ok: bool) -> (r: bool)
    ensures
        r == spec_text_verdict(lowered@, status_ok),
{
    status_ok && (contains_text(lowered, "ok") || contains_text(lowered, "true")
        || contains_text(lowered, "whitelist"))
}

/// The indicators of a JSON answer's body, each at its pointer.
pub open spec fn spec_flags(body: Seq<char>) -> ResponseFlags {
    ResponseFlags {
        nested_whitelisted: json_bool_at(body, "/data/whitelisted"@),
        whitelisted: json_bool_at(body, "/whitelisted"@),
        verified: json_bool_at(body, "/verified"@),
        success: json_bool_at(body, "/success"@),
    }
}

/// The indicators of an answer's body, if the body is JSON.
pub open spec fn spec_response_flags(body: Seq<char>) -> Option<ResponseFlags> {
    if json_text_parses(body) {
        Some(spec_flags(body))
    } else {
        None
    }
}

/// Reads the indicators out of a JSON answer's body.
pub fn flags_of(body: &str) -> (r: ResponseFlags)
    ensures
        r == spec_flags(body@),
{
    ResponseFlags {
        nested_whitelisted: bool_in_json(body, "/data/whitelisted"),
        whitelisted: bool_in_json(body, "/whitelisted"),
        verified: bool_in_json(body, "/verified"),
        success: bool_in_json(body, "/success"),
    }
}

pub fn response_flags(body: &str) -> (r: Option<ResponseFlags>)
    ensures
        r == spec_response_flags(body@),
{
    if parses_as_json(body) {
        Some(flags_of(body))
    } else {
        None
    }
}

/// The verdict on an answer, given the indicators read from its body if that
/// was JSON.
pub open spec fn spec_decide(flags: Option<ResponseFlags>, status: u16, body: Seq<char>) -> bool {
    match flags {
        Some(f) => spec_flag_verdict(f, spec_status_is_success(status)),
        None => spec_text_verdict(lower_of(body), spec_status_is_success(status)),
    }
}

pub fn decide_verdict(flags: Option<ResponseFlags>, status: u16, body: &str) -> (r: bool)
    ensures
        r == spec_decide(flags, status, body@),
{
    let ok = status_is_success(status);
    match flags {
        Some(f) => flag_verdict(f, ok),
        None => {
            let lowered = lowercase(body);
            text_verdict(lowered.as_str(), ok)
        },
    }
}

/// The allow-list verdict on an answer's status code and body: the first
/// indicator present if the body is JSON, else the text heuristic.
pub open spec fn spec_verdict(status: u16, body: Seq<char>) -> bool {
    spec_decide(spec_response_flags(body), status, body)
}

/// The allow-list verdict on an answer's status code and body. It never
/// fails: without a positive signal it is false.
pub fn interpret_response(status: u16, body: &str) -> (r: bool)
    ensures
        r == spec_verdict(status, body@),
{
    let flags = response_flags(body);
    decide_verdict(flags, status, body)
}

/// An indicator under `data.whitelisted` decides the verdict, whatever the
/// other indicators and the status say.
pub proof fn lemma_nested_flag_decides(flags: ResponseFlags, status: u16, body: Seq<char>)
    requires
        flags.nested_whitelisted is Some,
    ensures
        spec_decide(Some(flags), status, body) == flags.nested_whitelisted->Some_0,
{
}

/// An answer that is not JSON and comes with a status outside the success
/// class is never a positive verdict.
pub proof fn lemma_failed_text_answer_is_negative(status: u16, body: Seq<char>)
    requires
        !spec_status_is_success(status),
    ensures
        !spec_decide(None, status, body),
{
}

} // verus!
