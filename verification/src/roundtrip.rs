//! The round-trip verifier: what the codec's answers on one payload add up
//! to.
//!
//! A payload is decoded, encoded again and decoded once more. The first
//! answer that is out of order settles the outcome, and the codec is asked no
//! further.

use crate::message::{ResponseResult, SpecResult};
use crate::text::{decimal, push_decimal};
use vstd::prelude::*;
use vstd::string::StringExecFns;

verus! {

/// The report of a payload that does not decode.
pub open spec fn unparsed_original_text(detail: Seq<char>) -> Seq<char> {
    "failed to parse TestAllTypes: "@ + detail
}

/// The report of an encoding whose length is not the length that the codec
/// declared: it names both.
pub open spec fn length_mismatch_text(declared_len: nat, actual_len: nat) -> Seq<char> {
    "encoded length does not match actual; encoded_len: "@ + decimal(declared_len)
        + ", buf len: "@ + decimal(actual_len)
}

/// The report of an encoding that does not decode.
pub open spec fn unparsed_roundtrip_text(detail: Seq<char>) -> Seq<char> {
    "failed to parse roundtrip TestAllTypes: "@ + detail
}

/// The report of a message that came back changed: it shows both.
pub open spec fn mismatch_text(original: Seq<char>, roundtrip: Seq<char>) -> Seq<char> {
    "roundtrip value does not match original;\n\t original: "@ + original + "\n\troundtrip: "@
        + roundtrip
}

/// What a codec answers in the course of one verification, each answer as
/// it would be given if the verifier came to ask for it.
pub struct Answers {
    /// The detail with which the payload fails to decode; `None` where it
    /// decodes, to the original.
    pub original: Option<Seq<char>>,
    /// The encoding of the original.
    pub encoded: Seq<u8>,
    /// The length that the codec declares for that encoding.
    pub declared_len: nat,
    /// The detail with which the encoding fails to decode; `None` where it
    /// decodes, to the roundtrip.
    pub roundtrip: Option<Seq<char>>,
    /// Renderings of the original and of the roundtrip where the two differ;
    /// `None` where they are equal.
    pub difference: Option<(Seq<char>, Seq<char>)>,
}

impl Answers {
    /// The codec kept its contract on this payload: the payload decodes, the
    /// declared length is the encoding's, and the encoding decodes to a
    /// message equal to the original.
    pub open spec fn faithful(self) -> bool {
        &&& self.original is None
        &&& self.declared_len == self.encoded.len()
        &&& self.roundtrip is None
        &&& self.difference is None
    }
}

/// The outcome of verifying a payload on which the codec answers `a`: the
/// first failure in the order decode, declared length, decode again,
/// comparison; and the encoding itself where nothing fails.
pub open spec fn verdict(a: Answers) -> SpecResult {
    if let Some(detail) = a.original {
        SpecResult::ParseError(unparsed_original_text(detail))
    } else if a.declared_len != a.encoded.len() {
        SpecResult::RuntimeError(length_mismatch_text(a.declared_len, a.encoded.len()))
    } else if let Some(detail) = a.roundtrip {
        SpecResult::ParseError(unparsed_roundtrip_text(detail))
    } else if let Some((original, roundtrip)) = a.difference {
        SpecResult::RuntimeError(mismatch_text(original, roundtrip))
    } else {
        SpecResult::ProtobufPayload(a.encoded)
    }
}

/// The outcome for a payload that the codec could not decode.
pub fn unparsed_original(detail: &str) -> (result: ResponseResult)
    ensures
        result@ == SpecResult::ParseError(unparsed_original_text(detail@)),
{
    let mut text = String::from_str("failed to parse TestAllTypes: ");
    text.append(detail);
    ResponseResult::ParseError(text)
}

/// Holds the length that the codec declared against the length of what it
/// encoded: `None` where they agree, the outcome that names both where they
/// differ.
pub fn check_encoded_len(declared_len: usize, actual_len: usize) -> (result: Option<
    ResponseResult,
>)
    ensures
        declared_len == actual_len ==> result is None,
        declared_len != actual_len ==> result is Some && result->Some_0@
            == SpecResult::RuntimeError(
            length_mismatch_text(declared_len as nat, actual_len as nat),
        ),
{
    if declared_len == actual_len {
        return None;
    }
    let mut text = String::from_str("encoded length does not match actual; encoded_len: ");
    push_decimal(&mut text, declared_len);
    text.append(", buf len: ");
    push_decimal(&mut text, actual_len);
    Some(ResponseResult::RuntimeError(text))
}

/// The outcome for an encoding that the codec could not decode again.
pub fn unparsed_roundtrip(detail: &str) -> (result: ResponseResult)
    ensures
        result@ == SpecResult::ParseError(unparsed_roundtrip_text(detail@)),
{
    let mut text = String::from_str("failed to parse roundtrip TestAllTypes: ");
    text.append(detail);
    ResponseResult::ParseError(text)
}

/// The outcome for a message that came back changed, with renderings of the
/// original and of the roundtrip.
pub fn mismatch(original: &str, roundtrip: &str) -> (result: ResponseResult)
    ensures
        result@ == SpecResult::RuntimeError(mismatch_text(original@, roundtrip@)),
{
    let mut text = String::from_str("roundtrip value does not match original;\n\t original: ");
    text.append(original);
    text.append("\n\troundtrip: ");
    text.append(roundtrip);
    ResponseResult::RuntimeError(text)
}

/// Malformed payload: a payload that does not decode is a parse error that
/// carries the codec's detail, whatever else the codec would answer.
pub proof fn lemma_malformed_payload(a: Answers)
    requires
        a.original is Some,
    ensures
        verdict(a) == SpecResult::ParseError(unparsed_original_text(a.original->Some_0)),
        !(verdict(a) is ProtobufPayload),
{
}

/// Valid payload: the outcome is a verified payload exactly where the codec
/// kept its contract, and the payload reported is then the encoding that
/// decoded to a message equal to the original.
pub proof fn lemma_valid_payload(a: Answers)
    ensures
        verdict(a) is ProtobufPayload <==> a.faithful(),
        a.faithful() ==> verdict(a) == SpecResult::ProtobufPayload(a.encoded),
{
}

/// Length-contract violation: where the payload decodes and the codec
/// declares another length than it encoded, the outcome is a runtime error
/// whose text holds both lengths in decimal.
pub proof fn lemma_length_violation(a: Answers)
    requires
        a.original is None,
        a.declared_len != a.encoded.len(),
    ensures
        verdict(a) == SpecResult::RuntimeError(
            length_mismatch_text(a.declared_len, a.encoded.len()),
        ),
        length_mismatch_text(a.declared_len, a.encoded.len())
            == "encoded length does not match actual; encoded_len: "@ + decimal(a.declared_len)
            + ", buf len: "@ + decimal(a.encoded.len()),
{
}

} // verus!
