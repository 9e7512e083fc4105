//! The request dispatcher: which requests are answered at once, and which
//! payloads go on to be verified.

use crate::message::{
    ConformanceRequest, Payload, ResponseResult, SpecPayload, SpecRequest, SpecResult, WireFormat,
};
use vstd::prelude::*;
use vstd::string::StringExecFns;

verus! {

/// What becomes of a request.
#[derive(Clone, Debug, PartialEq, Eq)]
pub enum Dispatch {
    /// It is answered with this outcome, and the codec is not asked.
    Respond(ResponseResult),
    /// Its payload, these bytes, is to be verified.
    Verify(Vec<u8>),
}

/// The view of a [`Dispatch`].
pub enum SpecDispatch {
    Respond(SpecResult),
    Verify(Seq<u8>),
}

impl View for Dispatch {
    type V = SpecDispatch;

    open spec fn view(&self) -> SpecDispatch {
        match self {
            Dispatch::Respond(result) => SpecDispatch::Respond(result@),
            Dispatch::Verify(bytes) => SpecDispatch::Verify(bytes@),
        }
    }
}

/// The policy of the dispatcher. The output format decides first: JSON is
/// skipped, anything but protobuf is not recognized. Then the payload: none
/// is an error, JSON is skipped, protobuf bytes are verified.
pub open spec fn dispatch(request: SpecRequest) -> SpecDispatch {
    match request.format() {
        Some(WireFormat::Json) => SpecDispatch::Respond(
            SpecResult::Skipped("JSON output is not supported"@),
        ),
        Some(WireFormat::Protobuf) => match request.payload {
            None => SpecDispatch::Respond(SpecResult::ParseError("no payload"@)),
            Some(SpecPayload::JsonPayload(_)) => SpecDispatch::Respond(
                SpecResult::Skipped("JSON input is not supported"@),
            ),
            Some(SpecPayload::ProtobufPayload(bytes)) => SpecDispatch::Verify(bytes),
        },
        _ => SpecDispatch::Respond(
            SpecResult::ParseError("unrecognized requested output format"@),
        ),
    }
}

/// Applies the dispatcher's policy to a decoded request.
pub fn handle_request(request: ConformanceRequest) -> (d: Dispatch)
    ensures
        d@ == dispatch(request@),
{
    match request.requested_output_format() {
        Some(WireFormat::Json) => {
            return Dispatch::Respond(
                ResponseResult::Skipped(String::from_str("JSON output is not supported")),
            );
        },
        Some(WireFormat::Protobuf) => {},
        _ => {
            return Dispatch::Respond(
                ResponseResult::ParseError(
                    String::from_str("unrecognized requested output format"),
                ),
            );
        },
    }
    match request.payload {
        None => Dispatch::Respond(ResponseResult::ParseError(String::from_str("no payload"))),
        Some(Payload::JsonPayload(_)) => Dispatch::Respond(
            ResponseResult::Skipped(String::from_str("JSON input is not supported")),
        ),
        Some(Payload::ProtobufPayload(bytes)) => Dispatch::Verify(bytes),
    }
}

/// The outcome for a request that the codec could not decode: a parse error
/// with the codec's own words.
pub fn reject_request(detail: String) -> (result: ResponseResult)
    ensures
        result@ == SpecResult::ParseError(detail@),
{
    ResponseResult::ParseError(detail)
}

/// Unsupported format: a request that asks for JSON is skipped, and one whose
/// format is unset, unspecified or unknown is a parse error, whatever its
/// payload; neither has anything verified.
pub proof fn lemma_unsupported_format(request: SpecRequest)
    requires
        request.format() != Some(WireFormat::Protobuf),
    ensures
        request.format() == Some(WireFormat::Json) ==> dispatch(request) == SpecDispatch::Respond(
            SpecResult::Skipped("JSON output is not supported"@),
        ),
        request.format() != Some(WireFormat::Json) ==> dispatch(request) == SpecDispatch::Respond(
            SpecResult::ParseError("unrecognized requested output format"@),
        ),
        dispatch(request) is Respond,
        !(dispatch(request)->Respond_0 is ProtobufPayload),
{
}

/// Empty payload: a request for protobuf output that carries no payload is
/// the parse error "no payload".
pub proof fn lemma_empty_payload(request: SpecRequest)
    requires
        request.format() == Some(WireFormat::Protobuf),
        request.payload is None,
    ensures
        dispatch(request) == SpecDispatch::Respond(SpecResult::ParseError("no payload"@)),
{
}

/// The dispatcher never reports a verified payload itself, and it has
/// verified exactly the protobuf payloads of requests for protobuf output.
pub proof fn lemma_dispatch_verifies(request: SpecRequest)
    ensures
        dispatch(request) is Verify <==> request.format() == Some(WireFormat::Protobuf)
            && request.payload is Some && request.payload->Some_0 is ProtobufPayload,
        dispatch(request) is Verify ==> dispatch(request)->Verify_0
            == request.payload->Some_0->ProtobufPayload_0,
        dispatch(request) is Respond ==> !(dispatch(request)->Respond_0 is ProtobufPayload),
{
}

} // verus!
