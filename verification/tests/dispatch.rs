use proto_conformance::dispatch::{handle_request, reject_request, Dispatch};
use proto_conformance::message::{ConformanceRequest, Payload, ResponseResult, WireFormat};

fn request(format: i32, payload: Option<Payload>) -> ConformanceRequest {
    ConformanceRequest { payload, requested_output_format: format }
}

fn payloads() -> Vec<Option<Payload>> {
    vec![
        None,
        Some(Payload::ProtobufPayload(vec![])),
        Some(Payload::ProtobufPayload(vec![8, 1])),
        Some(Payload::JsonPayload(String::from("{}"))),
    ]
}

#[test]
fn wire_format_numbers() {
    assert_eq!(WireFormat::from_i32(0), Some(WireFormat::Unspecified));
    assert_eq!(WireFormat::from_i32(1), Some(WireFormat::Protobuf));
    assert_eq!(WireFormat::from_i32(2), Some(WireFormat::Json));
    assert_eq!(WireFormat::from_i32(3), None);
    assert_eq!(WireFormat::from_i32(-1), None);
    assert_eq!(WireFormat::from_i32(i32::MAX), None);
}

#[test]
fn request_names_its_format() {
    assert_eq!(request(1, None).requested_output_format(), Some(WireFormat::Protobuf));
    assert_eq!(request(7, None).requested_output_format(), None);
}

#[test]
fn json_output_is_skipped() {
    for payload in payloads() {
        assert_eq!(
            handle_request(request(2, payload)),
            Dispatch::Respond(ResponseResult::Skipped(String::from(
                "JSON output is not supported"
            )))
        );
    }
}

#[test]
fn unset_or_unknown_format_is_a_parse_error() {
    for format in [0, 3, -1, 1000, i32::MIN] {
        for payload in payloads() {
            assert_eq!(
                handle_request(request(format, payload)),
                Dispatch::Respond(ResponseResult::ParseError(String::from(
                    "unrecognized requested output format"
                )))
            );
        }
    }
}

#[test]
fn no_payload_is_a_parse_error() {
    assert_eq!(
        handle_request(request(1, None)),
        Dispatch::Respond(ResponseResult::ParseError(String::from("no payload")))
    );
}

#[test]
fn json_input_is_skipped() {
    assert_eq!(
        handle_request(request(1, Some(Payload::JsonPayload(String::from("{\"a\": 1}"))))),
        Dispatch::Respond(ResponseResult::Skipped(String::from("JSON input is not supported")))
    );
}

#[test]
fn protobuf_payload_goes_to_the_verifier() {
    assert_eq!(
        handle_request(request(1, Some(Payload::ProtobufPayload(vec![8, 150, 1])))),
        Dispatch::Verify(vec![8, 150, 1])
    );
    assert_eq!(
        handle_request(request(1, Some(Payload::ProtobufPayload(vec![])))),
        Dispatch::Verify(vec![])
    );
}

#[test]
fn undecodable_request_is_a_parse_error_with_the_detail() {
    assert_eq!(
        reject_request(String::from("DecodeError { description: \"invalid varint\" }")),
        ResponseResult::ParseError(String::from(
            "DecodeError { description: \"invalid varint\" }"
        ))
    );
}
