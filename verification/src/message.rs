//! The requests and responses that the harness exchanges with the test
//! suite, as plain values, and their mathematical views.

use vstd::prelude::*;

verus! {

/// The wire format that a request asks the answer in.
#[derive(Clone, Copy, Debug, PartialEq, Eq, Structural)]
pub enum WireFormat {
    Unspecified,
    Protobuf,
    Json,
}

impl WireFormat {
    /// The format that a number on the wire stands for, if any.
    pub open spec fn of_number(value: i32) -> Option<WireFormat> {
        if value == 0 {
            Some(WireFormat::Unspecified)
        } else if value == 1 {
            Some(WireFormat::Protobuf)
        } else if value == 2 {
            Some(WireFormat::Json)
        } else {
            None
        }
    }

    /// The format that `value` stands for; `None` for a number that names no
    /// format.
    pub fn from_i32(value: i32) -> (format: Option<WireFormat>)
        ensures
            format == WireFormat::of_number(value),
    {
        if value == 0 {
            Some(WireFormat::Unspecified)
        } else if value == 1 {
            Some(WireFormat::Protobuf)
        } else if value == 2 {
            Some(WireFormat::Json)
        } else {
            None
        }
    }
}

/// The payload of a request: one of two encodings of a test message.
#[derive(Clone, Debug, PartialEq, Eq)]
pub enum Payload {
    ProtobufPayload(Vec<u8>),
    JsonPayload(String),
}

/// The view of a [`Payload`].
pub enum SpecPayload {
    ProtobufPayload(Seq<u8>),
    JsonPayload(Seq<char>),
}

impl View for Payload {
    type V = SpecPayload;

    open spec fn view(&self) -> SpecPayload {
        match self {
            Payload::ProtobufPayload(bytes) => SpecPayload::ProtobufPayload(bytes@),
            Payload::JsonPayload(text) => SpecPayload::JsonPayload(text@),
        }
    }
}

/// A request of the test suite, as the codec decoded it.
#[derive(Clone, Debug, PartialEq, Eq)]
pub struct ConformanceRequest {
    /// The message to test, if the request carries one.
    pub payload: Option<Payload>,
    /// The number of the wire format that the answer is asked in.
    pub requested_output_format: i32,
}

/// The view of a [`ConformanceRequest`].
pub struct SpecRequest {
    pub payload: Option<SpecPayload>,
    pub requested_output_format: i32,
}

impl SpecRequest {
    /// The wire format that the request names, if its number names one.
    pub open spec fn format(self) -> Option<WireFormat> {
        WireFormat::of_number(self.requested_output_format)
    }
}

impl View for ConformanceRequest {
    type V = SpecRequest;

    open spec fn view(&self) -> SpecRequest {
        SpecRequest {
            payload: match self.payload {
                Some(payload) => Some(payload@),
                None => None,
            },
            requested_output_format: self.requested_output_format,
        }
    }
}

impl ConformanceRequest {
    /// The wire format that the request names; `None` where its number names
    /// no format.
    pub fn requested_output_format(&self) -> (format: Option<WireFormat>)
        ensures
            format == self@.format(),
    {
        WireFormat::from_i32(self.requested_output_format)
    }
}

/// The outcome that a response reports.
#[derive(Clone, Debug, PartialEq, Eq)]
pub enum ResponseResult {
    /// The codec could not read the bytes, or the request was not understood.
    ParseError(String),
    /// The codec ran and broke its own contract.
    RuntimeError(String),
    /// The codec kept the message: its encoding, as verified.
    ProtobufPayload(Vec<u8>),
    /// The request asks for what the harness leaves out on purpose.
    Skipped(String),
}

/// The view of a [`ResponseResult`].
pub enum SpecResult {
    ParseError(Seq<char>),
    RuntimeError(Seq<char>),
    ProtobufPayload(Seq<u8>),
    Skipped(Seq<char>),
}

impl View for ResponseResult {
    type V = SpecResult;

    open spec fn view(&self) -> SpecResult {
        match self {
            ResponseResult::ParseError(text) => SpecResult::ParseError(text@),
            ResponseResult::RuntimeError(text) => SpecResult::RuntimeError(text@),
            ResponseResult::ProtobufPayload(bytes) => SpecResult::ProtobufPayload(bytes@),
            ResponseResult::Skipped(text) => SpecResult::Skipped(text@),
        }
    }
}

/// A response to the test suite, for the codec to encode. It reports exactly
/// one outcome.
#[derive(Clone, Debug, PartialEq, Eq)]
pub struct ConformanceResponse {
    pub result: ResponseResult,
}

impl View for ConformanceResponse {
    type V = SpecResult;

    open spec fn view(&self) -> SpecResult {
        self.result@
    }
}

} // verus!
