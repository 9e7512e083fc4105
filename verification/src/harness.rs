//! The protocol loop as a machine: the harness says what is to be done next,
//! the driver does it and reports what came of it.
//!
//! One exchange runs: read a header, read the payload it announces, decode
//! the request, verify its payload with the codec where the dispatcher
//! passes it on, encode the response, write its frame. Then the harness is
//! where it began.

use crate::dispatch::{dispatch, handle_request, reject_request, Dispatch, SpecDispatch};
use crate::frame::{
    frame, le_bytes, le_value, lemma_le_value_of_bytes, payload_len, write_frame, FrameError,
    HEADER_LEN,
};
use crate::message::{
    ConformanceRequest, ConformanceResponse, ResponseResult, SpecRequest, SpecResult,
};
use crate::roundtrip::{
    check_encoded_len, length_mismatch_text, mismatch, mismatch_text, unparsed_original,
    unparsed_original_text, unparsed_roundtrip, unparsed_roundtrip_text, verdict, Answers,
};
use vstd::prelude::*;
use vstd::slice::slice_to_vec;

verus! {

/// Why the harness gave up the run.
#[derive(Clone, Copy, Debug, PartialEq, Eq, Structural)]
pub enum Halt {
    /// The frame layer failed. `StreamClosed` is how every run ends: the
    /// peer has closed the input.
    Frame(FrameError),
    /// The codec declared another length for the response than it encoded.
    LengthCheck,
    /// The driver reported what the harness had not asked for.
    OutOfTurn,
}

/// What the driver reports to the harness.
#[derive(Clone, Debug, PartialEq, Eq)]
pub enum Event {
    /// The bytes that the input gave to the last read: as many as were asked
    /// for, or fewer where the input ended first.
    Read(Vec<u8>),
    /// The codec decoded the frame to this request.
    Request(ConformanceRequest),
    /// The codec could not decode the bytes; its detail.
    Rejected(String),
    /// The codec decoded the bytes to a test message.
    Decoded,
    /// The codec encoded the message or the response: the bytes, and the
    /// length that it declared for them.
    Encoded { bytes: Vec<u8>, declared_len: usize },
    /// The original and the roundtrip are equal.
    Equal,
    /// The original and the roundtrip differ; a rendering of each.
    Differ { original: String, roundtrip: String },
    /// The frame is written and the output flushed.
    Written,
}

/// The view of an [`Event`].
pub enum SpecEvent {
    Read(Seq<u8>),
    Request(SpecRequest),
    Rejected(Seq<char>),
    Decoded,
    Encoded { bytes: Seq<u8>, declared_len: nat },
    Equal,
    Differ { original: Seq<char>, roundtrip: Seq<char> },
    Written,
}

impl View for Event {
    type V = SpecEvent;

    open spec fn view(&self) -> SpecEvent {
        match self {
            Event::Read(bytes) => SpecEvent::Read(bytes@),
            Event::Request(request) => SpecEvent::Request(request@),
            Event::Rejected(detail) => SpecEvent::Rejected(detail@),
            Event::Decoded => SpecEvent::Decoded,
            Event::Encoded { bytes, declared_len } => SpecEvent::Encoded {
                bytes: bytes@,
                declared_len: *declared_len as nat,
            },
            Event::Equal => SpecEvent::Equal,
            Event::Differ { original, roundtrip } => SpecEvent::Differ {
                original: original@,
                roundtrip: roundtrip@,
            },
            Event::Written => SpecEvent::Written,
        }
    }
}

/// What the harness asks of the driver.
#[derive(Clone, Debug, PartialEq, Eq)]
pub enum Action {
    /// Read exactly this many bytes from the input, and report them with
    /// [`Event::Read`].
    Read(usize),
    /// Decode these bytes as a request.
    DecodeRequest(Vec<u8>),
    /// Decode these bytes as a test message, and keep it as the original.
    DecodeOriginal(Vec<u8>),
    /// Encode the original into a fresh buffer.
    EncodeOriginal,
    /// Decode these bytes as a test message, and keep it as the roundtrip.
    DecodeRoundtrip(Vec<u8>),
    /// Compare the original with the roundtrip.
    Compare,
    /// Encode this response.
    EncodeResponse(ConformanceResponse),
    /// Write these bytes to the output as one unit, and flush it.
    Write(Vec<u8>),
    /// End the run.
    Halt(Halt),
}

/// The view of an [`Action`].
pub enum SpecAction {
    Read(nat),
    DecodeRequest(Seq<u8>),
    DecodeOriginal(Seq<u8>),
    EncodeOriginal,
    DecodeRoundtrip(Seq<u8>),
    Compare,
    EncodeResponse(SpecResult),
    Write(Seq<u8>),
    Halt(Halt),
}

impl View for Action {
    type V = SpecAction;

    open spec fn view(&self) -> SpecAction {
        match self {
            Action::Read(n) => SpecAction::Read(*n as nat),
            Action::DecodeRequest(bytes) => SpecAction::DecodeRequest(bytes@),
            Action::DecodeOriginal(bytes) => SpecAction::DecodeOriginal(bytes@),
            Action::EncodeOriginal => SpecAction::EncodeOriginal,
            Action::DecodeRoundtrip(bytes) => SpecAction::DecodeRoundtrip(bytes@),
            Action::Compare => SpecAction::Compare,
            Action::EncodeResponse(response) => SpecAction::EncodeResponse(response@),
            Action::Write(bytes) => SpecAction::Write(bytes@),
            Action::Halt(reason) => SpecAction::Halt(*reason),
        }
    }
}

/// Where the harness stands in an exchange: what it waits for.
pub enum SpecStage {
    /// The header of the next frame.
    Header,
    /// The payload of the frame, of this length.
    Body { len: nat },
    /// The decoding of the request.
    Request,
    /// The decoding of the request's payload.
    Original,
    /// The encoding of the original.
    Encoding,
    /// The decoding of the encoding, which is held.
    Roundtrip { encoded: Seq<u8> },
    /// The comparison of the original with the roundtrip.
    Comparison { encoded: Seq<u8> },
    /// The encoding of the response.
    Response,
    /// The writing of the response's frame.
    Flush,
    /// Nothing: the run has ended.
    Closed,
}

/// The end of a run, for a reason.
pub open spec fn halt(reason: Halt) -> (SpecStage, SpecAction) {
    (SpecStage::Closed, SpecAction::Halt(reason))
}

/// The step from deciding an outcome to having it encoded.
pub open spec fn respond(result: SpecResult) -> (SpecStage, SpecAction) {
    (SpecStage::Response, SpecAction::EncodeResponse(result))
}

/// The harness's rule: the stage it goes to and the action it asks for, when
/// `event` is reported at `stage`.
pub open spec fn next(stage: SpecStage, event: SpecEvent) -> (SpecStage, SpecAction) {
    match (stage, event) {
        (SpecStage::Header, SpecEvent::Read(bytes)) => if bytes.len() < 4 {
            halt(Halt::Frame(FrameError::StreamClosed))
        } else if bytes.len() > 4 {
            halt(Halt::OutOfTurn)
        } else {
            (SpecStage::Body { len: le_value(bytes) }, SpecAction::Read(le_value(bytes)))
        },
        (SpecStage::Body { len }, SpecEvent::Read(bytes)) => if bytes.len() < len {
            halt(Halt::Frame(FrameError::Truncated))
        } else if bytes.len() > len {
            halt(Halt::OutOfTurn)
        } else {
            (SpecStage::Request, SpecAction::DecodeRequest(bytes))
        },
        (SpecStage::Request, SpecEvent::Request(request)) => match dispatch(request) {
            SpecDispatch::Respond(result) => respond(result),
            SpecDispatch::Verify(payload) => (
                SpecStage::Original,
                SpecAction::DecodeOriginal(payload),
            ),
        },
        (SpecStage::Request, SpecEvent::Rejected(detail)) => respond(
            SpecResult::ParseError(detail),
        ),
        (SpecStage::Original, SpecEvent::Decoded) => (
            SpecStage::Encoding,
            SpecAction::EncodeOriginal,
        ),
        (SpecStage::Original, SpecEvent::Rejected(detail)) => respond(
            SpecResult::ParseError(unparsed_original_text(detail)),
        ),
        (SpecStage::Encoding, SpecEvent::Encoded { bytes, declared_len }) => if declared_len
            != bytes.len() {
            respond(SpecResult::RuntimeError(length_mismatch_text(declared_len, bytes.len())))
        } else {
            (SpecStage::Roundtrip { encoded: bytes }, SpecAction::DecodeRoundtrip(bytes))
        },
        (SpecStage::Roundtrip { encoded }, SpecEvent::Decoded) => (
            SpecStage::Comparison { encoded },
            SpecAction::Compare,
        ),
        (SpecStage::Roundtrip { encoded }, SpecEvent::Rejected(detail)) => respond(
            SpecResult::ParseError(unparsed_roundtrip_text(detail)),
        ),
        (SpecStage::Comparison { encoded }, SpecEvent::Equal) => respond(
            SpecResult::ProtobufPayload(encoded),
        ),
        (SpecStage::Comparison { encoded }, SpecEvent::Differ { original, roundtrip }) => respond(
            SpecResult::RuntimeError(mismatch_text(original, roundtrip)),
        ),
        (SpecStage::Response, SpecEvent::Encoded { bytes, declared_len }) => if declared_len
            != bytes.len() {
            halt(Halt::LengthCheck)
        } else if bytes.len() > 0xffff_ffff {
            halt(Halt::Frame(FrameError::TooLong))
        } else {
            (SpecStage::Flush, SpecAction::Write(frame(bytes)))
        },
        (SpecStage::Flush, SpecEvent::Written) => (SpecStage::Header, SpecAction::Read(4)),
        _ => halt(Halt::OutOfTurn),
    }
}

/// The stage in which `events`, reported in turn from `stage` on, leave the
/// harness, and the actions that it asked for on the way.
pub open spec fn run(stage: SpecStage, events: Seq<SpecEvent>) -> (SpecStage, Seq<SpecAction>)
    decreases events.len(),
{
    if events.len() == 0 {
        (stage, Seq::empty())
    } else {
        let (before, actions) = run(stage, events.drop_last());
        let (after, action) = next(before, events.last());
        (after, actions.push(action))
    }
}

/// The stage as the harness holds it: [`SpecStage`] with the bytes in hand.
#[derive(Debug)]
enum Stage {
    Header,
    Body { len: usize },
    Request,
    Original,
    Encoding,
    Roundtrip { encoded: Vec<u8> },
    Comparison { encoded: Vec<u8> },
    Response,
    Flush,
    Closed,
}

impl View for Stage {
    type V = SpecStage;

    closed spec fn view(&self) -> SpecStage {
        match self {
            Stage::Header => SpecStage::Header,
            Stage::Body { len } => SpecStage::Body { len: *len as nat },
            Stage::Request => SpecStage::Request,
            Stage::Original => SpecStage::Original,
            Stage::Encoding => SpecStage::Encoding,
            Stage::Roundtrip { encoded } => SpecStage::Roundtrip { encoded: encoded@ },
            Stage::Comparison { encoded } => SpecStage::Comparison { encoded: encoded@ },
            Stage::Response => SpecStage::Response,
            Stage::Flush => SpecStage::Flush,
            Stage::Closed => SpecStage::Closed,
        }
    }
}

/// The harness: the stage of the exchange that is under way.
#[derive(Debug)]
pub struct Harness {
    stage: Stage,
}

impl View for Harness {
    type V = SpecStage;

    closed spec fn view(&self) -> SpecStage {
        self.stage@
    }
}

/// The harness closed, and the action that ends the run.
fn halted(reason: Halt) -> (out: (Harness, Action))
    ensures
        (out.0@, out.1@) == halt(reason),
{
    (Harness { stage: Stage::Closed }, Action::Halt(reason))
}

/// The harness waiting for the encoding of the response that reports
/// `result`, and the action that asks for it.
fn responding(result: ResponseResult) -> (out: (Harness, Action))
    ensures
        (out.0@, out.1@) == respond(result@),
{
    (
        Harness { stage: Stage::Response },
        Action::EncodeResponse(ConformanceResponse { result }),
    )
}

impl Harness {
    /// A harness at the start of a run, and its first action: to read a
    /// header.
    pub fn start() -> (out: (Harness, Action))
        ensures
            out.0@ == SpecStage::Header,
            out.1@ == SpecAction::Read(4),
    {
        (Harness { stage: Stage::Header }, Action::Read(HEADER_LEN))
    }

    /// Takes what the driver reports and says what is to be done next, by
    /// the rule [`next`].
    pub fn step(self, event: Event) -> (out: (Harness, Action))
        ensures
            (out.0@, out.1@) == next(self@, event@),
    {
        match self.stage {
            Stage::Header => match event {
                Event::Read(bytes) => {
                    if bytes.len() < HEADER_LEN {
                        return halted(Halt::Frame(FrameError::StreamClosed));
                    }
                    match payload_len(bytes.as_slice()) {
                        Some(announced) => {
                            let len: usize = announced as usize;
                            (Harness { stage: Stage::Body { len } }, Action::Read(len))
                        },
                        None => halted(Halt::OutOfTurn),
                    }
                },
                _ => halted(Halt::OutOfTurn),
            },
            Stage::Body { len } => match event {
                Event::Read(bytes) => {
                    if bytes.len() < len {
                        halted(Halt::Frame(FrameError::Truncated))
                    } else if bytes.len() > len {
                        halted(Halt::OutOfTurn)
                    } else {
                        (Harness { stage: Stage::Request }, Action::DecodeRequest(bytes))
                    }
                },
                _ => halted(Halt::OutOfTurn),
            },
            Stage::Request => match event {
                Event::Request(request) => match handle_request(request) {
                    Dispatch::Respond(result) => responding(result),
                    Dispatch::Verify(payload) => (
                        Harness { stage: Stage::Original },
                        Action::DecodeOriginal(payload),
                    ),
                },
                Event::Rejected(detail) => responding(reject_request(detail)),
                _ => halted(Halt::OutOfTurn),
            },
            Stage::Original => match event {
                Event::Decoded => (Harness { stage: Stage::Encoding }, Action::EncodeOriginal),
                Event::Rejected(detail) => responding(unparsed_original(detail.as_str())),
                _ => halted(Halt::OutOfTurn),
            },
            Stage::Encoding => match event {
                Event::Encoded { bytes, declared_len } => {
                    match check_encoded_len(declared_len, bytes.len()) {
                        Some(result) => responding(result),
                        None => {
                            let copy = slice_to_vec(bytes.as_slice());
                            (
                                Harness { stage: Stage::Roundtrip { encoded: bytes } },
                                Action::DecodeRoundtrip(copy),
                            )
                        },
                    }
                },
                _ => halted(Halt::OutOfTurn),
            },
            Stage::Roundtrip { encoded } => match event {
                Event::Decoded => (
                    Harness { stage: Stage::Comparison { encoded } },
                    Action::Compare,
                ),
                Event::Rejected(detail) => responding(unparsed_roundtrip(detail.as_str())),
                _ => halted(Halt::OutOfTurn),
            },
            Stage::Comparison { encoded } => match event {
                Event::Equal => responding(ResponseResult::ProtobufPayload(encoded)),
                Event::Differ { original, roundtrip } => responding(
                    mismatch(original.as_str(), roundtrip.as_str()),
                ),
                _ => halted(Halt::OutOfTurn),
            },
            Stage::Response => match event {
                Event::Encoded { bytes, declared_len } => {
                    if declared_len != bytes.len() {
                        return halted(Halt::LengthCheck);
                    }
                    match write_frame(bytes.as_slice()) {
                        Ok(framed) => (Harness { stage: Stage::Flush }, Action::Write(framed)),
                        Err(e) => halted(Halt::Frame(e)),
                    }
                },
                _ => halted(Halt::OutOfTurn),
            },
            Stage::Flush => match event {
                Event::Written => (Harness { stage: Stage::Header }, Action::Read(HEADER_LEN)),
                _ => halted(Halt::OutOfTurn),
            },
            Stage::Closed => halted(Halt::OutOfTurn),
        }
    }
}

/// The events that the driver reports while a payload is verified on which
/// the codec answers `a`: the answers in order, up to the one that settles
/// the outcome.
pub open spec fn script(a: Answers) -> Seq<SpecEvent> {
    let encoded = SpecEvent::Encoded { bytes: a.encoded, declared_len: a.declared_len };
    if let Some(detail) = a.original {
        seq![SpecEvent::Rejected(detail)]
    } else if a.declared_len != a.encoded.len() {
        seq![SpecEvent::Decoded, encoded]
    } else if let Some(detail) = a.roundtrip {
        seq![SpecEvent::Decoded, encoded, SpecEvent::Rejected(detail)]
    } else if let Some((original, roundtrip)) = a.difference {
        seq![
            SpecEvent::Decoded,
            encoded,
            SpecEvent::Decoded,
            SpecEvent::Differ { original, roundtrip },
        ]
    } else {
        seq![SpecEvent::Decoded, encoded, SpecEvent::Decoded, SpecEvent::Equal]
    }
}

/// What the harness asks of the codec while it verifies a payload, in
/// order: to encode the original, to decode the encoding, to compare.
pub open spec fn probes(a: Answers) -> Seq<SpecAction> {
    seq![SpecAction::EncodeOriginal, SpecAction::DecodeRoundtrip(a.encoded), SpecAction::Compare]
}

/// The outcome of a request on whose payload the codec answers `a`: the
/// dispatcher's where it answers at once, the verifier's verdict where the
/// payload goes to the codec.
pub open spec fn outcome(request: SpecRequest, a: Answers) -> SpecResult {
    match dispatch(request) {
        SpecDispatch::Respond(result) => result,
        SpecDispatch::Verify(_) => verdict(a),
    }
}

/// The events of one whole exchange: the frame of the request comes in, the
/// codec decodes it to `request` and answers `a` on its payload, and
/// encodes the response to `response`, whose frame goes out.
pub open spec fn exchange(
    body: Seq<u8>,
    request: SpecRequest,
    a: Answers,
    response: Seq<u8>,
) -> Seq<SpecEvent> {
    seq![
        SpecEvent::Read(le_bytes(body.len())),
        SpecEvent::Read(body),
        SpecEvent::Request(request),
    ] + (if dispatch(request) is Verify {
        script(a)
    } else {
        Seq::empty()
    }) + seq![
        SpecEvent::Encoded { bytes: response, declared_len: response.len() },
        SpecEvent::Written,
    ]
}

/// One event more is one step more.
pub proof fn lemma_run_push(stage: SpecStage, events: Seq<SpecEvent>, event: SpecEvent)
    ensures
        run(stage, events.push(event)) == (
            next(run(stage, events).0, event).0,
            run(stage, events).1.push(next(run(stage, events).0, event).1),
        ),
{
    assert(events.push(event).drop_last() =~= events);
}

/// A run can be cut anywhere: the second part goes on from the stage in
/// which the first part ends.
pub proof fn lemma_run_concat(stage: SpecStage, first: Seq<SpecEvent>, second: Seq<SpecEvent>)
    ensures
        run(stage, first + second) == (
            run(run(stage, first).0, second).0,
            run(stage, first).1 + run(run(stage, first).0, second).1,
        ),
    decreases second.len(),
{
    let middle = run(stage, first).0;
    if second.len() == 0 {
        assert(first + second =~= first);
        assert(run(stage, first).1 + run(middle, second).1 =~= run(stage, first).1);
    } else {
        let init = second.drop_last();
        lemma_run_concat(stage, first, init);
        assert((first + second).drop_last() =~= first + init);
        assert(run(stage, first).1 + run(middle, second).1 =~= (run(stage, first).1 + run(
            middle,
            init,
        ).1).push(next(run(middle, init).0, second.last()).1));
    }
}

/// A harness that waits for a header has forgotten how it came there: what
/// it does with the events that follow is what a harness at the start of a
/// run does with them.
pub proof fn lemma_run_resumes_afresh(earlier: Seq<SpecEvent>, events: Seq<SpecEvent>)
    requires
        run(SpecStage::Header, earlier).0 == SpecStage::Header,
    ensures
        run(SpecStage::Header, earlier + events).0 == run(SpecStage::Header, events).0,
        run(SpecStage::Header, earlier + events).1 == run(SpecStage::Header, earlier).1 + run(
            SpecStage::Header,
            events,
        ).1,
{
    lemma_run_concat(SpecStage::Header, earlier, events);
}

/// Verification ends in the verdict. From the stage at which the payload
/// has gone out to be decoded, the events of [`script`] make the harness
/// ask for the probes in order, as far as the script goes, and then for a
/// response that reports [`verdict`].
pub proof fn lemma_verification(a: Answers)
    ensures
        run(SpecStage::Original, script(a)) == (
            SpecStage::Response,
            probes(a).subrange(0, script(a).len() - 1).push(
                SpecAction::EncodeResponse(verdict(a)),
            ),
        ),
{
    let events = script(a);
    let begin = SpecStage::Original;
    assert(events.subrange(0, 0) =~= Seq::empty());
    assert(events.subrange(0, events.len() as int) =~= events);
    lemma_run_prefix(begin, events, 0);
    if events.len() > 1 {
        lemma_run_prefix(begin, events, 1);
    }
    if events.len() > 2 {
        lemma_run_prefix(begin, events, 2);
    }
    if events.len() > 3 {
        lemma_run_prefix(begin, events, 3);
    }
    assert(run(begin, events).1 =~= probes(a).subrange(0, events.len() - 1).push(
        SpecAction::EncodeResponse(verdict(a)),
    ));
}

/// The run over the first `i + 1` events is one step of the rule beyond the
/// run over the first `i`.
proof fn lemma_run_prefix(stage: SpecStage, events: Seq<SpecEvent>, i: int)
    requires
        0 <= i < events.len(),
    ensures
        run(stage, events.subrange(0, i + 1)) == (
            next(run(stage, events.subrange(0, i)).0, events[i]).0,
            run(stage, events.subrange(0, i)).1.push(
                next(run(stage, events.subrange(0, i)).0, events[i]).1,
            ),
        ),
{
    assert(events.subrange(0, i + 1) =~= events.subrange(0, i).push(events[i]));
    lemma_run_push(stage, events.subrange(0, i), events[i]);
}

/// One whole exchange, from the start of a run or after any exchange
/// before it: the harness reads the frame, has the request decoded, has the
/// payload verified where the dispatcher passes it on, asks for a response
/// that reports [`outcome`], writes the frame of its encoding, and waits for
/// the next header.
pub proof fn lemma_exchange(body: Seq<u8>, request: SpecRequest, a: Answers, response: Seq<u8>)
    requires
        body.len() <= 0xffff_ffff,
        response.len() <= 0xffff_ffff,
    ensures
        run(SpecStage::Header, exchange(body, request, a, response)).0 == SpecStage::Header,
        run(SpecStage::Header, exchange(body, request, a, response)).1 == seq![
            SpecAction::Read(body.len()),
            SpecAction::DecodeRequest(body),
        ] + (match dispatch(request) {
            SpecDispatch::Respond(_) => Seq::empty(),
            SpecDispatch::Verify(payload) => seq![SpecAction::DecodeOriginal(payload)]
                + probes(a).subrange(0, script(a).len() - 1),
        }) + seq![
            SpecAction::EncodeResponse(outcome(request, a)),
            SpecAction::Write(frame(response)),
            SpecAction::Read(4),
        ],
{
    let begin = SpecStage::Header;
    let arrival = seq![
        SpecEvent::Read(le_bytes(body.len())),
        SpecEvent::Read(body),
        SpecEvent::Request(request),
    ];
    let verification = if dispatch(request) is Verify {
        script(a)
    } else {
        Seq::empty()
    };
    let departure = seq![
        SpecEvent::Encoded { bytes: response, declared_len: response.len() },
        SpecEvent::Written,
    ];
    lemma_le_value_of_bytes(body.len());

    assert(arrival.subrange(0, 0) =~= Seq::empty());
    assert(arrival.subrange(0, 3) =~= arrival);
    lemma_run_prefix(begin, arrival, 0);
    lemma_run_prefix(begin, arrival, 1);
    lemma_run_prefix(begin, arrival, 2);
    let arrived = run(begin, arrival);

    let verified = run(arrived.0, verification);
    if dispatch(request) is Verify {
        lemma_verification(a);
    }
    assert(verified.0 == SpecStage::Response);

    assert(departure.subrange(0, 0) =~= Seq::empty());
    assert(departure.subrange(0, 2) =~= departure);
    lemma_run_prefix(verified.0, departure, 0);
    lemma_run_prefix(verified.0, departure, 1);
    let departed = run(verified.0, departure);

    lemma_run_concat(begin, arrival, verification);
    lemma_run_concat(begin, arrival + verification, departure);
    assert(run(begin, exchange(body, request, a, response)).1 =~= seq![
        SpecAction::Read(body.len()),
        SpecAction::DecodeRequest(body),
    ] + (match dispatch(request) {
        SpecDispatch::Respond(_) => Seq::empty(),
        SpecDispatch::Verify(payload) => seq![SpecAction::DecodeOriginal(payload)] + probes(
            a,
        ).subrange(0, script(a).len() - 1),
    }) + seq![
        SpecAction::EncodeResponse(outcome(request, a)),
        SpecAction::Write(frame(response)),
        SpecAction::Read(4),
    ]);
}

/// Sequential independence: after an exchange, whatever its request, the
/// codec's answers and its outcome, the harness handles what follows as it
/// would at the start of a run. Nothing of one request is left for the
/// next.
pub proof fn lemma_sequential_independence(
    body: Seq<u8>,
    request: SpecRequest,
    a: Answers,
    response: Seq<u8>,
    events: Seq<SpecEvent>,
)
    requires
        body.len() <= 0xffff_ffff,
        response.len() <= 0xffff_ffff,
    ensures
        run(SpecStage::Header, exchange(body, request, a, response) + events).0 == run(
            SpecStage::Header,
            events,
        ).0,
        run(SpecStage::Header, exchange(body, request, a, response) + events).1 == run(
            SpecStage::Header,
            exchange(body, request, a, response),
        ).1 + run(SpecStage::Header, events).1,
{
    lemma_exchange(body, request, a, response);
    lemma_run_resumes_afresh(exchange(body, request, a, response), events);
}

/// How many of `actions` hand a request's frame to the codec: the requests
/// that have come in.
pub open spec fn requests_taken(actions: Seq<SpecAction>) -> nat
    decreases actions.len(),
{
    if actions.len() == 0 {
        0
    } else {
        requests_taken(actions.drop_last()) + if actions.last() is DecodeRequest {
            1nat
        } else {
            0nat
        }
    }
}

/// How many of `actions` write a frame: the responses that have gone out.
pub open spec fn responses_written(actions: Seq<SpecAction>) -> nat
    decreases actions.len(),
{
    if actions.len() == 0 {
        0
    } else {
        responses_written(actions.drop_last()) + if actions.last() is Write {
            1nat
        } else {
            0nat
        }
    }
}

/// Whether a request is under way at `stage`: it has come in, and its
/// response has not gone out.
pub open spec fn request_pending(stage: SpecStage) -> bool {
    stage is Request || stage is Original || stage is Encoding || stage is Roundtrip
        || stage is Comparison || stage is Response
}

/// One response for one request: at every point of every run the harness
/// has written as many responses as it has taken requests, but for the one
/// request that is under way. No response goes out unasked, and none is
/// held back while the next request comes in.
pub proof fn lemma_one_response_per_request(events: Seq<SpecEvent>)
    ensures
        ({
            let (stage, actions) = run(SpecStage::Header, events);
            &&& request_pending(stage) ==> requests_taken(actions) == responses_written(actions)
                + 1
            &&& (stage is Header || stage is Body || stage is Flush) ==> requests_taken(actions)
                == responses_written(actions)
            &&& responses_written(actions) <= requests_taken(actions) <= responses_written(
                actions,
            ) + 1
        }),
    decreases events.len(),
{
    if events.len() > 0 {
        lemma_one_response_per_request(events.drop_last());
        let (before, actions) = run(SpecStage::Header, events.drop_last());
        let (after, action) = next(before, events.last());
        assert(actions.push(action).drop_last() =~= actions);
    }
}

} // verus!
