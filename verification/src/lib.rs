//! A conformance-test harness for a protobuf codec, as a verified protocol machine.
//!
//! The harness answers framed requests on a byte stream. Each request carries
//! a payload; the harness has a codec decode it, encode it again and decode
//! the result, and reports in a framed response whether the codec kept the
//! message. Reading, writing and the codec itself are the driver's part: the
//! library decides what is done next and what is answered.

pub mod dispatch;
pub mod frame;
pub mod harness;
pub mod message;
pub mod roundtrip;
pub mod text;

