//! Bifrost: a bidirectional remote-call sub-protocol layered on a
//! multiplexed, full-duplex stream transport.
//!
//! The crate covers the call/response correlation engine: the call frame
//! format and its flag bits, the registry that pairs an outbound call with
//! its eventual response, the caller- and acceptor-side handles, and the
//! per-event decision logic of the connection driver. The transport itself
//! (byte-stream I/O, stream-state machine, flow control) is an external
//! collaborator and is out of scope.

pub mod accept;
pub mod buffer;
pub mod call;
pub mod driver;
pub mod error;
pub mod flags;
pub mod frame;
pub mod registry;

pub use accept::CallKind;
pub use accept::IncomingCall;
pub use accept::Responder;
pub use call::send_bifrost_call;
pub use driver::DriverStep;
pub use error::BifrostError;
pub use flags::BifrostCallFlags;
pub use frame::BifrostCall;
pub use frame::FrameHead;
pub use frame::StreamId;
pub use registry::CallRegistry;
pub use registry::ResponseHandle;
