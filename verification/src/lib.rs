//! Verified core of a Touch ID / device-owner authentication binding.
//!
//! The native authentication subsystem works asynchronously and reports the
//! end of an evaluation through one fixed-signature callback. This crate holds
//! the logic around that subsystem: the tables of ABI integers, the encoding of
//! strings for the native side, the completion bridge that carries one
//! evaluation's outcome from the callback to the waiting caller, and the life
//! cycle of an authentication context. Every function is proved against its
//! contract; the calls into the native subsystem themselves are made by the
//! embedding program.

pub mod bridge;
pub mod context;
pub mod encoding;
pub mod error;
pub mod policy;
pub mod protocol;
pub mod registry;
pub mod shared;

pub use bridge::{CompletionBridge, Delivery, Polled};
pub use context::{ContextError, EvaluateError, EvaluateRequest, LAContext};
pub use encoding::EncodingError;
pub use error::LAError;
pub use policy::LAPolicy;
pub use registry::BridgeRegistry;
pub use shared::SharedRegistry;
