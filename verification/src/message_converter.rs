//! Conversion between the wire format (bytes) and application types.

use vstd::prelude::*;

verus! {

/// A trait for converting between wire format and application types.
///
/// Since this library only supports text WebSocket messages, outbound messages
/// are converted directly to strings.
///
/// # Type Parameters
/// * `I` - The type of incoming messages after conversion
/// * `O` - The type of outgoing messages before conversion
pub trait MessageConverter<I, O>: Send + Sync {
    /// Converts an incoming byte slice message to the application type.
    ///
    /// * `Ok(Some(I))` - Successfully converted message
    /// * `Ok(None)` - Message should be ignored (empty, ping, etc.)
    /// * `Err` - Conversion failed
    fn inbound_from_bytes(&self, bytes: &[u8]) -> Result<Option<I>, anyhow::Error>;

    /// Converts an outgoing application message to a string for text WebSocket messages.
    fn outbound_to_string(&self, message: O) -> Result<String, anyhow::Error>;
}

} // verus!
