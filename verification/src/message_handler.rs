//! Message conversion for the single-loop handler, and where its outbound
//! processing starts.

use vstd::prelude::*;

verus! {

/// A trait for converting between wire format (string) messages and application types.
///
/// # Type Parameters
/// * `I` - The type of incoming messages after conversion
/// * `O` - The type of outgoing messages before conversion
pub trait MessageConverter<I, O>: Send + Sync {
    /// Converts an incoming string message to the application type.
    ///
    /// * `Ok(Some(I))` - Successfully converted message
    /// * `Ok(None)` - Message should be ignored
    /// * `Err` - Conversion failed
    fn inbound_from_string(&self, message: String) -> Result<Option<I>, anyhow::Error>;

    /// Converts an outgoing application message to a string.
    fn outbound_to_string(&self, message: O) -> Result<String, anyhow::Error>;
}

/// Whether an outbound message tagged with `middleware_index` runs through
/// the middleware chain before it is converted: a message tagged 0 is
/// converted and sent as it is.
pub fn outbound_runs_middleware(middleware_index: usize) -> (run: bool)
    ensures
        run == (middleware_index > 0),
{
    middleware_index > 0
}

} // verus!
