//! The interface through which a supervisor asks a component to shut down.
use vstd::prelude::*;
use std::sync::Arc;
use crate::signal::CompletionReceiver;

verus! {

/// A long-lived component that can be asked to stop gracefully.
pub trait Service: Send + Sync + 'static {
    /// A short name for messages.
    fn name(&self) -> &str;

    /// Starts a graceful shutdown and returns the consumer on which its
    /// outcome arrives, if the component offers one.
    fn graceful_shutdown(self: Arc<Self>) -> Option<CompletionReceiver>;
}

} // verus!
