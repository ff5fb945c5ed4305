//! What a queue consumer does with what it receives, and how long a
//! publisher waits for its confirmation.

use vstd::prelude::*;

verus! {

/// What the consumer's channel handed out.
#[derive(Debug, Clone, Copy, PartialEq, Eq, Structural)]
pub enum Incoming {
    /// A message; `readable` says whether its body could be decoded.
    Delivery { readable: bool },
    /// Anything else: the consumer was cancelled or the channel closed.
    Other,
}

/// What the consumer does next.
#[derive(Debug, Clone, Copy, PartialEq, Eq, Structural)]
pub enum ConsumerStep {
    /// The message is dropped without acknowledgement; the consumer goes on.
    Skip,
    /// The message is handed to the actor and acknowledged; the consumer
    /// goes on.
    Forward,
    /// The consumer ends.
    Stop,
}

/// What the consumer does with what it received.
pub fn consumer_step(incoming: Incoming) -> (step: ConsumerStep)
    ensures
        step == match incoming {
            Incoming::Delivery { readable: true } => ConsumerStep::Forward,
            Incoming::Delivery { readable: false } => ConsumerStep::Skip,
            Incoming::Other => ConsumerStep::Stop,
        },
{
    match incoming {
        Incoming::Delivery { readable } => {
            if readable {
                ConsumerStep::Forward
            } else {
                ConsumerStep::Skip
            }
        },
        Incoming::Other => ConsumerStep::Stop,
    }
}

/// Whether a publisher still waits: it waits until one confirmation has
/// come.
pub fn awaits_confirmation(confirmed: usize) -> (waits: bool)
    ensures
        waits == (confirmed == 0),
{
    confirmed == 0
}

} // verus!
