//! The life of one message, from sealing to opening.
//!
//! The library seals and opens; handing an envelope over and delivering it
//! are the transport's part. This module only says which step may follow
//! which, so that a caller who drives the transport can track a message.

use vstd::prelude::*;
use crate::envelope::EncryptedMessageInfo;
use crate::error::EciesError;

verus! {

/// Where a message stands.
#[derive(Clone, Copy, Debug, PartialEq, Eq, Structural)]
pub enum MessageState {
    /// Nothing has been sealed yet.
    Unsent,
    /// The send path has made the envelope.
    Assembled,
    /// The envelope is with the transport.
    InTransit,
    /// The envelope has reached the receiver.
    Received,
    /// The receive path has recovered the plaintext.
    Decrypted,
    /// A step has failed. The message is dropped.
    Rejected,
}

/// What happens to a message.
#[derive(Clone, Copy, Debug, PartialEq, Eq, Structural)]
pub enum MessageEvent {
    /// The send path succeeded.
    Sealed,
    /// The envelope was handed to the transport.
    HandedOver,
    /// The transport delivered the envelope.
    Delivered,
    /// The receive path succeeded.
    Opened,
    /// The step that was due has failed.
    Failed,
}

impl MessageState {
    /// `Decrypted` and `Rejected` end a message's life.
    pub open spec fn is_terminal(self) -> bool {
        self == MessageState::Decrypted || self == MessageState::Rejected
    }

    /// The state that follows, or `None` where the event is not the one that
    /// is due. Nothing follows a terminal state: there are no retries here.
    pub open spec fn next_spec(self, event: MessageEvent) -> Option<MessageState> {
        if self.is_terminal() {
            None
        } else if event == MessageEvent::Failed {
            Some(MessageState::Rejected)
        } else if self == MessageState::Unsent && event == MessageEvent::Sealed {
            Some(MessageState::Assembled)
        } else if self == MessageState::Assembled && event == MessageEvent::HandedOver {
            Some(MessageState::InTransit)
        } else if self == MessageState::InTransit && event == MessageEvent::Delivered {
            Some(MessageState::Received)
        } else if self == MessageState::Received && event == MessageEvent::Opened {
            Some(MessageState::Decrypted)
        } else {
            None
        }
    }

    /// Takes one step.
    pub fn next(self, event: MessageEvent) -> (r: Option<MessageState>)
        ensures
            r == self.next_spec(event),
    {
        match (self, event) {
            (MessageState::Decrypted, _) => None,
            (MessageState::Rejected, _) => None,
            (_, MessageEvent::Failed) => Some(MessageState::Rejected),
            (MessageState::Unsent, MessageEvent::Sealed) => Some(MessageState::Assembled),
            (MessageState::Assembled, MessageEvent::HandedOver) => Some(MessageState::InTransit),
            (MessageState::InTransit, MessageEvent::Delivered) => Some(MessageState::Received),
            (MessageState::Received, MessageEvent::Opened) => Some(MessageState::Decrypted),
            _ => None,
        }
    }
}

/// The event that the outcome of the send path stands for.
pub fn send_outcome(outcome: &Result<EncryptedMessageInfo, EciesError>) -> (r: MessageEvent)
    ensures
        r == (if outcome is Ok {
            MessageEvent::Sealed
        } else {
            MessageEvent::Failed
        }),
{
    match outcome {
        Ok(_) => MessageEvent::Sealed,
        Err(_) => MessageEvent::Failed,
    }
}

/// The event that the outcome of a receive path stands for.
pub fn receive_outcome(outcome: &Result<Vec<u8>, EciesError>) -> (r: MessageEvent)
    ensures
        r == (if outcome is Ok {
            MessageEvent::Opened
        } else {
            MessageEvent::Failed
        }),
{
    match outcome {
        Ok(_) => MessageEvent::Opened,
        Err(_) => MessageEvent::Failed,
    }
}

/// Terminal states are final: no event leads out of them.
pub proof fn lemma_terminal_states_are_final(state: MessageState, event: MessageEvent)
    requires
        state.is_terminal(),
    ensures
        state.next_spec(event) is None,
{
}

/// Any failure rejects the message, wherever it stands, and a message is
/// rejected by nothing else.
pub proof fn lemma_rejected_on_failure_only(state: MessageState, event: MessageEvent)
    requires
        !state.is_terminal(),
    ensures
        state.next_spec(event) == Some(MessageState::Rejected) <==> event == MessageEvent::Failed,
{
}

/// The one path to `Decrypted`: sealed, handed over, delivered, opened.
pub proof fn lemma_path_to_decrypted(state: MessageState, event: MessageEvent)
    ensures
        state.next_spec(event) == Some(MessageState::Decrypted) <==> state == MessageState::Received
            && event == MessageEvent::Opened,
        state.next_spec(event) == Some(MessageState::Received) <==> state == MessageState::InTransit
            && event == MessageEvent::Delivered,
        state.next_spec(event) == Some(MessageState::InTransit) <==> state
            == MessageState::Assembled && event == MessageEvent::HandedOver,
        state.next_spec(event) == Some(MessageState::Assembled) <==> state == MessageState::Unsent
            && event == MessageEvent::Sealed,
        state.next_spec(event) != Some(MessageState::Unsent),
{
}

} // verus!
