//! The mailbox subsystem's error taxonomy.  Expected runtime conditions
//! (a lock timeout, an absent registry entry) are reported through
//! explicit failure results: every delivery that failed during one
//! outbox flush is captured, with full context for replay by the caller,
//! inside one aggregated send failure.

use vstd::prelude::*;

verus! {

/// One (sender, recipient, message) triple that failed to deliver
/// during a flush; it carries everything the caller needs to re-queue
/// the message.
#[derive(Debug)]
pub struct AbortedMessage<M> {
    sender_id: usize,
    recipient_id: usize,
    message_contents: M,
}

impl<M> View for AbortedMessage<M> {
    type V = (usize, usize, M);

    closed spec fn view(&self) -> (usize, usize, M) {
        (self.sender_id, self.recipient_id, self.message_contents)
    }
}

impl<M> AbortedMessage<M> {
    pub fn new(sender_id: usize, recipient_id: usize, message_contents: M) -> (r: Self)
        ensures
            r@ == (sender_id, recipient_id, message_contents),
    {
        AbortedMessage { sender_id, recipient_id, message_contents }
    }

    pub fn sender_id(&self) -> (r: usize)
        ensures
            r == self@.0,
    {
        self.sender_id
    }

    pub fn recipient_id(&self) -> (r: usize)
        ensures
            r == self@.1,
    {
        self.recipient_id
    }

    pub fn message_contents(&self) -> (r: &M)
        ensures
            *r == self@.2,
    {
        &self.message_contents
    }
}

/// The kinds of failure one flush can report.
#[derive(Debug)]
pub enum MessageErrorKind<M> {
    AbortedMessages(Vec<AbortedMessage<M>>),
}

/// The representation behind the error value.
#[derive(Debug)]
enum ErrorRepr<M> {
    Simple(MessageErrorKind<M>),
}

/// The sole error value of an outbox flush: a collection of one or more
/// aborted deliveries.  A flush with nothing aborted reports plain
/// success instead of an empty error.
#[derive(Debug)]
pub struct MessageError<M> {
    error_repr: ErrorRepr<M>,
}

impl<M> MessageError<M> {
    /// The aborted deliveries this error aggregates.
    pub closed spec fn aborted_list(&self) -> Seq<AbortedMessage<M>> {
        match self.error_repr {
            ErrorRepr::Simple(MessageErrorKind::AbortedMessages(v)) => v@,
        }
    }

    /// The aborted deliveries, as (sender, recipient, message) triples.
    pub open spec fn aborted(&self) -> Seq<(usize, usize, M)> {
        self.aborted_list().map_values(|a: AbortedMessage<M>| a@)
    }

    /// The aborted deliveries, for the caller's retry, drop, or
    /// escalation policy.
    pub fn aborted_messages(&self) -> (r: &Vec<AbortedMessage<M>>)
        ensures
            r@ == self.aborted_list(),
    {
        match &self.error_repr {
            ErrorRepr::Simple(MessageErrorKind::AbortedMessages(v)) => v,
        }
    }
}

impl<M> From<MessageErrorKind<M>> for MessageError<M> {
    fn from(error_kind: MessageErrorKind<M>) -> (r: Self)
        ensures
            (match error_kind {
                MessageErrorKind::AbortedMessages(v) => r.aborted_list() == v@,
            }),
    {
        MessageError { error_repr: ErrorRepr::Simple(error_kind) }
    }
}

impl<M> vstd::std_specs::convert::FromSpecImpl<MessageErrorKind<M>> for MessageError<M> {
    open spec fn obeys_from_spec() -> bool {
        true
    }

    closed spec fn from_spec(error_kind: MessageErrorKind<M>) -> Self {
        MessageError { error_repr: ErrorRepr::Simple(error_kind) }
    }
}

} // verus!
