//! How a stream message is handed to the channel of a consumer.
use vstd::prelude::*;

use crate::provider_host::StreamRelayMessage;
use tokio::sync::mpsc;

verus! {

/// The sending half of a bounded `tokio` channel.
#[verifier::external_type_specification]
#[verifier::external_body]
#[verifier::reject_recursive_types(T)]
pub struct ExSender<T>(tokio::sync::mpsc::Sender<T>);

/// A message and the consumer that it is for.
#[derive(Debug)]
pub struct Offer<'a> {
    pub consumer: &'a mpsc::Sender<StreamRelayMessage>,
    pub message: StreamRelayMessage,
}

/// Shows that the channel of a consumer took a message. Nothing but sending one gives it.
pub struct Receipt {
    consumer: Ghost<mpsc::Sender<StreamRelayMessage>>,
    message: Ghost<StreamRelayMessage>,
}

impl Receipt {
    /// The consumer whose channel took the message.
    pub closed spec fn consumer(&self) -> mpsc::Sender<StreamRelayMessage> {
        self.consumer@
    }

    /// The message that was taken.
    pub closed spec fn message(&self) -> StreamRelayMessage {
        self.message@
    }
}

/// Shows that the channel of a consumer did not take a message that was sent to it. Nothing
/// but sending one gives it.
pub struct Refusal {
    consumer: Ghost<mpsc::Sender<StreamRelayMessage>>,
    message: Ghost<StreamRelayMessage>,
    closed: Ghost<bool>,
}

impl Refusal {
    /// The consumer whose channel did not take the message.
    pub closed spec fn consumer(&self) -> mpsc::Sender<StreamRelayMessage> {
        self.consumer@
    }

    /// The message that was not taken.
    pub closed spec fn message(&self) -> StreamRelayMessage {
        self.message@
    }

    /// The consumer is gone; otherwise its channel has no room.
    pub closed spec fn closed(&self) -> bool {
        self.closed@
    }
}

/// What became of a message.
pub enum Delivery {
    /// No consumer is attached.
    NoConsumer,
    /// The consumer has it.
    Delivered(Receipt),
    /// The consumer's channel has no room.
    Full(Refusal),
    /// The consumer is gone.
    Closed(Refusal),
}

/// What became of a message that was offered to the consumer of its request, with the message
/// where the consumer does not have it.
pub enum SendOutcome {
    /// No consumer is attached.
    NoConsumer(StreamRelayMessage),
    /// The consumer has it.
    Delivered(Receipt),
    /// The consumer's channel has no room.
    Full(StreamRelayMessage, Refusal),
    /// The consumer is gone.
    Closed(StreamRelayMessage, Refusal),
}

/// What became of the message, without the message itself.
pub open spec fn delivery_of(outcome: SendOutcome) -> Delivery {
    match outcome {
        SendOutcome::NoConsumer(_) => Delivery::NoConsumer,
        SendOutcome::Delivered(receipt) => Delivery::Delivered(receipt),
        SendOutcome::Full(_, refusal) => Delivery::Full(refusal),
        SendOutcome::Closed(_, refusal) => Delivery::Closed(refusal),
    }
}

/// `delivery` is what can become of `message` where `consumer` is attached: this consumer has
/// this message, or did not take it when it was sent.
pub open spec fn delivers(
    delivery: Delivery,
    consumer: Option<mpsc::Sender<StreamRelayMessage>>,
    message: StreamRelayMessage,
) -> bool {
    match delivery {
        Delivery::NoConsumer => consumer is None,
        Delivery::Delivered(receipt) => consumer == Some(receipt.consumer())
            && receipt.message() == message,
        Delivery::Full(refusal) => consumer == Some(refusal.consumer()) && refusal.message()
            == message && !refusal.closed(),
        Delivery::Closed(refusal) => consumer == Some(refusal.consumer()) && refusal.message()
            == message && refusal.closed(),
    }
}

/// `outcome` is what can become of `message` where `consumer` is attached: the consumer has
/// it, or it is handed back.
pub open spec fn settles(
    outcome: SendOutcome,
    consumer: Option<mpsc::Sender<StreamRelayMessage>>,
    message: StreamRelayMessage,
) -> bool {
    &&& delivers(delivery_of(outcome), consumer, message)
    &&& match outcome {
        SendOutcome::NoConsumer(m) => m == message,
        SendOutcome::Delivered(_) => true,
        SendOutcome::Full(m, _) => m == message,
        SendOutcome::Closed(m, _) => m == message,
    }
}

/// Calls `Sender::try_send`, which sends without waiting. A message that is not sent comes
/// back unchanged, either because the channel is full or because its receiver is gone. A
/// receipt shows that this consumer took this message, and a refusal that it did not, and for
/// which of the two reasons. Which of the three happens depends on the receiving side.
#[verifier::external_body]
fn try_send(offer: Offer<'_>) -> (outcome: SendOutcome)
    ensures
        settles(outcome, Some(*offer.consumer), offer.message),
{
    let consumer = Ghost(*offer.consumer);
    let message = Ghost(offer.message);
    match offer.consumer.try_send(offer.message) {
        Ok(()) => SendOutcome::Delivered(Receipt { consumer, message }),
        Err(mpsc::error::TrySendError::Full(m)) => {
            SendOutcome::Full(m, Refusal { consumer, message, closed: Ghost(false) })
        },
        Err(mpsc::error::TrySendError::Closed(m)) => {
            SendOutcome::Closed(m, Refusal { consumer, message, closed: Ghost(true) })
        },
    }
}

impl<'a> Offer<'a> {
    /// Hands the message to the consumer, if its channel takes it.
    pub fn send(self) -> (outcome: SendOutcome)
        ensures
            settles(outcome, Some(*self.consumer), self.message),
    {
        try_send(self)
    }
}

/// What was delivered is that message, to that consumer; what was refused was offered to that
/// consumer; and where there is none nothing is claimed of any.
pub proof fn law_deliveries_are_of_the_message(
    outcome: SendOutcome,
    consumer: Option<mpsc::Sender<StreamRelayMessage>>,
    message: StreamRelayMessage,
)
    requires
        settles(outcome, consumer, message),
    ensures
        outcome is NoConsumer <==> consumer is None,
        outcome matches SendOutcome::Delivered(receipt) ==> delivery_of(outcome)
            == Delivery::Delivered(receipt) && consumer == Some(receipt.consumer())
            && receipt.message() == message,
        outcome matches SendOutcome::Full(back, refusal) ==> delivery_of(outcome)
            == Delivery::Full(refusal) && back == message && consumer == Some(refusal.consumer())
            && refusal.message() == message && !refusal.closed(),
        outcome matches SendOutcome::Closed(back, refusal) ==> delivery_of(outcome)
            == Delivery::Closed(refusal) && back == message && consumer == Some(refusal.consumer())
            && refusal.message() == message && refusal.closed(),
        outcome matches SendOutcome::NoConsumer(back) ==> delivery_of(outcome)
            == Delivery::NoConsumer && back == message,
{
}

} // verus!
