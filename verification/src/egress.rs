//! The outbound side of one connection: producers put messages and control
//! signals into a queue, and the connection's single writer takes them out.
//!
//! Application messages wait in a bounded queue and leave in the order in
//! which they came. Control signals wait in a queue of their own, which is
//! not bounded, and leave before any waiting application message. A stream
//! closes when it is told to or when a control signal leaves it; a closed
//! stream takes nothing in, and hands out what it still holds.

use vstd::prelude::*;
use std::collections::VecDeque;
use crate::envelope::{ConnectionControl, Message, Signal};

verus! {

/// What a producer hands to the stream.
#[derive(Debug)]
pub enum EgressMessage {
    /// An application message.
    Message(Message),
    /// A signal that ends the connection.
    ConnectionControl(ConnectionControl),
}

/// Why a stream was closed.
#[derive(Clone, Copy, Debug, PartialEq, Eq, Structural, Hash)]
pub enum CloseReason {
    /// The connection drains: what is in flight may finish.
    ConnectionDrain,
    /// This node shuts down.
    Shutdown,
    /// Bytes could not be decoded; the connection is not to be trusted.
    CodecError,
    /// The transport below the connection failed.
    TransportError,
}

/// Why the stream did not take a message.
#[derive(Clone, Copy, Debug, PartialEq, Eq, Structural, Hash)]
pub enum SendError {
    /// The stream is closed.
    Closed,
    /// The queue of application messages is full.
    Full,
    /// The control signal names no known signal.
    UnknownSignal,
}

/// The reason for which a stream closes when `signal` leaves it.
pub open spec fn reason_of(signal: Signal) -> Option<CloseReason> {
    match signal {
        Signal::DrainConnection => Some(CloseReason::ConnectionDrain),
        Signal::Shutdown => Some(CloseReason::Shutdown),
        Signal::CodecError => Some(CloseReason::CodecError),
        Signal::Unknown => None,
    }
}

/// The state of a stream as contracts speak of it.
pub ghost struct EgressState {
    /// The application messages that wait, the oldest first.
    pub messages: Seq<Message>,
    /// The control signals that wait, the oldest first.
    pub signals: Seq<ConnectionControl>,
    /// How many application messages may wait at once.
    pub capacity: nat,
    /// Why the stream was closed, once it is.
    pub close_reason: Option<CloseReason>,
}

impl EgressState {
    pub open spec fn is_closed(self) -> bool {
        self.close_reason is Some
    }

    /// What the stream answers to a producer that offers `message`.
    pub open spec fn send_result(self, message: EgressMessage) -> Result<(), SendError> {
        if self.is_closed() {
            Err(SendError::Closed)
        } else {
            match message {
                EgressMessage::Message(_) => if self.messages.len() >= self.capacity {
                    Err(SendError::Full)
                } else {
                    Ok(())
                },
                EgressMessage::ConnectionControl(control) => if reason_of(control.signal) is None {
                    Err(SendError::UnknownSignal)
                } else {
                    Ok(())
                },
            }
        }
    }

    /// The state after a producer offered `message`: the message waits at the
    /// end of its queue if it was taken, and nothing changed if it was not.
    pub open spec fn after_send(self, message: EgressMessage) -> EgressState {
        if self.send_result(message) is Err {
            self
        } else {
            match message {
                EgressMessage::Message(m) => EgressState {
                    messages: self.messages.push(m),
                    ..self
                },
                EgressMessage::ConnectionControl(c) => EgressState {
                    signals: self.signals.push(c),
                    ..self
                },
            }
        }
    }

    /// What the writer takes out next: the oldest control signal if one
    /// waits, else the oldest application message, else nothing.
    pub open spec fn next_item(self) -> Option<EgressMessage> {
        if self.signals.len() > 0 {
            Some(EgressMessage::ConnectionControl(self.signals[0]))
        } else if self.messages.len() > 0 {
            Some(EgressMessage::Message(self.messages[0]))
        } else {
            None
        }
    }

    /// The state after the writer took out the next item. A control signal
    /// that leaves closes the stream, unless it is closed already.
    pub open spec fn after_next(self) -> EgressState {
        if self.signals.len() > 0 {
            EgressState {
                signals: self.signals.subrange(1, self.signals.len() as int),
                close_reason: if self.is_closed() {
                    self.close_reason
                } else {
                    reason_of(self.signals[0].signal)
                },
                ..self
            }
        } else if self.messages.len() > 0 {
            EgressState { messages: self.messages.subrange(1, self.messages.len() as int), ..self }
        } else {
            self
        }
    }

    /// The state after the stream was told to close for `reason`: the first
    /// reason stays.
    pub open spec fn after_close(self, reason: CloseReason) -> EgressState {
        if self.is_closed() {
            self
        } else {
            EgressState { close_reason: Some(reason), ..self }
        }
    }

    /// The state after a producer offered each of `messages` in turn.
    pub open spec fn after_sending(self, messages: Seq<EgressMessage>) -> EgressState
        decreases messages.len(),
    {
        if messages.len() == 0 {
            self
        } else {
            self.after_sending(messages.drop_last()).after_send(messages.last())
        }
    }

    /// What the writer sees when it takes out `count` items, in order.
    pub open spec fn drained(self, count: nat) -> Seq<Option<EgressMessage>>
        decreases count,
    {
        if count == 0 {
            Seq::empty()
        } else {
            seq![self.next_item()] + self.after_next().drained((count - 1) as nat)
        }
    }
}

/// The application messages of `messages`, each as a producer offers it.
pub open spec fn as_offers(messages: Seq<Message>) -> Seq<EgressMessage> {
    messages.map_values(|m: Message| EgressMessage::Message(m))
}

/// The application messages of `messages`, each as the writer sees it.
pub open spec fn as_items(messages: Seq<Message>) -> Seq<Option<EgressMessage>> {
    messages.map_values(|m: Message| Some(EgressMessage::Message(m)))
}

/// The outbound queue of one connection.
pub struct EgressStream {
    messages: VecDeque<Message>,
    signals: VecDeque<ConnectionControl>,
    capacity: usize,
    close_reason: Option<CloseReason>,
}

impl View for EgressStream {
    type V = EgressState;

    closed spec fn view(&self) -> EgressState {
        EgressState {
            messages: self.messages@,
            signals: self.signals@,
            capacity: self.capacity as nat,
            close_reason: self.close_reason,
        }
    }
}

/// The reason for which a stream closes when `signal` leaves it.
pub fn close_reason_of(signal: Signal) -> (reason: Option<CloseReason>)
    ensures
        reason == reason_of(signal),
{
    match signal {
        Signal::DrainConnection => Some(CloseReason::ConnectionDrain),
        Signal::Shutdown => Some(CloseReason::Shutdown),
        Signal::CodecError => Some(CloseReason::CodecError),
        Signal::Unknown => None,
    }
}

impl EgressStream {
    /// An open stream in which nothing waits and at most `capacity`
    /// application messages may wait.
    pub fn new(capacity: usize) -> (stream: Self)
        ensures
            stream@.messages == Seq::<Message>::empty(),
            stream@.signals == Seq::<ConnectionControl>::empty(),
            stream@.capacity == capacity,
            stream@.close_reason is None,
    {
        EgressStream {
            messages: VecDeque::new(),
            signals: VecDeque::new(),
            capacity,
            close_reason: None,
        }
    }

    /// Offers `message` to the stream. A closed stream takes nothing. An
    /// application message is taken while fewer than `capacity` wait; a
    /// control signal is taken whatever waits, unless its signal is unknown.
    /// Nothing changes where the message is not taken.
    pub fn send(&mut self, message: EgressMessage) -> (taken: Result<(), SendError>)
        ensures
            taken == old(self)@.send_result(message),
            final(self)@ == old(self)@.after_send(message),
    {
        if self.close_reason.is_some() {
            return Err(SendError::Closed);
        }
        match message {
            EgressMessage::Message(m) => {
                if self.messages.len() >= self.capacity {
                    Err(SendError::Full)
                } else {
                    self.messages.push_back(m);
                    Ok(())
                }
            },
            EgressMessage::ConnectionControl(c) => {
                if close_reason_of(c.signal).is_none() {
                    Err(SendError::UnknownSignal)
                } else {
                    self.signals.push_back(c);
                    Ok(())
                }
            },
        }
    }

    /// Takes out what the writer is to write next: the oldest control signal
    /// if one waits, else the oldest application message. A control signal
    /// that is taken out closes the stream.
    pub fn next(&mut self) -> (item: Option<EgressMessage>)
        ensures
            item == old(self)@.next_item(),
            final(self)@ == old(self)@.after_next(),
    {
        if self.signals.len() > 0 {
            match self.signals.pop_front() {
                Some(control) => {
                    if self.close_reason.is_none() {
                        self.close_reason = close_reason_of(control.signal);
                    }
                    Some(EgressMessage::ConnectionControl(control))
                },
                None => None,
            }
        } else if self.messages.len() > 0 {
            match self.messages.pop_front() {
                Some(message) => Some(EgressMessage::Message(message)),
                None => None,
            }
        } else {
            None
        }
    }

    /// Closes the stream for `reason`. On a closed stream this changes
    /// nothing. Says whether this call closed the stream.
    pub fn close(&mut self, reason: CloseReason) -> (closed_now: bool)
        ensures
            closed_now == !old(self)@.is_closed(),
            final(self)@ == old(self)@.after_close(reason),
    {
        if self.close_reason.is_some() {
            false
        } else {
            self.close_reason = Some(reason);
            true
        }
    }

    /// Whether the stream is closed.
    pub fn is_closed(&self) -> (closed: bool)
        ensures
            closed == self@.is_closed(),
    {
        self.close_reason.is_some()
    }

    /// Why the stream was closed, once it is.
    pub fn close_reason(&self) -> (reason: Option<CloseReason>)
        ensures
            reason == self@.close_reason,
    {
        self.close_reason
    }

    /// How many application messages wait.
    pub fn pending_messages(&self) -> (count: usize)
        ensures
            count == self@.messages.len(),
    {
        self.messages.len()
    }

    /// How many control signals wait.
    pub fn pending_signals(&self) -> (count: usize)
        ensures
            count == self@.signals.len(),
    {
        self.signals.len()
    }

    /// How many application messages may wait at once.
    pub fn capacity(&self) -> (capacity: usize)
        ensures
            capacity == self@.capacity,
    {
        self.capacity
    }
}


/// Closing a closed stream changes nothing: the first reason stays, and the
/// stream stays closed.
pub proof fn lemma_close_is_idempotent(state: EgressState, first: CloseReason, second: CloseReason)
    ensures
        state.after_close(first).is_closed(),
        state.after_close(first).after_close(second) == state.after_close(first),
        !state.is_closed() ==> state.after_close(first).close_reason == Some(first),
{
}

/// A closed stream takes nothing: every offer is answered with `Closed` and
/// leaves the stream as it was.
pub proof fn lemma_closed_stream_takes_nothing(state: EgressState, message: EgressMessage)
    requires
        state.is_closed(),
    ensures
        state.send_result(message) == Err::<(), SendError>(SendError::Closed),
        state.after_send(message) == state,
{
}

/// A closed stream never opens again, whatever is done to it.
pub proof fn lemma_closed_stays_closed(
    state: EgressState,
    message: EgressMessage,
    reason: CloseReason,
)
    requires
        state.is_closed(),
    ensures
        state.after_send(message).close_reason == state.close_reason,
        state.after_next().close_reason == state.close_reason,
        state.after_close(reason).close_reason == state.close_reason,
{
}

/// Offering application messages one after the other to an open stream with
/// room for them all appends them to the waiting ones, in the order of the
/// offers, and changes nothing else.
pub proof fn lemma_offers_are_appended(state: EgressState, messages: Seq<Message>)
    requires
        !state.is_closed(),
        state.messages.len() + messages.len() <= state.capacity,
    ensures
        state.after_sending(as_offers(messages)) == (EgressState {
            messages: state.messages + messages,
            ..state
        }),
    decreases messages.len(),
{
    let offers = as_offers(messages);
    if messages.len() == 0 {
        assert(state.messages + messages =~= state.messages);
    } else {
        let earlier = messages.drop_last();
        lemma_offers_are_appended(state, earlier);
        assert(offers.drop_last() =~= as_offers(earlier));
        assert(offers.last() == EgressMessage::Message(messages.last()));
        assert((state.messages + earlier).push(messages.last()) =~= state.messages + messages);
    }
}

/// A stream in which no control signal waits hands out its application
/// messages in the order in which they wait.
pub proof fn lemma_drain_follows_the_queue(state: EgressState)
    requires
        state.signals.len() == 0,
    ensures
        state.drained(state.messages.len()) == as_items(state.messages),
    decreases state.messages.len(),
{
    if state.messages.len() == 0 {
        assert(state.drained(0) =~= as_items(state.messages));
    } else {
        let rest = state.after_next();
        lemma_drain_follows_the_queue(rest);
        assert(seq![state.next_item()] + as_items(rest.messages) =~= as_items(state.messages));
    }
}

/// Application messages leave in the order in which they came: after an open
/// stream without waiting signals took `messages`, the writer sees what
/// waited before and then `messages`, each in its place.
pub proof fn lemma_messages_leave_in_order(state: EgressState, messages: Seq<Message>)
    requires
        !state.is_closed(),
        state.signals.len() == 0,
        state.messages.len() + messages.len() <= state.capacity,
    ensures
        state.after_sending(as_offers(messages)).drained(state.messages.len() + messages.len())
            == as_items(state.messages + messages),
{
    lemma_offers_are_appended(state, messages);
    lemma_drain_follows_the_queue(state.after_sending(as_offers(messages)));
}

/// Offers of application messages, taken or not, leave the waiting signals
/// and the open stream as they are.
pub proof fn lemma_offers_leave_signals(state: EgressState, messages: Seq<Message>)
    ensures
        state.after_sending(as_offers(messages)).signals == state.signals,
        state.after_sending(as_offers(messages)).close_reason == state.close_reason,
        state.after_sending(as_offers(messages)).capacity == state.capacity,
    decreases messages.len(),
{
    if messages.len() > 0 {
        let earlier = messages.drop_last();
        lemma_offers_leave_signals(state, earlier);
        assert(as_offers(messages).drop_last() =~= as_offers(earlier));
        assert(as_offers(messages).last() == EgressMessage::Message(messages.last()));
    }
}

/// The first items that the writer takes out are the waiting control
/// signals, in the order in which they wait.
pub proof fn lemma_signals_leave_first(state: EgressState, k: int)
    requires
        0 <= k < state.signals.len(),
    ensures
        state.drained(state.signals.len())[k] == Some(
            EgressMessage::ConnectionControl(state.signals[k]),
        ),
        state.drained(state.signals.len()).len() == state.signals.len(),
    decreases state.signals.len(),
{
    lemma_drained_len(state, state.signals.len());
    if k > 0 {
        let rest = state.after_next();
        lemma_signals_leave_first(rest, k - 1);
    }
}

/// The writer sees as many items as it asks for, a missing one counted.
pub proof fn lemma_drained_len(state: EgressState, count: nat)
    ensures
        state.drained(count).len() == count,
    decreases count,
{
    if count > 0 {
        lemma_drained_len(state.after_next(), (count - 1) as nat);
    }
}

/// A control signal overtakes the application messages: offered to an open
/// stream after any number of application messages, it waits behind the
/// signals that waited before and before every application message. Where
/// no signal waited, it is the very next item that the writer takes out.
pub proof fn lemma_signal_overtakes_messages(
    state: EgressState,
    messages: Seq<Message>,
    control: ConnectionControl,
)
    requires
        !state.is_closed(),
        reason_of(control.signal) is Some,
    ensures
        ({
            let offered = state.after_sending(as_offers(messages)).after_send(
                EgressMessage::ConnectionControl(control),
            );
            &&& offered.signals == state.signals.push(control)
            &&& offered.drained(offered.signals.len())[state.signals.len() as int] == Some(
                EgressMessage::ConnectionControl(control),
            )
            &&& forall|k: int|
                0 <= k < offered.signals.len() ==> #[trigger] offered.drained(
                    offered.signals.len(),
                )[k] == Some(EgressMessage::ConnectionControl(offered.signals[k]))
            &&& state.signals.len() == 0 ==> offered.next_item() == Some(
                EgressMessage::ConnectionControl(control),
            )
        }),
{
    lemma_offers_leave_signals(state, messages);
    let offered = state.after_sending(as_offers(messages)).after_send(
        EgressMessage::ConnectionControl(control),
    );
    assert forall|k: int| 0 <= k < offered.signals.len() implies #[trigger] offered.drained(
        offered.signals.len(),
    )[k] == Some(EgressMessage::ConnectionControl(offered.signals[k])) by {
        lemma_signals_leave_first(offered, k);
    }
    lemma_signals_leave_first(offered, state.signals.len() as int);
}

} // verus!
