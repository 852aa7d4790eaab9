//! The messages that the runtime exchanges with a service while it runs an
//! invocation, and how the runtime's own records turn into them.

use vstd::prelude::*;
use vstd::std_specs::convert::FromSpecImpl;

verus! {

/// One entry of the state that a `Start` message carries.
#[derive(Debug, PartialEq, Eq)]
pub struct StateEntry {
    pub key: Vec<u8>,
    pub value: Vec<u8>,
}

/// The opening message of an invocation.
#[derive(Debug, PartialEq, Eq)]
pub struct StartMessage {
    pub invocation_id: Vec<u8>,
    pub instance_key: Vec<u8>,
    pub known_entries: u32,
    pub state_map: Vec<StateEntry>,
}

/// A failure as the protocol writes it.
#[derive(Debug, PartialEq, Eq)]
pub struct Failure {
    pub code: u32,
    pub message: String,
}

/// What a completion carries, where it carries anything.
#[derive(Debug, PartialEq, Eq)]
pub enum CompletionMessageResult {
    Empty,
    Value(Vec<u8>),
    Failure(Failure),
}

/// Tells the service that a journal entry was completed.
#[derive(Debug, PartialEq, Eq)]
pub struct CompletionMessage {
    pub entry_index: u32,
    pub result: Option<CompletionMessageResult>,
}

/// Tells the runtime that the service waits for the given entries.
#[derive(Debug, PartialEq, Eq)]
pub struct SuspensionMessage {
    pub entry_indexes: Vec<u32>,
}

/// Tells the runtime that the service failed.
#[derive(Debug, PartialEq, Eq)]
pub struct ErrorMessage {
    pub code: u32,
    pub message: String,
    pub description: String,
}

/// A journal entry that was not parsed: its type and its bytes.
#[derive(Debug, PartialEq, Eq)]
pub struct PlainRawEntry {
    pub entry_type: u16,
    pub entry: Vec<u8>,
}

/// The outcome of a journal entry as the runtime records it.
#[derive(Debug, PartialEq, Eq)]
pub enum CompletionResult {
    Ack,
    Empty,
    Success(Vec<u8>),
    Failure(u32, String),
}

/// A completed journal entry as the runtime records it.
#[derive(Debug, PartialEq, Eq)]
pub struct Completion {
    pub entry_index: u32,
    pub result: CompletionResult,
}

/// The failure of an invocation as the runtime reports it.
#[derive(Debug, PartialEq, Eq)]
pub struct InvocationError {
    pub code: u32,
    pub message: String,
    pub description: Option<String>,
}

impl InvocationError {
    pub fn new(code: u32, message: String) -> (error: Self)
        ensures
            error.code == code,
            error.message == message,
            error.description is None,
    {
        InvocationError { code, message, description: None }
    }

    pub fn new_with_description(code: u32, message: String, description: String) -> (error: Self)
        ensures
            error.code == code,
            error.message == message,
            error.description == Some(description),
    {
        InvocationError { code, message, description: Some(description) }
    }
}

/// A message of the service protocol.
#[derive(Debug, PartialEq, Eq)]
pub enum ProtocolMessage {
    Start { partial_state: bool, inner: StartMessage },
    Completion(CompletionMessage),
    Suspension(SuspensionMessage),
    Error(ErrorMessage),
    /// Entries are not parsed at this point.
    UnparsedEntry(PlainRawEntry),
}

/// Whether `state_map` holds the entries of `entries`, key and value, each in
/// its place.
pub open spec fn holds_entries(
    state_map: Seq<StateEntry>,
    entries: Seq<(Vec<u8>, Vec<u8>)>,
) -> bool {
    &&& state_map.len() == entries.len()
    &&& forall|i: int|
        0 <= i < entries.len() ==> (#[trigger] state_map[i]).key@ == entries[i].0@ && state_map[i].value@
            == entries[i].1@
}

/// The completion message that stands for a recorded completion: an
/// acknowledgement carries nothing, every other outcome carries itself.
pub open spec fn completion_message(completion: Completion) -> CompletionMessage {
    CompletionMessage {
        entry_index: completion.entry_index,
        result: match completion.result {
            CompletionResult::Ack => None,
            CompletionResult::Empty => Some(CompletionMessageResult::Empty),
            CompletionResult::Success(value) => Some(CompletionMessageResult::Value(value)),
            CompletionResult::Failure(code, message) => Some(
                CompletionMessageResult::Failure(Failure { code, message }),
            ),
        },
    }
}

/// The error that the runtime reports for an error message: the description
/// is kept where the message has one.
pub open spec fn invocation_error(message: ErrorMessage) -> InvocationError {
    if message.description@.len() == 0 {
        InvocationError { code: message.code, message: message.message, description: None }
    } else {
        InvocationError {
            code: message.code,
            message: message.message,
            description: Some(message.description),
        }
    }
}

impl ProtocolMessage {
    /// The `Start` message of an invocation, with the entries of its state
    /// in the order given.
    pub fn new_start_message(
        invocation_id: Vec<u8>,
        instance_key: Vec<u8>,
        known_entries: u32,
        partial_state: bool,
        state_map_entries: Vec<(Vec<u8>, Vec<u8>)>,
    ) -> (message: Self)
        ensures
            message matches ProtocolMessage::Start { partial_state: partial, inner } && {
                &&& partial == partial_state
                &&& inner.invocation_id == invocation_id
                &&& inner.instance_key == instance_key
                &&& inner.known_entries == known_entries
                &&& holds_entries(inner.state_map@, state_map_entries@)
            },
    {
        let mut state_map: Vec<StateEntry> = Vec::new();
        let mut i: usize = 0;
        while i < state_map_entries.len()
            invariant
                i <= state_map_entries.len(),
                state_map@.len() == i,
                forall|j: int|
                    0 <= j < i ==> (#[trigger] state_map@[j]).key@ == state_map_entries@[j].0@
                        && state_map@[j].value@ == state_map_entries@[j].1@,
            decreases state_map_entries.len() - i,
        {
            let key = state_map_entries[i].0.clone();
            let value = state_map_entries[i].1.clone();
            assert(key@ =~= state_map_entries@[i as int].0@);
            assert(value@ =~= state_map_entries@[i as int].1@);
            state_map.push(StateEntry { key, value });
            i += 1;
        }
        ProtocolMessage::Start {
            partial_state,
            inner: StartMessage { invocation_id, instance_key, known_entries, state_map },
        }
    }
}

impl From<Completion> for ProtocolMessage {
    fn from(completion: Completion) -> (message: ProtocolMessage) {
        ProtocolMessage::Completion(
            CompletionMessage {
                entry_index: completion.entry_index,
                result: match completion.result {
                    CompletionResult::Ack => None,
                    CompletionResult::Empty => Some(CompletionMessageResult::Empty),
                    CompletionResult::Success(value) => Some(CompletionMessageResult::Value(value)),
                    CompletionResult::Failure(code, message) => Some(
                        CompletionMessageResult::Failure(Failure { code, message }),
                    ),
                },
            },
        )
    }
}

impl FromSpecImpl<Completion> for ProtocolMessage {
    open spec fn obeys_from_spec() -> bool {
        true
    }

    open spec fn from_spec(completion: Completion) -> ProtocolMessage {
        ProtocolMessage::Completion(completion_message(completion))
    }
}

impl From<PlainRawEntry> for ProtocolMessage {
    fn from(value: PlainRawEntry) -> (message: ProtocolMessage) {
        ProtocolMessage::UnparsedEntry(value)
    }
}

impl FromSpecImpl<PlainRawEntry> for ProtocolMessage {
    open spec fn obeys_from_spec() -> bool {
        true
    }

    open spec fn from_spec(value: PlainRawEntry) -> ProtocolMessage {
        ProtocolMessage::UnparsedEntry(value)
    }
}

impl From<ErrorMessage> for InvocationError {
    fn from(value: ErrorMessage) -> (error: InvocationError) {
        if value.description.as_str().is_empty() {
            InvocationError::new(value.code, value.message)
        } else {
            InvocationError::new_with_description(value.code, value.message, value.description)
        }
    }
}

impl FromSpecImpl<ErrorMessage> for InvocationError {
    open spec fn obeys_from_spec() -> bool {
        true
    }

    open spec fn from_spec(value: ErrorMessage) -> InvocationError {
        invocation_error(value)
    }
}

} // verus!
