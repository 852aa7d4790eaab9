//! How messages turn into bytes and back under a negotiated protocol version.
//!
//! The first protocol version writes a message as a FlexBuffer. A message is
//! first laid out as a record of integers, strings, options and lists; the
//! `flexbuffers` crate turns the record into bytes. On the way back the bytes
//! are read into a record outside this library, and the record is checked
//! and turned into a message here.

use vstd::prelude::*;
use std::sync::Arc;
use crate::envelope::{
    BinaryMessage, Body, ConnectionControl, Header, Hello, Message, Signal, TargetName, Welcome,
};
use crate::identifiers::{GenerationalNodeId, PlainNodeId, Version};
use crate::span_context::{distinct_keys, has_distinct_keys, SpanContext};
use crate::version::ProtocolVersion;

verus! {

/// The error of the `flexbuffers` reader.
#[verifier::external_type_specification]
#[verifier::external_body]
pub struct ExDeserializationError(flexbuffers::DeserializationError);

/// Why bytes or a body could not be decoded.
#[derive(Debug)]
pub enum DecodeError {
    /// The body is not an encoded payload.
    NotBinaryMessage,
    /// The bytes are no FlexBuffer of the expected shape.
    FailedDecodingV1(flexbuffers::DeserializationError),
    /// The record holds no body, or more than one.
    MalformedBody,
    /// The trace context of the record repeats a key.
    DuplicateTraceKey,
}

impl DecodeError {
    /// The sentence that describes each error.
    pub open spec fn description(self) -> Seq<char> {
        match self {
            DecodeError::NotBinaryMessage =>
                "Cannot deserialize message, message is not of type BinaryMessage"@,
            DecodeError::FailedDecodingV1(_) =>
                "failed decoding V1 (flexbuffers) network message"@,
            DecodeError::MalformedBody => "message record must hold exactly one body"@,
            DecodeError::DuplicateTraceKey => "trace context repeats a key"@,
        }
    }

    /// A sentence for the logs.
    pub fn describe(&self) -> (text: String)
        ensures
            text@ == self.description(),
    {
        match self {
            DecodeError::NotBinaryMessage => {
                "Cannot deserialize message, message is not of type BinaryMessage".to_owned()
            },
            DecodeError::FailedDecodingV1(_) => {
                "failed decoding V1 (flexbuffers) network message".to_owned()
            },
            DecodeError::MalformedBody => "message record must hold exactly one body".to_owned(),
            DecodeError::DuplicateTraceKey => "trace context repeats a key".to_owned(),
        }
    }
}

/// A message kind that the dispatch layer can route: it names its target,
/// fixed for the type, and says what kind of message it is.
pub trait Targeted {
    const TARGET: TargetName;

    fn target(&self) -> (target: TargetName)
        ensures
            target == Self::TARGET,
    {
        Self::TARGET
    }

    /// The name of this kind of message, for the logs.
    fn kind(&self) -> &'static str;
}

impl<T: Targeted> Targeted for &T {
    const TARGET: TargetName = T::TARGET;

    fn kind(&self) -> (kind: &'static str)
        ensures
            call_ensures(T::kind, (*self,), kind),
    {
        (**self).kind()
    }
}

impl<T: Targeted> Targeted for &mut T {
    const TARGET: TargetName = T::TARGET;

    fn kind(&self) -> (kind: &'static str)
        ensures
            call_ensures(T::kind, (&*old(*self),), kind),
    {
        (**self).kind()
    }
}

impl<T: Targeted> Targeted for Box<T> {
    const TARGET: TargetName = T::TARGET;

    fn kind(&self) -> (kind: &'static str)
        ensures
            call_ensures(T::kind, (&**self,), kind),
    {
        (**self).kind()
    }
}

impl<T: Targeted> Targeted for Arc<T> {
    const TARGET: TargetName = T::TARGET;

    fn kind(&self) -> (kind: &'static str)
        ensures
            call_ensures(T::kind, (&**self,), kind),
    {
        (**self).kind()
    }
}

/// A value that can be written for the wire under a protocol version. The
/// unknown version is never handed to an encoder.
pub trait WireEncode: Sized {
    fn encode_to_vec(self, protocol_version: ProtocolVersion) -> (bytes: Vec<u8>)
        requires
            protocol_version.is_usable(),
    ;
}

/// A value that can be read from a buffer that holds one whole message under
/// a protocol version. The unknown version is never handed to a decoder.
pub trait WireDecode: Sized {
    fn decode(buf: &[u8], protocol_version: ProtocolVersion) -> (value: Result<Self, DecodeError>)
        requires
            protocol_version.is_usable(),
    ;
}

/// A boxed value is written as the value itself.
impl<T: WireEncode> WireEncode for Box<T> {
    fn encode_to_vec(self, protocol_version: ProtocolVersion) -> (bytes: Vec<u8>)
        ensures
            call_ensures(T::encode_to_vec, (*self, protocol_version), bytes),
    {
        (*self).encode_to_vec(protocol_version)
    }
}

/// A boxed value is read as the value itself, then boxed.
impl<T: WireDecode> WireDecode for Box<T> {
    fn decode(buf: &[u8], protocol_version: ProtocolVersion) -> (value: Result<Self, DecodeError>)
        ensures
            match value {
                Ok(boxed) => call_ensures(
                    T::decode,
                    (buf, protocol_version),
                    Ok::<T, DecodeError>(*boxed),
                ),
                Err(error) => call_ensures(
                    T::decode,
                    (buf, protocol_version),
                    Err::<T, DecodeError>(error),
                ),
            },
    {
        match T::decode(buf, protocol_version) {
            Ok(value) => Ok(Box::new(value)),
            Err(error) => Err(error),
        }
    }
}

/// A shared value is read as the value itself, then shared.
impl<T: WireDecode> WireDecode for Arc<T> {
    fn decode(buf: &[u8], protocol_version: ProtocolVersion) -> (value: Result<Self, DecodeError>)
        ensures
            match value {
                Ok(shared) => call_ensures(
                    T::decode,
                    (buf, protocol_version),
                    Ok::<T, DecodeError>(*shared),
                ),
                Err(error) => call_ensures(
                    T::decode,
                    (buf, protocol_version),
                    Err::<T, DecodeError>(error),
                ),
            },
    {
        match T::decode(buf, protocol_version) {
            Ok(value) => Ok(Arc::new(value)),
            Err(error) => Err(error),
        }
    }
}

/// A node identifier as a record: the stable number, then the generation.
pub type NodeIdRecord = (u32, u32);

/// A header as a record: the four metadata versions, the message id, the id
/// that the message answers, and the entries of the trace context.
pub type HeaderRecord = (
    Option<u32>,
    Option<u32>,
    Option<u32>,
    Option<u32>,
    u64,
    Option<u64>,
    Option<Vec<(String, String)>>,
);

/// A `Hello` as a record: lowest and highest version, sender, cluster name.
pub type HelloRecord = (i32, i32, NodeIdRecord, String);

/// A `Welcome` as a record: sender and version.
pub type WelcomeRecord = (NodeIdRecord, i32);

/// A control signal as a record: the signal's number and the message.
pub type ControlRecord = (i32, String);

/// An encoded payload as a record: the target's number and the bytes.
pub type BinaryRecord = (i32, Vec<u8>);

/// A body as a record: one place for each kind of body, of which exactly one
/// is filled.
pub type BodyRecord = (
    Option<HelloRecord>,
    Option<WelcomeRecord>,
    Option<ControlRecord>,
    Option<BinaryRecord>,
);

/// A message as a record: header, then body.
pub type MessageRecord = (HeaderRecord, BodyRecord);

/// The bytes that `flexbuffers::to_vec` writes for a message record.
pub uninterp spec fn flexbuffer_encoding(record: MessageRecord) -> Seq<u8>;

/// Calls `flexbuffers::to_vec` on a message record. The bytes depend on the
/// record alone. The call cannot fail here: the serializer of `flexbuffers`
/// reports an error only for a map key that is no string and for an error
/// raised by the value itself, and a record of integers, strings, options,
/// lists and tuples has no map and raises none.
#[verifier::external_body]
fn flexbuffers_to_vec(record: &MessageRecord) -> (bytes: Option<Vec<u8>>)
    ensures
        bytes is Some,
        bytes matches Some(written) ==> written@ == flexbuffer_encoding(*record),
{
    flexbuffers::to_vec(record).ok()
}

/// The record of a version, where there is one.
pub open spec fn version_number(version: Option<Version>) -> Option<u32> {
    match version {
        Some(v) => Some(v.0),
        None => None,
    }
}

/// The version of a record's number, where there is one.
pub open spec fn version_of(number: Option<u32>) -> Option<Version> {
    match number {
        Some(n) => Some(Version(n)),
        None => None,
    }
}

/// The record of a node identifier.
pub open spec fn node_record(node: GenerationalNodeId) -> NodeIdRecord {
    (node.id.0, node.generation)
}

/// The node identifier of a record.
pub open spec fn node_of(record: NodeIdRecord) -> GenerationalNodeId {
    GenerationalNodeId { id: PlainNodeId(record.0), generation: record.1 }
}

/// The record of a header.
pub open spec fn header_record(header: Header) -> HeaderRecord {
    (
        version_number(header.my_nodes_config_version),
        version_number(header.my_logs_version),
        version_number(header.my_schema_version),
        version_number(header.my_partition_table_version),
        header.msg_id,
        header.in_response_to,
        match header.span_context {
            Some(context) => Some(context.fields),
            None => None,
        },
    )
}

/// The header of a record, or the reason why the record stands for none.
pub open spec fn header_of(record: HeaderRecord) -> Result<Header, DecodeError> {
    if record.6 matches Some(entries) && !distinct_keys(entries@) {
        Err(DecodeError::DuplicateTraceKey)
    } else {
        Ok(
            Header {
                my_nodes_config_version: version_of(record.0),
                my_logs_version: version_of(record.1),
                my_schema_version: version_of(record.2),
                my_partition_table_version: version_of(record.3),
                msg_id: record.4,
                in_response_to: record.5,
                span_context: match record.6 {
                    Some(entries) => Some(SpanContext { fields: entries }),
                    None => None,
                },
            },
        )
    }
}

/// The record of a body: the place of its kind is filled, the others are not.
pub open spec fn body_record(body: Body) -> BodyRecord {
    match body {
        Body::Hello(hello) => (
            Some(
                (
                    hello.min_protocol_version,
                    hello.max_protocol_version,
                    node_record(hello.my_node_id),
                    hello.cluster_name,
                ),
            ),
            None,
            None,
            None,
        ),
        Body::Welcome(welcome) => (
            None,
            Some((node_record(welcome.my_node_id), welcome.protocol_version)),
            None,
            None,
        ),
        Body::ConnectionControl(control) => (
            None,
            None,
            Some((control.signal.number() as i32, control.message)),
            None,
        ),
        Body::Encoded(binary) => (
            None,
            None,
            None,
            Some((binary.target.number() as i32, binary.payload)),
        ),
    }
}

/// The body of a record, or the reason why the record stands for none.
pub open spec fn body_of(record: BodyRecord) -> Result<Body, DecodeError> {
    match record {
        (Some(hello), None, None, None) => Ok(
            Body::Hello(
                Hello {
                    min_protocol_version: hello.0,
                    max_protocol_version: hello.1,
                    my_node_id: node_of(hello.2),
                    cluster_name: hello.3,
                },
            ),
        ),
        (None, Some(welcome), None, None) => Ok(
            Body::Welcome(Welcome { my_node_id: node_of(welcome.0), protocol_version: welcome.1 }),
        ),
        (None, None, Some(control), None) => Ok(
            Body::ConnectionControl(
                ConnectionControl {
                    signal: Signal::of_number(control.0 as int),
                    message: control.1,
                },
            ),
        ),
        (None, None, None, Some(binary)) => Ok(
            Body::Encoded(
                BinaryMessage { target: TargetName::of_number(binary.0 as int), payload: binary.1 },
            ),
        ),
        _ => Err(DecodeError::MalformedBody),
    }
}

/// The record of a message.
pub open spec fn message_record(message: Message) -> MessageRecord {
    (header_record(message.header), body_record(message.body))
}

/// The message of a record, or the reason why the record stands for none;
/// a fault of the header is reported before one of the body.
pub open spec fn message_of(record: MessageRecord) -> Result<Message, DecodeError> {
    match header_of(record.0) {
        Err(error) => Err(error),
        Ok(header) => match body_of(record.1) {
            Err(error) => Err(error),
            Ok(body) => Ok(Message { header, body }),
        },
    }
}

fn version_to_record(version: Option<Version>) -> (number: Option<u32>)
    ensures
        number == version_number(version),
{
    match version {
        Some(v) => Some(v.0),
        None => None,
    }
}

fn version_from_record(number: Option<u32>) -> (version: Option<Version>)
    ensures
        version == version_of(number),
{
    match number {
        Some(n) => Some(Version(n)),
        None => None,
    }
}

fn node_to_record(node: GenerationalNodeId) -> (record: NodeIdRecord)
    ensures
        record == node_record(node),
{
    (node.id.0, node.generation)
}

fn node_from_record(record: NodeIdRecord) -> (node: GenerationalNodeId)
    ensures
        node == node_of(record),
{
    GenerationalNodeId::new(record.0, record.1)
}

impl Header {
    /// Lays the header out as a record.
    pub fn into_record(self) -> (record: HeaderRecord)
        ensures
            record == header_record(self),
    {
        (
            version_to_record(self.my_nodes_config_version),
            version_to_record(self.my_logs_version),
            version_to_record(self.my_schema_version),
            version_to_record(self.my_partition_table_version),
            self.msg_id,
            self.in_response_to,
            match self.span_context {
                Some(context) => Some(context.fields),
                None => None,
            },
        )
    }

    /// Reads a header from its record. A trace context that repeats a key
    /// is refused.
    pub fn from_record(record: HeaderRecord) -> (header: Result<Header, DecodeError>)
        ensures
            header == header_of(record),
            header matches Ok(h) ==> h.wf(),
    {
        let (nodes_config, logs, schema, partition_table, msg_id, in_response_to, entries) = record;
        let span_context = match entries {
            Some(fields) => {
                if !has_distinct_keys(&fields) {
                    return Err(DecodeError::DuplicateTraceKey);
                }
                Some(SpanContext { fields })
            },
            None => None,
        };
        Ok(
            Header {
                my_nodes_config_version: version_from_record(nodes_config),
                my_logs_version: version_from_record(logs),
                my_schema_version: version_from_record(schema),
                my_partition_table_version: version_from_record(partition_table),
                msg_id,
                in_response_to,
                span_context,
            },
        )
    }
}

impl Body {
    /// Lays the body out as a record.
    pub fn into_record(self) -> (record: BodyRecord)
        ensures
            record == body_record(self),
    {
        match self {
            Body::Hello(hello) => (
                Some(
                    (
                        hello.min_protocol_version,
                        hello.max_protocol_version,
                        node_to_record(hello.my_node_id),
                        hello.cluster_name,
                    ),
                ),
                None,
                None,
                None,
            ),
            Body::Welcome(welcome) => (
                None,
                Some((node_to_record(welcome.my_node_id), welcome.protocol_version)),
                None,
                None,
            ),
            Body::ConnectionControl(control) => (
                None,
                None,
                Some((control.signal.as_i32(), control.message)),
                None,
            ),
            Body::Encoded(binary) => (
                None,
                None,
                None,
                Some((binary.target.as_i32(), binary.payload)),
            ),
        }
    }

    /// Reads a body from its record. A record in which not exactly one place
    /// is filled is refused.
    pub fn from_record(record: BodyRecord) -> (body: Result<Body, DecodeError>)
        ensures
            body == body_of(record),
    {
        match record {
            (Some(hello), None, None, None) => Ok(
                Body::Hello(
                    Hello {
                        min_protocol_version: hello.0,
                        max_protocol_version: hello.1,
                        my_node_id: node_from_record(hello.2),
                        cluster_name: hello.3,
                    },
                ),
            ),
            (None, Some(welcome), None, None) => Ok(
                Body::Welcome(
                    Welcome {
                        my_node_id: node_from_record(welcome.0),
                        protocol_version: welcome.1,
                    },
                ),
            ),
            (None, None, Some(control), None) => Ok(
                Body::ConnectionControl(
                    ConnectionControl { signal: Signal::from_i32(control.0), message: control.1 },
                ),
            ),
            (None, None, None, Some(binary)) => Ok(
                Body::Encoded(
                    BinaryMessage { target: TargetName::from_i32(binary.0), payload: binary.1 },
                ),
            ),
            _ => Err(DecodeError::MalformedBody),
        }
    }
}

impl Message {
    /// Lays the message out as a record.
    pub fn into_record(self) -> (record: MessageRecord)
        ensures
            record == message_record(self),
    {
        (self.header.into_record(), self.body.into_record())
    }

    /// Reads a message from its record.
    pub fn from_record(record: MessageRecord) -> (message: Result<Message, DecodeError>)
        ensures
            message == message_of(record),
            message matches Ok(m) ==> m.wf(),
    {
        let (header_record, body_record) = record;
        match Header::from_record(header_record) {
            Err(error) => Err(error),
            Ok(header) => match Body::from_record(body_record) {
                Err(error) => Err(error),
                Ok(body) => Ok(Message { header, body }),
            },
        }
    }
}

/// Writes a message for the wire under `protocol_version`: as the FlexBuffer
/// of its record under the first version, the only one there is.
pub fn encode_default(value: Message, protocol_version: ProtocolVersion) -> (bytes: Vec<u8>)
    requires
        protocol_version.is_usable(),
    ensures
        bytes@ == flexbuffer_encoding(message_record(value)),
{
    match protocol_version {
        ProtocolVersion::V1 => {
            let record = value.into_record();
            flexbuffers_to_vec(&record).unwrap()
        },
        ProtocolVersion::Unknown => vstd::pervasive::unreached(),
    }
}

/// Judges what the FlexBuffer reader made of a buffer that held one whole
/// message under `protocol_version`: the value that it read, or its error
/// as a decoding failure of the first version.
pub fn decode_default<T>(
    read: Result<T, flexbuffers::DeserializationError>,
    protocol_version: ProtocolVersion,
) -> (value: Result<T, DecodeError>)
    requires
        protocol_version.is_usable(),
    ensures
        match read {
            Ok(v) => value == Ok::<T, DecodeError>(v),
            Err(cause) => value == Err::<T, DecodeError>(DecodeError::FailedDecodingV1(cause)),
        },
{
    match protocol_version {
        ProtocolVersion::V1 => match read {
            Ok(v) => Ok(v),
            Err(cause) => Err(DecodeError::FailedDecodingV1(cause)),
        },
        ProtocolVersion::Unknown => vstd::pervasive::unreached(),
    }
}

/// Reads a message from what the FlexBuffer reader made of a buffer: the
/// reader's failure first, then the faults of the record.
pub fn decode_message(
    read: Result<MessageRecord, flexbuffers::DeserializationError>,
    protocol_version: ProtocolVersion,
) -> (message: Result<Message, DecodeError>)
    requires
        protocol_version.is_usable(),
    ensures
        match read {
            Ok(record) => message == message_of(record),
            Err(cause) => message == Err::<Message, DecodeError>(
                DecodeError::FailedDecodingV1(cause),
            ),
        },
        message matches Ok(m) ==> m.wf(),
{
    match decode_default(read, protocol_version) {
        Ok(record) => Message::from_record(record),
        Err(error) => Err(error),
    }
}

/// A message is written by the default encoding.
impl WireEncode for Message {
    fn encode_to_vec(self, protocol_version: ProtocolVersion) -> (bytes: Vec<u8>)
        ensures
            bytes@ == flexbuffer_encoding(message_record(self)),
    {
        encode_default(self, protocol_version)
    }
}

/// A well-formed message comes back unchanged from its record, whatever it
/// holds.
pub proof fn lemma_record_round_trip(message: Message)
    requires
        message.wf(),
    ensures
        message_of(message_record(message)) == Ok::<Message, DecodeError>(message),
{
    assert(header_of(header_record(message.header)) == Ok::<Header, DecodeError>(message.header));
    assert(body_of(body_record(message.body)) == Ok::<Body, DecodeError>(message.body));
}

} // verus!
