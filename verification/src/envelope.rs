//! The messages that two nodes exchange: the handshake pair, the header and
//! body of every later frame, and the signals that end a connection.

use vstd::prelude::*;
use vstd::std_specs::convert::FromSpecImpl;
use crate::codec::DecodeError;
use crate::identifiers::{GenerationalNodeId, Version};
use crate::span_context::SpanContext;
use crate::version::{ProtocolVersion, CURRENT_PROTOCOL_VERSION, MIN_SUPPORTED_PROTOCOL_VERSION};

verus! {

/// The first message of a connection: the versions that the sender speaks,
/// who it is, and the cluster it believes it belongs to.
#[derive(Debug, PartialEq, Eq)]
pub struct Hello {
    pub min_protocol_version: i32,
    pub max_protocol_version: i32,
    pub my_node_id: GenerationalNodeId,
    pub cluster_name: String,
}

impl Hello {
    /// The greeting of this build: it offers every version from the oldest
    /// supported one to the current one.
    pub fn new(my_node_id: GenerationalNodeId, cluster_name: String) -> (hello: Self)
        ensures
            hello.min_protocol_version == MIN_SUPPORTED_PROTOCOL_VERSION.number(),
            hello.max_protocol_version == CURRENT_PROTOCOL_VERSION.number(),
            hello.my_node_id == my_node_id,
            hello.cluster_name == cluster_name,
    {
        Hello {
            min_protocol_version: MIN_SUPPORTED_PROTOCOL_VERSION.as_i32(),
            max_protocol_version: CURRENT_PROTOCOL_VERSION.as_i32(),
            my_node_id,
            cluster_name,
        }
    }
}

/// The answer to a `Hello` that was accepted: who answers, and the version
/// that the connection runs under from here on.
#[derive(Debug, PartialEq, Eq)]
pub struct Welcome {
    pub my_node_id: GenerationalNodeId,
    pub protocol_version: i32,
}

impl Welcome {
    pub fn new(my_node_id: GenerationalNodeId, protocol_version: ProtocolVersion) -> (welcome: Self)
        ensures
            welcome.my_node_id == my_node_id,
            welcome.protocol_version == protocol_version.number(),
    {
        Welcome { my_node_id, protocol_version: protocol_version.as_i32() }
    }
}

/// What every frame after the handshake says about itself and its sender.
#[derive(Debug)]
pub struct Header {
    pub my_nodes_config_version: Option<Version>,
    pub my_logs_version: Option<Version>,
    pub my_schema_version: Option<Version>,
    pub my_partition_table_version: Option<Version>,
    /// Chosen by the sender, unique on its connection.
    pub msg_id: u64,
    /// The `msg_id` of the message that this one answers.
    pub in_response_to: Option<u64>,
    pub span_context: Option<SpanContext>,
}

impl Header {
    /// A header without trace context.
    pub fn new(
        nodes_config_version: Version,
        logs_version: Option<Version>,
        schema_version: Option<Version>,
        partition_table_version: Option<Version>,
        msg_id: u64,
        in_response_to: Option<u64>,
    ) -> (header: Self)
        ensures
            header.my_nodes_config_version == Some(nodes_config_version),
            header.my_logs_version == logs_version,
            header.my_schema_version == schema_version,
            header.my_partition_table_version == partition_table_version,
            header.msg_id == msg_id,
            header.in_response_to == in_response_to,
            header.span_context is None,
            header.wf(),
    {
        Header {
            my_nodes_config_version: Some(nodes_config_version),
            my_logs_version: logs_version,
            my_schema_version: schema_version,
            my_partition_table_version: partition_table_version,
            msg_id,
            in_response_to,
            span_context: None,
        }
    }

    /// The trace context, where there is one, repeats no key.
    pub open spec fn wf(&self) -> bool {
        self.span_context matches Some(context) ==> context.wf()
    }
}

/// Why a connection is about to end.
#[derive(Clone, Copy, Debug, PartialEq, Eq, Structural, Hash)]
pub enum Signal {
    Unknown,
    /// The sending node is shutting down.
    Shutdown,
    /// The peer should issue no new work; what is in flight may finish.
    DrainConnection,
    /// The sender could not decode what it received.
    CodecError,
}

impl Signal {
    /// The number that stands for this signal on the wire.
    pub open spec fn number(self) -> int {
        match self {
            Signal::Unknown => 0,
            Signal::Shutdown => 1,
            Signal::DrainConnection => 2,
            Signal::CodecError => 3,
        }
    }

    /// The signal that a number stands for; `Unknown` for every number that
    /// names none.
    pub open spec fn of_number(n: int) -> Signal {
        if n == 1 {
            Signal::Shutdown
        } else if n == 2 {
            Signal::DrainConnection
        } else if n == 3 {
            Signal::CodecError
        } else {
            Signal::Unknown
        }
    }

    /// The name of this signal in the protocol's definition.
    pub open spec fn name(self) -> Seq<char> {
        match self {
            Signal::Unknown => "Signal_UNKNOWN"@,
            Signal::Shutdown => "SHUTDOWN"@,
            Signal::DrainConnection => "DRAIN_CONNECTION"@,
            Signal::CodecError => "CODEC_ERROR"@,
        }
    }

    pub fn as_i32(self) -> (n: i32)
        ensures
            n == self.number(),
    {
        match self {
            Signal::Unknown => 0,
            Signal::Shutdown => 1,
            Signal::DrainConnection => 2,
            Signal::CodecError => 3,
        }
    }

    pub fn from_i32(n: i32) -> (signal: Signal)
        ensures
            signal == Self::of_number(n as int),
    {
        if n == 1 {
            Signal::Shutdown
        } else if n == 2 {
            Signal::DrainConnection
        } else if n == 3 {
            Signal::CodecError
        } else {
            Signal::Unknown
        }
    }

    /// The name of this signal in the protocol's definition.
    pub fn as_str_name(&self) -> (name: &'static str)
        ensures
            name@ == self.name(),
    {
        match self {
            Signal::Unknown => "Signal_UNKNOWN",
            Signal::Shutdown => "SHUTDOWN",
            Signal::DrainConnection => "DRAIN_CONNECTION",
            Signal::CodecError => "CODEC_ERROR",
        }
    }

    /// The text that stands for this signal in logs.
    pub fn to_text(&self) -> (text: String)
        ensures
            text@ == self.name(),
    {
        self.as_str_name().to_owned()
    }
}

/// A signal that ends a connection, with a sentence for whoever reads the
/// logs.
#[derive(Debug, PartialEq, Eq)]
pub struct ConnectionControl {
    pub signal: Signal,
    pub message: String,
}

impl ConnectionControl {
    /// Tells the peer that the connection drains and will be dropped.
    pub fn connection_reset() -> (control: Self)
        ensures
            control.signal == Signal::DrainConnection,
            control.message@ == "Connection is draining and will be dropped"@,
    {
        ConnectionControl {
            signal: Signal::DrainConnection,
            message: "Connection is draining and will be dropped".to_owned(),
        }
    }

    /// Tells the peer that this node is shutting down.
    pub fn shutdown() -> (control: Self)
        ensures
            control.signal == Signal::Shutdown,
            control.message@ == "Node is shutting down"@,
    {
        ConnectionControl { signal: Signal::Shutdown, message: "Node is shutting down".to_owned() }
    }

    /// Tells the peer that its bytes could not be decoded, and why.
    pub fn codec_error(message: String) -> (control: Self)
        ensures
            control.signal == Signal::CodecError,
            control.message == message,
    {
        ConnectionControl { signal: Signal::CodecError, message }
    }
}

/// Where the dispatch layer sends a decoded payload.
#[derive(Clone, Copy, Debug, PartialEq, Eq, Structural, Hash)]
pub enum TargetName {
    Unknown,
    MetadataManager,
    Ingress,
    LocalMetadataStore,
    LocalMetadataStoreClient,
    AttachRequest,
    AttachResponse,
}

impl TargetName {
    /// The number that stands for this target on the wire.
    pub open spec fn number(self) -> int {
        match self {
            TargetName::Unknown => 0,
            TargetName::MetadataManager => 1,
            TargetName::Ingress => 2,
            TargetName::LocalMetadataStore => 3,
            TargetName::LocalMetadataStoreClient => 4,
            TargetName::AttachRequest => 5,
            TargetName::AttachResponse => 6,
        }
    }

    /// The target that a number stands for; `Unknown` for every number that
    /// names none.
    pub open spec fn of_number(n: int) -> TargetName {
        if n == 1 {
            TargetName::MetadataManager
        } else if n == 2 {
            TargetName::Ingress
        } else if n == 3 {
            TargetName::LocalMetadataStore
        } else if n == 4 {
            TargetName::LocalMetadataStoreClient
        } else if n == 5 {
            TargetName::AttachRequest
        } else if n == 6 {
            TargetName::AttachResponse
        } else {
            TargetName::Unknown
        }
    }

    pub fn as_i32(self) -> (n: i32)
        ensures
            n == self.number(),
    {
        match self {
            TargetName::Unknown => 0,
            TargetName::MetadataManager => 1,
            TargetName::Ingress => 2,
            TargetName::LocalMetadataStore => 3,
            TargetName::LocalMetadataStoreClient => 4,
            TargetName::AttachRequest => 5,
            TargetName::AttachResponse => 6,
        }
    }

    pub fn from_i32(n: i32) -> (target: TargetName)
        ensures
            target == Self::of_number(n as int),
    {
        if n == 1 {
            TargetName::MetadataManager
        } else if n == 2 {
            TargetName::Ingress
        } else if n == 3 {
            TargetName::LocalMetadataStore
        } else if n == 4 {
            TargetName::LocalMetadataStoreClient
        } else if n == 5 {
            TargetName::AttachRequest
        } else if n == 6 {
            TargetName::AttachResponse
        } else {
            TargetName::Unknown
        }
    }
}

/// A payload that was encoded by a higher layer, with the target that knows
/// how to decode it.
#[derive(Debug, PartialEq, Eq)]
pub struct BinaryMessage {
    pub target: TargetName,
    pub payload: Vec<u8>,
}

/// What a frame carries.
#[derive(Debug)]
pub enum Body {
    Hello(Hello),
    Welcome(Welcome),
    ConnectionControl(ConnectionControl),
    Encoded(BinaryMessage),
}

impl Body {
    /// The encoded payload of this body. Every other kind of body is an
    /// error: the caller asked to decode what is no payload.
    pub fn try_as_binary_body(self, _protocol_version: ProtocolVersion) -> (binary: Result<
        BinaryMessage,
        DecodeError,
    >)
        ensures
            match self {
                Body::Encoded(message) => binary == Ok::<BinaryMessage, DecodeError>(message),
                _ => binary == Err::<BinaryMessage, DecodeError>(DecodeError::NotBinaryMessage),
            },
    {
        match self {
            Body::Encoded(binary) => Ok(binary),
            _ => Err(DecodeError::NotBinaryMessage),
        }
    }
}

/// `From<T> for T` of std hands its argument back unchanged, as its
/// documentation says; with this a body passes through `Message::new` as it is.
pub assume_specification<Anything>[ <Anything as core::convert::From<Anything>>::from ](
    value: Anything,
) -> (same: Anything)
    ensures
        same == value,
;

impl From<Hello> for Body {
    fn from(hello: Hello) -> (body: Body) {
        Body::Hello(hello)
    }
}

impl FromSpecImpl<Hello> for Body {
    open spec fn obeys_from_spec() -> bool {
        true
    }

    open spec fn from_spec(hello: Hello) -> Body {
        Body::Hello(hello)
    }
}

impl From<Welcome> for Body {
    fn from(welcome: Welcome) -> (body: Body) {
        Body::Welcome(welcome)
    }
}

impl FromSpecImpl<Welcome> for Body {
    open spec fn obeys_from_spec() -> bool {
        true
    }

    open spec fn from_spec(welcome: Welcome) -> Body {
        Body::Welcome(welcome)
    }
}

impl From<ConnectionControl> for Body {
    fn from(control: ConnectionControl) -> (body: Body) {
        Body::ConnectionControl(control)
    }
}

impl FromSpecImpl<ConnectionControl> for Body {
    open spec fn obeys_from_spec() -> bool {
        true
    }

    open spec fn from_spec(control: ConnectionControl) -> Body {
        Body::ConnectionControl(control)
    }
}

impl From<BinaryMessage> for Body {
    fn from(binary: BinaryMessage) -> (body: Body) {
        Body::Encoded(binary)
    }
}

impl FromSpecImpl<BinaryMessage> for Body {
    open spec fn obeys_from_spec() -> bool {
        true
    }

    open spec fn from_spec(binary: BinaryMessage) -> Body {
        Body::Encoded(binary)
    }
}

/// One frame: a header and a body.
#[derive(Debug)]
pub struct Message {
    pub header: Header,
    pub body: Body,
}

impl Message {
    /// A frame of `header` and whatever `body` converts to.
    pub fn new<B: Into<Body>>(header: Header, body: B) -> (message: Self)
        ensures
            message.header == header,
            call_ensures(B::into, (body,), message.body),
    {
        Message { header, body: body.into() }
    }

    /// The header's trace context repeats no key.
    pub open spec fn wf(&self) -> bool {
        self.header.wf()
    }
}

} // verus!
