use cluster_core::envelope::{
    BinaryMessage, Body, ConnectionControl, Header, Hello, Message, Signal, TargetName, Welcome,
};
use cluster_core::identifiers::{GenerationalNodeId, PlainNodeId, Version};
use cluster_core::span_context::SpanContext;
use cluster_core::version::ProtocolVersion;

#[test]
fn header_keeps_what_it_was_given() {
    let header = Header::new(Version(4), Some(Version(2)), None, Some(Version(7)), 11, Some(10));
    assert_eq!(header.my_nodes_config_version, Some(Version(4)));
    assert_eq!(header.my_logs_version, Some(Version(2)));
    assert_eq!(header.my_schema_version, None);
    assert_eq!(header.my_partition_table_version, Some(Version(7)));
    assert_eq!(header.msg_id, 11);
    assert_eq!(header.in_response_to, Some(10));
    assert!(header.span_context.is_none());
}

#[test]
fn message_holds_header_and_converted_body() {
    let header = Header::new(Version(1), None, None, None, 3, None);
    let message = Message::new(header, ConnectionControl::shutdown());
    assert_eq!(message.header.msg_id, 3);
    match message.body {
        Body::ConnectionControl(control) => assert_eq!(control, ConnectionControl::shutdown()),
        other => panic!("unexpected body {:?}", other),
    }
}

#[test]
fn message_takes_a_body_as_it_is() {
    let header = Header::new(Version(1), None, None, None, 3, None);
    let body = Body::Encoded(BinaryMessage { target: TargetName::Ingress, payload: vec![1] });
    let message = Message::new(header, body);
    match message.body {
        Body::Encoded(binary) => {
            assert_eq!(binary, BinaryMessage { target: TargetName::Ingress, payload: vec![1] })
        }
        other => panic!("unexpected body {:?}", other),
    }
}

#[test]
fn every_kind_of_message_converts_to_its_body() {
    let hello = Hello::new(GenerationalNodeId::new(1, 1), "c".to_string());
    assert!(matches!(Body::from(hello), Body::Hello(_)));
    let welcome = Welcome::new(GenerationalNodeId::new(1, 1), ProtocolVersion::V1);
    assert!(matches!(Body::from(welcome), Body::Welcome(_)));
    assert!(matches!(
        Body::from(ConnectionControl::connection_reset()),
        Body::ConnectionControl(_)
    ));
    let binary = BinaryMessage { target: TargetName::MetadataManager, payload: vec![] };
    assert!(matches!(Body::from(binary), Body::Encoded(_)));
}

#[test]
fn control_signals_carry_their_sentences() {
    let reset = ConnectionControl::connection_reset();
    assert_eq!(reset.signal, Signal::DrainConnection);
    assert_eq!(reset.message, "Connection is draining and will be dropped");
    let shutdown = ConnectionControl::shutdown();
    assert_eq!(shutdown.signal, Signal::Shutdown);
    assert_eq!(shutdown.message, "Node is shutting down");
    let codec = ConnectionControl::codec_error("unexpected byte".to_string());
    assert_eq!(codec.signal, Signal::CodecError);
    assert_eq!(codec.message, "unexpected byte");
}

#[test]
fn signals_have_names_and_numbers() {
    assert_eq!(Signal::Unknown.as_str_name(), "Signal_UNKNOWN");
    assert_eq!(Signal::Shutdown.as_str_name(), "SHUTDOWN");
    assert_eq!(Signal::DrainConnection.as_str_name(), "DRAIN_CONNECTION");
    assert_eq!(Signal::CodecError.as_str_name(), "CODEC_ERROR");
    assert_eq!(Signal::CodecError.to_text(), "CODEC_ERROR");
    for signal in [Signal::Unknown, Signal::Shutdown, Signal::DrainConnection, Signal::CodecError] {
        assert_eq!(Signal::from_i32(signal.as_i32()), signal);
    }
    assert_eq!(Signal::from_i32(17), Signal::Unknown);
    assert_eq!(Signal::DrainConnection.as_i32(), 2);
}

#[test]
fn targets_have_numbers() {
    let targets = [
        TargetName::Unknown,
        TargetName::MetadataManager,
        TargetName::Ingress,
        TargetName::LocalMetadataStore,
        TargetName::LocalMetadataStoreClient,
        TargetName::AttachRequest,
        TargetName::AttachResponse,
    ];
    for (number, target) in targets.iter().enumerate() {
        assert_eq!(target.as_i32(), number as i32);
        assert_eq!(TargetName::from_i32(number as i32), *target);
    }
    assert_eq!(TargetName::from_i32(99), TargetName::Unknown);
    assert_eq!(TargetName::from_i32(-3), TargetName::Unknown);
}

#[test]
fn node_ids_show_their_parts() {
    let node = GenerationalNodeId::new(12, 4);
    assert_eq!(node.id, PlainNodeId(12));
    assert_eq!(node.generation, 4);
    assert_eq!(node.as_plain(), PlainNodeId(12));
}

#[test]
fn span_context_stores_and_replaces() {
    let mut context = SpanContext::new();
    assert!(context.is_empty());
    assert_eq!(context.get("a"), None);
    context.set("a", "1".to_string());
    context.set("b", "2".to_string());
    assert!(!context.is_empty());
    assert_eq!(context.get("a"), Some("1"));
    assert_eq!(context.get("b"), Some("2"));
    context.set("a", "3".to_string());
    assert_eq!(context.get("a"), Some("3"));
    assert_eq!(context.get("b"), Some("2"));
    assert_eq!(context.get("c"), None);
    let mut keys = context.keys();
    keys.sort();
    assert_eq!(keys, vec!["a", "b"]);
}

#[test]
fn span_context_keeps_each_key_once() {
    let mut context = SpanContext::new();
    for round in 0..3 {
        context.set("only", format!("{}", round));
    }
    assert_eq!(context.keys(), vec!["only"]);
    assert_eq!(context.get("only"), Some("2"));
    assert_eq!(context.fields.len(), 1);
}
