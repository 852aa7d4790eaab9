//! Building blocks for the communication layer of a cluster node: protocol
//! versions and the handshake, the message envelope, the wire codec, the
//! egress queue of a connection, and the bookkeeping of managed tasks.

pub mod codec;
pub mod egress;
pub mod envelope;
pub mod handshake;
pub mod identifiers;
pub mod locality;
pub mod log_nodeset;
pub mod prometheus_metrics;
pub mod service_protocol;
pub mod span_context;
pub mod status_scan;
pub mod task_center;
pub mod version;
