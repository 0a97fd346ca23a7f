//! Byte-level encoder/decoder for a subset of MQTT v3.1.1 control packets:
//! CONNECT, CONNACK, PUBLISH and SUBACK.
//!
//! Every multi-byte integer on the wire is big-endian, and the "remaining
//! length" field is deliberately restricted to a single byte (0-255): this
//! library targets short packets only and does not implement the full MQTT
//! variable-length integer encoding.

pub mod codes;
pub mod connack;
pub mod connect;
pub mod publish;
pub mod suback;

pub use codes::CtrlPkt;
pub use codes::QoS;
pub use connack::ConnackResult;
pub use connack::ConnectCode;
pub use connack::ConnectError;
pub use connack::CONNACK_LEN;
pub use connect::Connect;
pub use connect::ConnectAlloc;
pub use publish::NotUtf8;
pub use publish::Publish;
pub use publish::PublishBuilder;
pub use publish::PublishDe;
pub use publish::PublishError;
pub use suback::SubCode;
pub use suback::SubError;
pub use suback::SubackResult;
