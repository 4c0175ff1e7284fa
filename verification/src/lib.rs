//! Verified core of the Vision Pro sync service for the Zed editor: the
//! service configuration, the wire protocol and its replies, the registry of
//! live device connections, the service's start/stop state machine, the
//! IPv4 helpers of the panel and the panel's view model.

pub mod config;
pub mod connection;
pub mod network;
pub mod protocol;
pub mod registry;
pub mod server;
pub mod service;
pub mod text;
pub mod ui;

pub use config::ZedVisionConfig;
pub use connection::Connection;
pub use network::NetworkInfo;
pub use protocol::{
    AIConversationMessage, AIConversationPayload, ConnectionAcceptedPayload, EchoPayload,
    EchoedValue, EditorStateSyncPayload, MessageRole, ServerInfo, ZedVisionMessage,
};
pub use registry::ConnectionRegistry;
pub use service::{ServiceEffect, ServiceEvent, ZedVisionSync};
pub use ui::{VisionSyncPanel, ZedVisionStatusButton};
