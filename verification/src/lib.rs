//! A trait-based WebSocket framework: the verified core.
//!
//! The decisions that the connection loops make (which frame leads to which
//! action, when a connection times out, how the middleware chain is walked,
//! how a close frame is decoded) live here with their contracts.  The code
//! that awaits on sockets, timers and tasks drives these functions.

pub mod actor_websocket_handler;
pub mod connection;
pub mod handler;
pub mod message_converter;
pub mod message_handler;
pub mod middleware_context;
pub mod split_actors;
pub mod websocket_builder;
pub mod websocket_trait;

pub use connection::{ConnectionConfig, ConnectionTimer, SocketAction, SocketEvent, TimeoutKind, WaitPlan};
pub use handler::{CloseFrame, DisconnectReason};
pub use middleware_context::{MessageConverter, MessageSender, SendMessage, TrySendError, WebsocketError};
pub use split_actors::SplitActors;
pub use websocket_trait::{AxumWebSocket, WsError, WsMessage};
