//! Core of a keyboard-driven terminal chat client.
//!
//! The library holds everything the client decides and computes: the modal
//! session state (servers, channels, message buffers, composer, mode stack),
//! the key dispatcher that interprets input per mode, and the scrollback
//! viewport that wraps and clips message history to a character grid.
//! Terminal painting and the backend connection live outside the library and
//! talk to it through plain values: decoded keys in, commands out.

pub mod bridge;
pub mod chatwidget;
pub mod composer;
pub mod keys;
pub mod modes;
pub mod state;

pub use bridge::ChannelInfo;
pub use bridge::ChatMessage;
pub use bridge::MsgFromDiscord;
pub use bridge::MsgToDiscord;
pub use bridge::ServerInfo;
pub use bridge::SystemMessage;
pub use chatwidget::ChatWidget;
pub use keys::Key;
pub use modes::Mode;
pub use state::AppState;
pub use state::Channel;
pub use state::Server;
