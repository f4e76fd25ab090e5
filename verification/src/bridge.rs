//! The message contract with the backend bridge: the closed set of outbound
//! commands the client may issue and of inbound events it consumes. The
//! bridge itself (connection, event stream, retries) lives outside the
//! library and is reached only through these plain values.

use vstd::prelude::*;

verus! {

/// Identity of a server as the backend lists it: opaque id and display name.
#[derive(Clone, Debug, PartialEq)]
pub struct ServerInfo {
    pub id: u64,
    pub name: String,
}

/// Identity of a channel as the backend lists it: opaque id, display name,
/// and the kind of channel (shown beside the name).
#[derive(Clone, Debug, PartialEq)]
pub struct ChannelInfo {
    pub id: u64,
    pub name: String,
    pub kind: String,
}

/// One chat message: author display name, body text, and the identity of the
/// channel it belongs to (used for routing on arrival).
#[derive(Clone, Debug, PartialEq)]
pub struct ChatMessage {
    pub author: String,
    pub content: String,
    pub channel_id: u64,
}

/// One line of the diagnostic transcript, the fallback log shown to the user.
#[derive(Clone, Debug, PartialEq)]
pub struct SystemMessage {
    pub username: String,
    pub content: String,
}

/// Outbound commands to the backend bridge.
#[derive(Clone, Debug, PartialEq)]
pub enum MsgToDiscord {
    /// Ask for the list of servers the user belongs to.
    GetServers,
    /// Ask for the channel list of the given server.
    GetChannels(u64),
    /// Send the text as a chat message to the given channel.
    SendMessage(u64, String),
    /// Begin the logout handshake; the bridge answers with `Exit`.
    Logout,
    /// Diagnostic loopback; the bridge answers with `EchoResponse`.
    Echo(String),
}

/// Inbound events from the backend bridge.
#[derive(Clone, Debug, PartialEq)]
pub enum MsgFromDiscord {
    /// The server list arrived.
    Servers(Vec<ServerInfo>),
    /// The channel list of the given server arrived.
    Channels(u64, Vec<ChannelInfo>),
    /// A chat message arrived.
    ChatMsg(ChatMessage),
    /// The bridge acknowledged the logout; the client may tear down.
    Exit,
    /// The loopback answer to an `Echo` command.
    EchoResponse(String),
}

} // verus!
