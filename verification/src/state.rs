//! The session state: the single mutable model of servers, channels, message
//! buffers, the composer, and the modal input state, together with every
//! mutation the key dispatcher and the backend-event handler perform on it.
//! Mutations that need the backend hand back the outbound commands to send;
//! they never perform I/O themselves.

use vstd::prelude::*;

use crate::bridge::ChannelInfo;
use crate::bridge::ChatMessage;
use crate::bridge::MsgToDiscord;
use crate::bridge::ServerInfo;
use crate::bridge::SystemMessage;
use crate::composer::delete_char_before;
use crate::composer::insert_char_at;
use crate::composer::lemma_insert_then_delete;
use crate::bridge::MsgFromDiscord;
use crate::composer::push_char;
use crate::keys::Key;
use crate::modes::popped_mode;
use crate::modes::popped_stack;
use crate::modes::switched_mode;
use crate::modes::switched_stack;
use crate::modes::Mode;

verus! {

/// The next selection index: increment, wrapping past `n` to zero; an empty
/// list (`n == 0`) leaves the index unchanged.
pub open spec fn next_index(i: int, n: int) -> int {
    if n <= 0 {
        i
    } else if i + 1 < n {
        i + 1
    } else {
        0
    }
}

/// The previous selection index: decrement, wrapping from zero to `n - 1`;
/// an empty list leaves the index unchanged.
pub open spec fn prev_index(i: int, n: int) -> int {
    if n <= 0 {
        i
    } else if i > 0 {
        i - 1
    } else {
        n - 1
    }
}

/// The selection after `k` successive `next` steps.
pub open spec fn iter_next(i: int, n: int, k: nat) -> int
    decreases k,
{
    if k == 0 {
        i
    } else {
        next_index(iter_next(i, n, (k - 1) as nat), n)
    }
}

proof fn lemma_iter_next_shape(i: int, n: int, k: nat)
    requires
        0 <= i < n,
        k <= n,
    ensures
        iter_next(i, n, k) == if i + k < n {
            i + k
        } else {
            i + k - n
        },
    decreases k,
{
    if k > 0 {
        lemma_iter_next_shape(i, n, (k - 1) as nat);
    }
}

/// Law: with a non-empty list, as many `next` steps as there are entries
/// carry the selection once around the cycle, back to where it started.
pub proof fn lemma_next_server_full_cycle(i: int, n: int)
    requires
        0 <= i < n,
    ensures
        iter_next(i, n, n as nat) == i,
{
    lemma_iter_next_shape(i, n, n as nat);
}

/// Law: the wraparound edges: stepping back from the first entry selects the
/// last, stepping forward from the last selects the first.
pub proof fn lemma_selection_wraparound(n: int)
    requires
        n > 0,
    ensures
        prev_index(0, n) == n - 1,
        next_index(n - 1, n) == 0,
{
}

/// One channel of a server: identity, display name, and the chronological
/// message buffer (append-only for the session's lifetime).
#[derive(Debug, Clone, PartialEq)]
pub struct Channel {
    pub name: String,
    pub id: u64,
    pub messages: Vec<ChatMessage>,
}

impl Channel {
    /// The outbound command that sends `content` to this channel.
    pub fn send_message(&self, content: String) -> (cmd: MsgToDiscord)
        ensures
            cmd == MsgToDiscord::SendMessage(self.id, content),
    {
        MsgToDiscord::SendMessage(self.id, content)
    }
}

/// One server: its identity and its channel list with the active selection.
#[derive(Debug, Clone, PartialEq)]
pub struct Server {
    pub channels: Vec<Channel>,
    pub active_channel: usize,
    pub info: ServerInfo,
}

impl Server {
    /// The selection invariant: the active channel is a valid index whenever
    /// the channel list is non-empty; an empty list pins it to zero ("no
    /// selection").
    pub open spec fn wf(self) -> bool {
        if self.channels@.len() == 0 {
            self.active_channel == 0
        } else {
            self.active_channel < self.channels@.len()
        }
    }

    /// Select the next channel, wrapping modulo the channel count; an empty
    /// list stays at zero.
    pub fn next_channel(&mut self)
        requires
            old(self).wf(),
        ensures
            final(self).wf(),
            final(self).active_channel == next_index(
                old(self).active_channel as int,
                old(self).channels@.len() as int,
            ),
            final(self).channels == old(self).channels,
            final(self).info == old(self).info,
    {
        if self.channels.len() == 0 {
            self.active_channel = 0;
        } else if self.active_channel + 1 < self.channels.len() {
            self.active_channel = self.active_channel + 1;
        } else {
            self.active_channel = 0;
        }
    }

    /// Select the previous channel, wrapping to the end; an empty list stays
    /// at zero.
    pub fn prev_channel(&mut self)
        requires
            old(self).wf(),
        ensures
            final(self).wf(),
            final(self).active_channel == prev_index(
                old(self).active_channel as int,
                old(self).channels@.len() as int,
            ),
            final(self).channels == old(self).channels,
            final(self).info == old(self).info,
    {
        if self.active_channel > 0 {
            self.active_channel = self.active_channel - 1;
        } else if self.channels.len() == 0 {
            self.active_channel = 0;
        } else {
            self.active_channel = self.channels.len() - 1;
        }
    }

    /// The active channel; demands a non-empty channel list.
    pub fn active_channel(&mut self) -> (c: &mut Channel)
        requires
            old(self).wf(),
            old(self).channels@.len() > 0,
        ensures
            *c == old(self).channels@[old(self).active_channel as int],
            final(self).channels@ == old(self).channels@.update(
                old(self).active_channel as int,
                *final(c),
            ),
            final(self).active_channel == old(self).active_channel,
            final(self).info == old(self).info,
    {
        let i = self.active_channel;
        &mut self.channels[i]
    }
}

/// Everything except the mode and the mode stack is unchanged.
pub open spec fn same_but_modes(pre: AppState, post: AppState) -> bool {
    &&& post.content == pre.content
    &&& post.offset == pre.offset
    &&& post.scroll_pos == pre.scroll_pos
    &&& post.servers == pre.servers
    &&& post.active_server == pre.active_server
    &&& post.transcript == pre.transcript
}

/// Everything except the composer buffer and its cursor is unchanged.
pub open spec fn same_but_composer(pre: AppState, post: AppState) -> bool {
    &&& post.scroll_pos == pre.scroll_pos
    &&& post.servers == pre.servers
    &&& post.active_server == pre.active_server
    &&& post.mode == pre.mode
    &&& post.mode_stack == pre.mode_stack
    &&& post.transcript == pre.transcript
}

/// Everything except the server list and the selections into it is
/// unchanged.
pub open spec fn same_but_servers(pre: AppState, post: AppState) -> bool {
    &&& post.content == pre.content
    &&& post.offset == pre.offset
    &&& post.scroll_pos == pre.scroll_pos
    &&& post.mode == pre.mode
    &&& post.mode_stack == pre.mode_stack
    &&& post.transcript == pre.transcript
}

/// The whole session state. Its fields are plain values; the invariant
/// `wf` ties the selections to their lists and the cursor to the composer.
#[derive(Debug)]
pub struct AppState {
    /// Composer buffer: the text being typed.
    pub content: String,
    /// Cursor offset into the composer, in characters.
    pub offset: usize,
    /// How many lines the viewport is paged back; zero shows the newest.
    pub scroll_pos: usize,
    /// Servers in display order, with their channels and message buffers.
    pub servers: Vec<Server>,
    /// Index of the selected server.
    pub active_server: usize,
    /// The active UI mode.
    pub mode: Mode,
    /// Modes to return to on cancel or commit, innermost last.
    pub mode_stack: Vec<Mode>,
    /// Diagnostic log shown in fallback views.
    pub transcript: Vec<SystemMessage>,
}

impl AppState {
    /// The state invariant: the active server is a valid index whenever the
    /// list is non-empty (zero otherwise), every server satisfies its own
    /// invariant, and the cursor stays inside the composer.
    pub open spec fn wf(self) -> bool {
        &&& if self.servers@.len() == 0 {
            self.active_server == 0
        } else {
            self.active_server < self.servers@.len()
        }
        &&& forall|i: int| 0 <= i < self.servers@.len() ==> (#[trigger] self.servers@[i]).wf()
        &&& self.offset <= self.content@.len()
    }

    /// Whether a message can be sent: a server is selected and it has a
    /// selected channel.
    pub open spec fn has_active_channel(self) -> bool {
        self.servers@.len() > 0 && self.servers@[self.active_server as int].channels@.len() > 0
    }

    /// The identity of the active channel.
    pub open spec fn active_channel_id(self) -> u64 {
        let server = self.servers@[self.active_server as int];
        server.channels@[server.active_channel as int].id
    }

    /// A fresh session: no servers, empty composer, Normal mode.
    pub fn new() -> (st: AppState)
        ensures
            st.wf(),
            st.content@ == Seq::<char>::empty(),
            st.offset == 0,
            st.scroll_pos == 0,
            st.servers@ == Seq::<Server>::empty(),
            st.active_server == 0,
            st.mode == Mode::Normal,
            st.mode_stack@ == Seq::<Mode>::empty(),
            st.transcript@ == Seq::<SystemMessage>::empty(),
    {
        AppState {
            content: String::new(),
            offset: 0,
            scroll_pos: 0,
            servers: Vec::new(),
            active_server: 0,
            mode: Mode::Normal,
            mode_stack: Vec::new(),
            transcript: Vec::new(),
        }
    }

    /// Select the next server, wrapping modulo the server count; a no-op
    /// when the list is empty.
    pub fn next_server(&mut self)
        requires
            old(self).wf(),
        ensures
            final(self).wf(),
            same_but_servers(*old(self), *final(self)),
            final(self).servers == old(self).servers,
            final(self).active_server == next_index(
                old(self).active_server as int,
                old(self).servers@.len() as int,
            ),
    {
        if self.servers.len() == 0 {
        } else if self.active_server + 1 < self.servers.len() {
            self.active_server = self.active_server + 1;
        } else {
            self.active_server = 0;
        }
    }

    /// Select the previous server, wrapping to the end of the list; a no-op
    /// when the list is empty.
    pub fn prev_server(&mut self)
        requires
            old(self).wf(),
        ensures
            final(self).wf(),
            same_but_servers(*old(self), *final(self)),
            final(self).servers == old(self).servers,
            final(self).active_server == prev_index(
                old(self).active_server as int,
                old(self).servers@.len() as int,
            ),
    {
        if self.active_server > 0 {
            self.active_server = self.active_server - 1;
        } else if self.servers.len() == 0 {
        } else {
            self.active_server = self.servers.len() - 1;
        }
    }

    /// The active server; demands a non-empty server list.
    pub fn active_server(&mut self) -> (s: &mut Server)
        requires
            old(self).wf(),
            old(self).servers@.len() > 0,
        ensures
            *s == old(self).servers@[old(self).active_server as int],
            final(self).servers@ == old(self).servers@.update(
                old(self).active_server as int,
                *final(s),
            ),
            final(self).active_server == old(self).active_server,
            final(self).content == old(self).content,
            final(self).offset == old(self).offset,
            final(self).scroll_pos == old(self).scroll_pos,
            final(self).mode == old(self).mode,
            final(self).mode_stack == old(self).mode_stack,
            final(self).transcript == old(self).transcript,
    {
        let i = self.active_server;
        &mut self.servers[i]
    }

    /// The command asking the backend for the server list.
    pub fn get_servers(&self) -> (cmd: MsgToDiscord)
        ensures
            cmd == MsgToDiscord::GetServers,
    {
        MsgToDiscord::GetServers
    }

    /// The diagnostic loopback command carrying `what`.
    pub fn print(&self, what: String) -> (cmd: MsgToDiscord)
        ensures
            cmd == MsgToDiscord::Echo(what),
    {
        MsgToDiscord::Echo(what)
    }

    /// Enter Exiting mode and hand back the logout command that starts the
    /// shutdown handshake.
    pub fn quit(&mut self) -> (cmd: MsgToDiscord)
        requires
            old(self).wf(),
        ensures
            final(self).wf(),
            same_but_modes(*old(self), *final(self)),
            final(self).mode == Mode::Exiting,
            final(self).mode_stack == old(self).mode_stack,
            cmd == MsgToDiscord::Logout,
    {
        self.mode = Mode::Exiting;
        MsgToDiscord::Logout
    }

    /// The command sending `text` to the active channel, when there is one;
    /// with no server or no channel there is nothing to send.
    pub fn send_message(&self, text: String) -> (cmd: Option<MsgToDiscord>)
        requires
            self.wf(),
        ensures
            self.has_active_channel() ==> cmd == Some(
                MsgToDiscord::SendMessage(self.active_channel_id(), text),
            ),
            !self.has_active_channel() ==> cmd == None::<MsgToDiscord>,
    {
        if self.servers.len() == 0 {
            return None;
        }
        let server = &self.servers[self.active_server];
        if server.channels.len() == 0 {
            return None;
        }
        let channel = &server.channels[server.active_channel];
        Some(channel.send_message(text))
    }

    /// Insert `chr` at the cursor and advance the cursor one character. (At
    /// the machine limit of the buffer length the state is left unchanged.)
    pub fn add_character(&mut self, chr: char)
        requires
            old(self).wf(),
        ensures
            final(self).wf(),
            same_but_composer(*old(self), *final(self)),
            old(self).content@.len() < usize::MAX ==> {
                &&& final(self).content@ == insert_char_at(
                    old(self).content@,
                    old(self).offset as int,
                    chr,
                )
                &&& final(self).offset == old(self).offset + 1
            },
            old(self).content@.len() >= usize::MAX ==> *final(self) == *old(self),
    {
        let n = self.content.as_str().unicode_len();
        if n == usize::MAX {
            return ;
        }
        let mut new_content = String::from_str(self.content.as_str().substring_char(0, self.offset));
        push_char(&mut new_content, chr);
        new_content.append(self.content.as_str().substring_char(self.offset, n));
        self.content = new_content;
        self.offset = self.offset + 1;
        proof {
            assert(self.content@ =~= insert_char_at(
                old(self).content@,
                old(self).offset as int,
                chr,
            ));
        }
    }

    /// Delete the character immediately before the cursor and move the
    /// cursor back one; at offset zero there is nothing to delete.
    pub fn remove_character(&mut self)
        requires
            old(self).wf(),
        ensures
            final(self).wf(),
            same_but_composer(*old(self), *final(self)),
            old(self).offset > 0 ==> {
                &&& final(self).content@ == delete_char_before(
                    old(self).content@,
                    old(self).offset as int,
                )
                &&& final(self).offset == old(self).offset - 1
            },
            old(self).offset == 0 ==> *final(self) == *old(self),
    {
        if self.offset > 0 {
            let n = self.content.as_str().unicode_len();
            let new_content = String::from_str(
                self.content.as_str().substring_char(0, self.offset - 1),
            ).concat(self.content.as_str().substring_char(self.offset, n));
            self.content = new_content;
            self.offset = self.offset - 1;
            proof {
                assert(self.content@ =~= delete_char_before(
                    old(self).content@,
                    old(self).offset as int,
                ));
            }
        }
    }
}

/// The display name a channel-list entry gets: the backend's name with the
/// channel kind in parentheses beside it.
pub open spec fn channel_display_name(info: ChannelInfo) -> Seq<char> {
    info.name@ + " ("@ + info.kind@ + ")"@
}

/// `i` is the position of the first server carrying the given identity.
pub open spec fn is_first_server_with(servers: Seq<Server>, id: u64, i: int) -> bool {
    &&& 0 <= i < servers.len()
    &&& servers[i].info.id == id
    &&& forall|j: int| 0 <= j < i ==> (#[trigger] servers[j]).info.id != id
}

/// Some server carries the given identity.
pub open spec fn server_exists(servers: Seq<Server>, id: u64) -> bool {
    exists|i: int| 0 <= i < servers.len() && (#[trigger] servers[i]).info.id == id
}

/// The channels a channel-list event installs: the received entries in
/// order, each shown with its kind and starting with an empty buffer.
pub open spec fn channels_from(list: Seq<ChannelInfo>, chans: Seq<Channel>) -> bool {
    &&& chans.len() == list.len()
    &&& forall|i: int|
        0 <= i < list.len() ==> {
            let c = #[trigger] chans[i];
            c.id == list[i].id && c.name@ == channel_display_name(list[i]) && c.messages@.len()
                == 0
        }
}

/// What `set_servers` leaves behind: the received list reversed (so the
/// newest-listed entries surface first), every server fresh with an empty
/// channel list, the selection reset to the first entry, and one
/// channel-list request per server, in display order.
pub open spec fn set_servers_post(
    pre: AppState,
    post: AppState,
    list: Seq<ServerInfo>,
    cmds: Seq<MsgToDiscord>,
) -> bool {
    &&& same_but_servers(pre, post)
    &&& post.active_server == 0
    &&& post.servers@.len() == list.len()
    &&& forall|i: int|
        0 <= i < list.len() ==> {
            let s = #[trigger] post.servers@[i];
            s.info == list[list.len() - 1 - i] && s.channels@.len() == 0 && s.active_channel == 0
        }
    &&& cmds.len() == list.len()
    &&& forall|i: int|
        0 <= i < list.len() ==> #[trigger] cmds[i] == MsgToDiscord::GetChannels(
            list[list.len() - 1 - i].id,
        )
}

/// What `set_channels` leaves behind: the first server matching the owner
/// gets the received channels (selection reset); no match leaves the state
/// untouched — a benign race, not an error.
pub open spec fn set_channels_post(
    pre: AppState,
    post: AppState,
    owner: u64,
    list: Seq<ChannelInfo>,
) -> bool {
    &&& same_but_servers(pre, post)
    &&& post.active_server == pre.active_server
    &&& !server_exists(pre.servers@, owner) ==> post == pre
    &&& forall|i: int|
        #[trigger] is_first_server_with(pre.servers@, owner, i) ==> {
            &&& post.servers@.len() == pre.servers@.len()
            &&& forall|j: int|
                0 <= j < pre.servers@.len() && j != i ==> post.servers@[j] == pre.servers@[j]
            &&& channels_from(list, post.servers@[i].channels@)
            &&& post.servers@[i].active_channel == 0
            &&& post.servers@[i].info == pre.servers@[i].info
        }
}

/// `(si, ci)` is the position of the first channel carrying the given
/// identity, scanning servers in order and each server's channels in order.
pub open spec fn is_first_channel_with(servers: Seq<Server>, cid: u64, si: int, ci: int) -> bool {
    &&& 0 <= si < servers.len()
    &&& 0 <= ci < servers[si].channels@.len()
    &&& servers[si].channels@[ci].id == cid
    &&& forall|s: int, c: int|
        0 <= s < si && 0 <= c < servers[s].channels@.len() ==> (#[trigger] servers[s].channels@[c]).id
            != cid
    &&& forall|c: int| 0 <= c < ci ==> (#[trigger] servers[si].channels@[c]).id != cid
}

/// Some channel of some server carries the given identity.
pub open spec fn channel_exists(servers: Seq<Server>, cid: u64) -> bool {
    exists|s: int, c: int|
        0 <= s < servers.len() && 0 <= c < servers[s].channels@.len() && (
        #[trigger] servers[s].channels@[c]).id == cid
}

/// The servers are unchanged except that the channel at `(si, ci)` got `msg`
/// appended to its buffer.
pub open spec fn appended_at(
    pre: Seq<Server>,
    post: Seq<Server>,
    si: int,
    ci: int,
    msg: ChatMessage,
) -> bool {
    &&& 0 <= si < pre.len()
    &&& 0 <= ci < pre[si].channels@.len()
    &&& post.len() == pre.len()
    &&& forall|s: int| 0 <= s < pre.len() && s != si ==> post[s] == pre[s]
    &&& post[si].info == pre[si].info
    &&& post[si].active_channel == pre[si].active_channel
    &&& post[si].channels@.len() == pre[si].channels@.len()
    &&& forall|c: int|
        0 <= c < pre[si].channels@.len() && c != ci ==> post[si].channels@[c]
            == pre[si].channels@[c]
    &&& post[si].channels@[ci].id == pre[si].channels@[ci].id
    &&& post[si].channels@[ci].name == pre[si].channels@[ci].name
    &&& post[si].channels@[ci].messages@ == pre[si].channels@[ci].messages@.push(msg)
}

/// What `store_message` leaves behind: the message lands in the first
/// channel matching its routing identity; with no such channel it is
/// dropped, leaving a note in the transcript instead.
pub open spec fn store_message_post(pre: AppState, post: AppState, msg: ChatMessage) -> bool {
    &&& post.content == pre.content
    &&& post.offset == pre.offset
    &&& post.scroll_pos == pre.scroll_pos
    &&& post.mode == pre.mode
    &&& post.mode_stack == pre.mode_stack
    &&& post.active_server == pre.active_server
    &&& channel_exists(pre.servers@, msg.channel_id) ==> {
        &&& post.transcript == pre.transcript
        &&& exists|si: int, ci: int|
            #[trigger] is_first_channel_with(pre.servers@, msg.channel_id, si, ci) && appended_at(
                pre.servers@,
                post.servers@,
                si,
                ci,
                msg,
            )
    }
    &&& !channel_exists(pre.servers@, msg.channel_id) ==> {
        &&& post.servers == pre.servers
        &&& post.transcript@ == pre.transcript@.push(
            SystemMessage { username: msg.author, content: msg.content },
        )
    }
}

impl AppState {
    /// Replace the server collection with the received list. The list is
    /// stored reversed, so the newest-listed entries surface first; every
    /// server starts with an empty channel list, and one channel-list
    /// request per server is handed back for the backend.
    pub fn set_servers(&mut self, servers: Vec<ServerInfo>) -> (cmds: Vec<MsgToDiscord>)
        requires
            old(self).wf(),
        ensures
            final(self).wf(),
            set_servers_post(*old(self), *final(self), servers@, cmds@),
    {
        let ghost list = servers@;
        let mut rest = servers;
        self.servers.clear();
        self.active_server = 0;
        let mut cmds: Vec<MsgToDiscord> = Vec::new();
        while rest.len() > 0
            invariant
                old(self).wf(),
                self.content == old(self).content,
                self.offset == old(self).offset,
                self.scroll_pos == old(self).scroll_pos,
                self.mode == old(self).mode,
                self.mode_stack == old(self).mode_stack,
                self.transcript == old(self).transcript,
                self.active_server == 0,
                self.servers@.len() == cmds@.len(),
                self.servers@.len() + rest@.len() == list.len(),
                rest@ == list.take(rest@.len() as int),
                forall|i: int|
                    0 <= i < self.servers@.len() ==> {
                        let s = #[trigger] self.servers@[i];
                        s.info == list[list.len() - 1 - i] && s.channels@.len() == 0
                            && s.active_channel == 0
                    },
                forall|i: int|
                    0 <= i < cmds@.len() ==> #[trigger] cmds@[i] == MsgToDiscord::GetChannels(
                        list[list.len() - 1 - i].id,
                    ),
            decreases rest@.len(),
        {
            let ghost k = rest@.len() as int;
            let info = rest.pop().unwrap();
            proof {
                assert(info == list.take(k)[k - 1]);
                assert(rest@ =~= list.take(k - 1));
            }
            let id = info.id;
            self.servers.push(Server { channels: Vec::new(), active_channel: 0, info });
            cmds.push(MsgToDiscord::GetChannels(id));
        }
        cmds
    }

    /// Install the received channel list on the server matching `owner`,
    /// found by linear scan; silently a no-op when no server matches (the
    /// server may have gone away between the two round trips).
    pub fn set_channels(&mut self, owner: u64, channels: Vec<ChannelInfo>)
        requires
            old(self).wf(),
        ensures
            final(self).wf(),
            set_channels_post(*old(self), *final(self), owner, channels@),
    {
        let ghost list = channels@;
        let mut i: usize = 0;
        while i < self.servers.len() && self.servers[i].info.id != owner
            invariant
                old(self).wf(),
                *self == *old(self),
                i <= self.servers@.len(),
                forall|j: int| 0 <= j < i ==> (#[trigger] self.servers@[j]).info.id != owner,
            decreases self.servers@.len() - i,
        {
            i = i + 1;
        }
        if i == self.servers.len() {
            proof {
                assert(!server_exists(self.servers@, owner));
                assert(forall|t: int| !is_first_server_with(self.servers@, owner, t));
            }
            return ;
        }
        let mut new_channels: Vec<Channel> = Vec::new();
        let mut rest = channels;
        while rest.len() > 0
            invariant
                old(self).wf(),
                *self == *old(self),
                i < self.servers@.len(),
                self.servers@[i as int].info.id == owner,
                forall|j: int| 0 <= j < i ==> (#[trigger] self.servers@[j]).info.id != owner,
                new_channels@.len() + rest@.len() == list.len(),
                rest@ == list.skip(new_channels@.len() as int),
                channels_from(list.take(new_channels@.len() as int), new_channels@),
            decreases rest@.len(),
        {
            let ghost k = new_channels@.len() as int;
            let info = rest.remove(0);
            proof {
                assert(info == list[k]);
                assert(rest@ =~= list.skip(k + 1));
            }
            let name = String::from_str(info.name.as_str()).concat(" (").concat(
                info.kind.as_str(),
            ).concat(")");
            new_channels.push(Channel { name, id: info.id, messages: Vec::new() });
            proof {
                assert(channels_from(list.take(k + 1), new_channels@));
            }
        }
        proof {
            assert(list.take(list.len() as int) =~= list);
            assert(is_first_server_with(self.servers@, owner, i as int));
        }
        let server = &mut self.servers[i];
        server.channels = new_channels;
        server.active_channel = 0;
        proof {
            assert forall|t: int| #[trigger]
                is_first_server_with(old(self).servers@, owner, t) implies t == i as int by {
                if t < i as int {
                    assert(old(self).servers@[t].info.id != owner);
                }
                if t > i as int {
                    assert(old(self).servers@[i as int].info.id != owner);
                }
            }
        }
    }

    /// Append the message to the buffer of the first channel matching its
    /// routing identity; an unknown channel drops the message and logs it to
    /// the transcript (the channel list may simply not have arrived yet).
    pub fn store_message(&mut self, message: ChatMessage)
        requires
            old(self).wf(),
        ensures
            final(self).wf(),
            store_message_post(*old(self), *final(self), message),
    {
        let cid = message.channel_id;
        let mut si: usize = 0;
        while si < self.servers.len()
            invariant
                old(self).wf(),
                *self == *old(self),
                cid == message.channel_id,
                si <= self.servers@.len(),
                forall|s: int, c: int|
                    0 <= s < si && 0 <= c < self.servers@[s].channels@.len() ==> (
                    #[trigger] self.servers@[s].channels@[c]).id != cid,
            decreases self.servers@.len() - si,
        {
            let mut ci: usize = 0;
            while ci < self.servers[si].channels.len()
                invariant
                    old(self).wf(),
                    *self == *old(self),
                    cid == message.channel_id,
                    si < self.servers@.len(),
                    ci <= self.servers@[si as int].channels@.len(),
                    forall|s: int, c: int|
                        0 <= s < si && 0 <= c < self.servers@[s].channels@.len() ==> (
                        #[trigger] self.servers@[s].channels@[c]).id != cid,
                    forall|c: int|
                        0 <= c < ci ==> (#[trigger] self.servers@[si as int].channels@[c]).id
                            != cid,
                decreases self.servers@.len() - si,
                    self.servers@[si as int].channels@.len() - ci,
            {
                if self.servers[si].channels[ci].id == cid {
                    proof {
                        assert(is_first_channel_with(self.servers@, cid, si as int, ci as int));
                    }
                    let server = &mut self.servers[si];
                    let channel = &mut server.channels[ci];
                    channel.messages.push(message);
                    proof {
                        assert(channel_exists(old(self).servers@, cid));
                        assert(appended_at(
                            old(self).servers@,
                            self.servers@,
                            si as int,
                            ci as int,
                            message,
                        ));
                    }
                    return ;
                }
                ci = ci + 1;
            }
            si = si + 1;
        }
        proof {
            assert(!channel_exists(self.servers@, cid));
        }
        self.transcript.push(SystemMessage { username: message.author, content: message.content });
    }
}

/// The scroll offset after paging up (back) five lines, saturating at the
/// machine limit.
pub open spec fn scroll_up(p: int) -> int {
    if p + 5 <= usize::MAX {
        p + 5
    } else {
        usize::MAX as int
    }
}

/// The scroll offset after paging down five lines, stopping at the newest.
pub open spec fn scroll_down(p: int) -> int {
    if p >= 5 {
        p - 5
    } else {
        0
    }
}

/// A `switch_mode(m)` step was taken; all else is unchanged.
pub open spec fn switched(pre: AppState, post: AppState, m: Mode) -> bool {
    &&& same_but_modes(pre, post)
    &&& post.mode == switched_mode(m)
    &&& post.mode_stack@ == switched_stack(pre.mode, pre.mode_stack@, m)
}

/// A `prev_mode` pop was taken; all else is unchanged.
pub open spec fn popped(pre: AppState, post: AppState) -> bool {
    &&& same_but_modes(pre, post)
    &&& post.mode == popped_mode(pre.mode_stack@)
    &&& post.mode_stack@ == popped_stack(pre.mode_stack@)
}

/// The select modes swap into one another without touching the stack.
pub open spec fn swapped(pre: AppState, post: AppState, m: Mode) -> bool {
    &&& same_but_modes(pre, post)
    &&& post.mode == m
    &&& post.mode_stack == pre.mode_stack
}

/// Only the scroll offset changed, to the given value.
pub open spec fn scrolled(pre: AppState, post: AppState, p: int) -> bool {
    &&& post.content == pre.content
    &&& post.offset == pre.offset
    &&& post.servers == pre.servers
    &&& post.active_server == pre.active_server
    &&& post.mode == pre.mode
    &&& post.mode_stack == pre.mode_stack
    &&& post.transcript == pre.transcript
    &&& post.scroll_pos == p
}

/// A character was typed into the composer.
pub open spec fn inserted(pre: AppState, post: AppState, c: char) -> bool {
    &&& same_but_composer(pre, post)
    &&& (pre.content@.len() < usize::MAX ==> post.content@ == insert_char_at(
        pre.content@,
        pre.offset as int,
        c,
    ) && post.offset == pre.offset + 1)
    &&& (pre.content@.len() >= usize::MAX ==> post == pre)
}

/// A backspace was applied to the composer.
pub open spec fn deleted(pre: AppState, post: AppState) -> bool {
    &&& same_but_composer(pre, post)
    &&& (pre.offset > 0 ==> post.content@ == delete_char_before(pre.content@, pre.offset as int)
        && post.offset == pre.offset - 1)
    &&& (pre.offset == 0 ==> post == pre)
}

/// Escape from text entry: pop once; when that lands in Command, pop again
/// (the pending command is abandoned without running). The composer text is
/// kept.
pub open spec fn escaped_text_input(pre: AppState, post: AppState) -> bool {
    let stack = pre.mode_stack@;
    &&& same_but_modes(pre, post)
    &&& if popped_mode(stack) == Mode::Command {
        post.mode == popped_mode(popped_stack(stack)) && post.mode_stack@ == popped_stack(
            popped_stack(stack),
        )
    } else {
        post.mode == popped_mode(stack) && post.mode_stack@ == popped_stack(stack)
    }
}

/// The server selection moved one step (`forward` tells which way),
/// wrapping; an empty list stays put.
pub open spec fn server_stepped(pre: AppState, post: AppState, forward: bool) -> bool {
    &&& same_but_servers(pre, post)
    &&& post.servers == pre.servers
    &&& post.active_server == if forward {
        next_index(pre.active_server as int, pre.servers@.len() as int)
    } else {
        prev_index(pre.active_server as int, pre.servers@.len() as int)
    }
}

/// The channel selection of the active server moved one step; with no
/// server at all, nothing happens.
pub open spec fn channel_stepped(pre: AppState, post: AppState, forward: bool) -> bool {
    if pre.servers@.len() == 0 {
        post == pre
    } else {
        let i = pre.active_server as int;
        let s = pre.servers@[i];
        let idx = if forward {
            next_index(s.active_channel as int, s.channels@.len() as int)
        } else {
            prev_index(s.active_channel as int, s.channels@.len() as int)
        };
        &&& same_but_servers(pre, post)
        &&& post.active_server == pre.active_server
        &&& post.servers@ == pre.servers@.update(
            i,
            (Server { channels: s.channels, active_channel: idx as usize, info: s.info }),
        )
    }
}

/// What a committed command does: `q` quits (Exiting mode, logout command);
/// anything else is echoed back as unknown and the mode pops back.
pub open spec fn perform_command_post(
    pre: AppState,
    post: AppState,
    command: String,
    cmds: Seq<MsgToDiscord>,
) -> bool {
    if command@ == "q"@ {
        &&& same_but_modes(pre, post)
        &&& post.mode == Mode::Exiting
        &&& post.mode_stack == pre.mode_stack
        &&& cmds.len() == 1 && cmds[0] == MsgToDiscord::Logout
    } else {
        &&& same_but_modes(pre, post)
        &&& post.mode == popped_mode(pre.mode_stack@)
        &&& post.mode_stack@ == popped_stack(pre.mode_stack@)
        &&& cmds.len() == 1 && (cmds[0] matches MsgToDiscord::Echo(t) && t@ == "Unknown command "@
            + command@)
    }
}

/// What committing the composer does: the text goes out as a chat message
/// in Normal mode, runs as a command in Command mode, and is discarded in
/// any other mode; the composer clears in every case.
pub open spec fn process_text_input_post(
    pre: AppState,
    post: AppState,
    cmds: Seq<MsgToDiscord>,
) -> bool {
    &&& post.content@ == Seq::<char>::empty()
    &&& post.offset == 0
    &&& post.scroll_pos == pre.scroll_pos
    &&& post.servers == pre.servers
    &&& post.active_server == pre.active_server
    &&& match pre.mode {
        Mode::Normal => {
            &&& post.mode == pre.mode
            &&& post.mode_stack == pre.mode_stack
            &&& post.transcript == pre.transcript
            &&& if pre.has_active_channel() {
                cmds.len() == 1 && (cmds[0] matches MsgToDiscord::SendMessage(id, t) && id
                    == pre.active_channel_id() && t@ == pre.content@)
            } else {
                cmds.len() == 0
            }
        },
        Mode::Command => {
            if pre.content@ == "q"@ {
                &&& post.mode == Mode::Exiting
                &&& post.mode_stack == pre.mode_stack
                &&& post.transcript == pre.transcript
                &&& cmds.len() == 1 && cmds[0] == MsgToDiscord::Logout
            } else {
                &&& post.mode == popped_mode(pre.mode_stack@)
                &&& post.mode_stack@ == popped_stack(pre.mode_stack@)
                &&& post.transcript == pre.transcript
                &&& cmds.len() == 1 && (cmds[0] matches MsgToDiscord::Echo(t) && t@
                    == "Unknown command "@ + pre.content@)
            }
        },
        _ => {
            &&& post.mode == pre.mode
            &&& post.mode_stack == pre.mode_stack
            &&& post.transcript == pre.transcript
            &&& cmds.len() == 0
        },
    }
}

/// The effect of enter in TextInput: TextInput pops, then the text is
/// dispatched per the mode returned to, as `process_text_input_post` says.
pub open spec fn committed(pre: AppState, post: AppState, cmds: Seq<MsgToDiscord>) -> bool {
    let m = popped_mode(pre.mode_stack@);
    let stack1 = popped_stack(pre.mode_stack@);
    &&& post.content@ == Seq::<char>::empty()
    &&& post.offset == 0
    &&& post.scroll_pos == pre.scroll_pos
    &&& post.servers == pre.servers
    &&& post.active_server == pre.active_server
    &&& match m {
        Mode::Normal => {
            &&& post.mode == Mode::Normal
            &&& post.mode_stack@ == stack1
            &&& post.transcript == pre.transcript
            &&& if pre.has_active_channel() {
                cmds.len() == 1 && (cmds[0] matches MsgToDiscord::SendMessage(id, t) && id
                    == pre.active_channel_id() && t@ == pre.content@)
            } else {
                cmds.len() == 0
            }
        },
        Mode::Command => {
            if pre.content@ == "q"@ {
                &&& post.mode == Mode::Exiting
                &&& post.mode_stack@ == stack1
                &&& post.transcript == pre.transcript
                &&& cmds.len() == 1 && cmds[0] == MsgToDiscord::Logout
            } else {
                &&& post.mode == popped_mode(stack1)
                &&& post.mode_stack@ == popped_stack(stack1)
                &&& post.transcript == pre.transcript
                &&& cmds.len() == 1 && (cmds[0] matches MsgToDiscord::Echo(t) && t@
                    == "Unknown command "@ + pre.content@)
            }
        },
        _ => {
            &&& post.mode == m
            &&& post.mode_stack@ == stack1
            &&& post.transcript == pre.transcript
            &&& cmds.len() == 0
        },
    }
}

/// The full contract of one key press: what every mode does with every key.
pub open spec fn handle_key_post(
    pre: AppState,
    post: AppState,
    key: Key,
    cmds: Seq<MsgToDiscord>,
) -> bool {
    match pre.mode {
        Mode::Normal => match key {
            Key::Char(c) => {
                if c == 'i' {
                    switched(pre, post, Mode::TextInput) && cmds.len() == 0
                } else if c == ':' {
                    switched(pre, post, Mode::Command) && cmds.len() == 0
                } else if c == 's' {
                    switched(pre, post, Mode::ServerSelect) && cmds.len() == 0
                } else if c == 'c' {
                    switched(pre, post, Mode::ChannelSelect) && cmds.len() == 0
                } else {
                    post == pre && cmds.len() == 0
                }
            },
            Key::Ctrl(c) => {
                if c == 'u' {
                    scrolled(pre, post, scroll_up(pre.scroll_pos as int)) && cmds.len() == 0
                } else if c == 'd' {
                    scrolled(pre, post, scroll_down(pre.scroll_pos as int)) && cmds.len() == 0
                } else {
                    post == pre && cmds.len() == 0
                }
            },
            _ => post == pre && cmds.len() == 0,
        },
        Mode::TextInput => match key {
            Key::Char(c) => {
                if c == '\n' {
                    committed(pre, post, cmds)
                } else {
                    inserted(pre, post, c) && cmds.len() == 0
                }
            },
            Key::Backspace => deleted(pre, post) && cmds.len() == 0,
            Key::Esc => escaped_text_input(pre, post) && cmds.len() == 0,
            _ => post == pre && cmds.len() == 0,
        },
        Mode::ChannelSelect => match key {
            Key::Char(c) => {
                if c == '\t' {
                    swapped(pre, post, Mode::ServerSelect) && cmds.len() == 0
                } else if c == 'j' {
                    channel_stepped(pre, post, true) && cmds.len() == 0
                } else if c == 'k' {
                    channel_stepped(pre, post, false) && cmds.len() == 0
                } else {
                    post == pre && cmds.len() == 0
                }
            },
            Key::Esc => popped(pre, post) && cmds.len() == 0,
            _ => post == pre && cmds.len() == 0,
        },
        Mode::ServerSelect => match key {
            Key::Char(c) => {
                if c == '\t' {
                    swapped(pre, post, Mode::ChannelSelect) && cmds.len() == 0
                } else if c == 'j' {
                    server_stepped(pre, post, true) && cmds.len() == 0
                } else if c == 'k' {
                    server_stepped(pre, post, false) && cmds.len() == 0
                } else {
                    post == pre && cmds.len() == 0
                }
            },
            Key::Esc => popped(pre, post) && cmds.len() == 0,
            _ => post == pre && cmds.len() == 0,
        },
        Mode::Command => match key {
            Key::Char(c) => {
                if c == 'q' {
                    &&& same_but_modes(pre, post)
                    &&& post.mode == Mode::Exiting
                    &&& post.mode_stack == pre.mode_stack
                    &&& cmds.len() == 1 && cmds[0] == MsgToDiscord::Logout
                } else {
                    post == pre && cmds.len() == 1 && (cmds[0] matches MsgToDiscord::Echo(t) && t@
                        == "Unsupported key"@)
                }
            },
            Key::Esc => popped(pre, post) && cmds.len() == 0,
            _ => post == pre && cmds.len() == 1 && (cmds[0] matches MsgToDiscord::Echo(t) && t@
                == "Unsupported key"@),
        },
        Mode::Exiting => post == pre && cmds.len() == 0,
    }
}

/// One transcript line was appended, carrying the echoed text under the
/// backend bridge's name; all else is unchanged.
pub open spec fn echo_logged(pre: AppState, post: AppState, text: String) -> bool {
    &&& post.content == pre.content
    &&& post.offset == pre.offset
    &&& post.scroll_pos == pre.scroll_pos
    &&& post.servers == pre.servers
    &&& post.active_server == pre.active_server
    &&& post.mode == pre.mode
    &&& post.mode_stack == pre.mode_stack
    &&& post.transcript@.len() == pre.transcript@.len() + 1
    &&& post.transcript@.drop_last() == pre.transcript@
    &&& post.transcript@.last().username@ == "DiscordProvider"@
    &&& post.transcript@.last().content == text
}

/// The full contract of one backend event.
pub open spec fn handle_event_post(
    pre: AppState,
    post: AppState,
    event: MsgFromDiscord,
    cmds: Seq<MsgToDiscord>,
    exit: bool,
) -> bool {
    match event {
        MsgFromDiscord::Servers(list) => set_servers_post(pre, post, list@, cmds) && !exit,
        MsgFromDiscord::Channels(owner, list) => set_channels_post(pre, post, owner, list@)
            && cmds.len() == 0 && !exit,
        MsgFromDiscord::ChatMsg(m) => store_message_post(pre, post, m) && cmds.len() == 0 && !exit,
        MsgFromDiscord::EchoResponse(text) => echo_logged(pre, post, text) && cmds.len() == 0
            && !exit,
        MsgFromDiscord::Exit => post == pre && cmds.len() == 0 && exit,
    }
}

impl AppState {
    /// Enter `new_mode`, pushing the outgoing mode onto the stack; entering
    /// Command nests straight into TextInput with Command pushed above it.
    pub fn switch_mode(&mut self, new_mode: Mode)
        requires
            old(self).wf(),
        ensures
            final(self).wf(),
            switched(*old(self), *final(self), new_mode),
    {
        let old_mode = self.mode;
        self.mode = new_mode;
        self.mode_stack.push(old_mode);
        if self.mode == Mode::Command {
            self.mode = Mode::TextInput;
            self.mode_stack.push(Mode::Command);
        }
    }

    /// Return to the mode on top of the stack; an empty stack means Normal,
    /// never an error.
    pub fn prev_mode(&mut self)
        requires
            old(self).wf(),
        ensures
            final(self).wf(),
            popped(*old(self), *final(self)),
    {
        match self.mode_stack.pop() {
            Some(m) => {
                self.mode = m;
            },
            None => {
                self.mode = Mode::Normal;
            },
        }
    }

    /// Run a committed command line; only called with Command mode active.
    pub fn perform_command(&mut self, command: String) -> (cmds: Vec<MsgToDiscord>)
        requires
            old(self).wf(),
            old(self).mode == Mode::Command,
        ensures
            final(self).wf(),
            perform_command_post(*old(self), *final(self), command, cmds@),
    {
        let mut cmds: Vec<MsgToDiscord> = Vec::new();
        let q = String::from_str("q");
        if command == q {
            let cmd = self.quit();
            cmds.push(cmd);
        } else {
            let text = String::from_str("Unknown command ").concat(command.as_str());
            let cmd = self.print(text);
            cmds.push(cmd);
            self.prev_mode();
        }
        cmds
    }

    /// Dispatch the committed composer text according to the current mode
    /// (the one TextInput returned to): Normal sends it as a chat message,
    /// Command runs it as a command, anything else discards it. The
    /// composer clears in every case.
    pub fn process_text_input(&mut self) -> (cmds: Vec<MsgToDiscord>)
        requires
            old(self).wf(),
        ensures
            final(self).wf(),
            process_text_input_post(*old(self), *final(self), cmds@),
    {
        let text = self.content.clone();
        self.content = String::new();
        self.offset = 0;
        match self.mode {
            Mode::Normal => {
                let mut cmds: Vec<MsgToDiscord> = Vec::new();
                match self.send_message(text) {
                    Some(cmd) => {
                        cmds.push(cmd);
                    },
                    None => {},
                }
                cmds
            },
            Mode::Command => self.perform_command(text),
            _ => Vec::new(),
        }
    }

    /// Interpret one key press in the current mode: mutate the state and
    /// hand back the commands to send to the backend.
    pub fn handle_key(&mut self, key: Key) -> (cmds: Vec<MsgToDiscord>)
        requires
            old(self).wf(),
        ensures
            final(self).wf(),
            handle_key_post(*old(self), *final(self), key, cmds@),
    {
        match self.mode {
            Mode::Normal => {
                match key {
                    Key::Char(c) => {
                        if c == 'i' {
                            self.switch_mode(Mode::TextInput);
                        } else if c == ':' {
                            self.switch_mode(Mode::Command);
                        } else if c == 's' {
                            self.switch_mode(Mode::ServerSelect);
                        } else if c == 'c' {
                            self.switch_mode(Mode::ChannelSelect);
                        }
                    },
                    Key::Ctrl(c) => {
                        if c == 'u' {
                            if self.scroll_pos <= usize::MAX - 5 {
                                self.scroll_pos = self.scroll_pos + 5;
                            } else {
                                self.scroll_pos = usize::MAX;
                            }
                        } else if c == 'd' {
                            if self.scroll_pos >= 5 {
                                self.scroll_pos = self.scroll_pos - 5;
                            } else {
                                self.scroll_pos = 0;
                            }
                        }
                    },
                    _ => {},
                }
                Vec::new()
            },
            Mode::TextInput => {
                match key {
                    Key::Char(c) => {
                        if c == '\n' {
                            self.prev_mode();
                            return self.process_text_input();
                        } else {
                            self.add_character(c);
                        }
                    },
                    Key::Backspace => {
                        self.remove_character();
                    },
                    Key::Esc => {
                        self.prev_mode();
                        if self.mode == Mode::Command {
                            self.prev_mode();
                        }
                    },
                    _ => {},
                }
                Vec::new()
            },
            Mode::ChannelSelect => {
                match key {
                    Key::Esc => {
                        self.prev_mode();
                    },
                    Key::Char(c) => {
                        if c == '\t' {
                            self.mode = Mode::ServerSelect;
                        } else if c == 'k' {
                            if self.servers.len() > 0 {
                                let s = self.active_server();
                                s.prev_channel();
                            }
                        } else if c == 'j' {
                            if self.servers.len() > 0 {
                                let s = self.active_server();
                                s.next_channel();
                            }
                        }
                    },
                    _ => {},
                }
                Vec::new()
            },
            Mode::ServerSelect => {
                match key {
                    Key::Esc => {
                        self.prev_mode();
                    },
                    Key::Char(c) => {
                        if c == '\t' {
                            self.mode = Mode::ChannelSelect;
                        } else if c == 'k' {
                            self.prev_server();
                        } else if c == 'j' {
                            self.next_server();
                        }
                    },
                    _ => {},
                }
                Vec::new()
            },
            Mode::Command => {
                match key {
                    Key::Esc => {
                        self.prev_mode();
                        Vec::new()
                    },
                    Key::Char(c) => {
                        if c == 'q' {
                            let cmd = self.quit();
                            let mut cmds: Vec<MsgToDiscord> = Vec::new();
                            cmds.push(cmd);
                            cmds
                        } else {
                            let cmd = self.print(String::from_str("Unsupported key"));
                            let mut cmds: Vec<MsgToDiscord> = Vec::new();
                            cmds.push(cmd);
                            cmds
                        }
                    },
                    _ => {
                        let cmd = self.print(String::from_str("Unsupported key"));
                        let mut cmds: Vec<MsgToDiscord> = Vec::new();
                        cmds.push(cmd);
                        cmds
                    },
                }
            },
            Mode::Exiting => Vec::new(),
        }
    }

    /// Apply one backend event: server and channel lists install
    /// themselves, chat messages are routed to their channel, echoes land
    /// in the transcript, and the logout acknowledgement asks the caller to
    /// leave its event loop (the second half of the returned pair).
    pub fn handle_event(&mut self, event: MsgFromDiscord) -> (r: (Vec<MsgToDiscord>, bool))
        requires
            old(self).wf(),
        ensures
            final(self).wf(),
            handle_event_post(*old(self), *final(self), event, r.0@, r.1),
    {
        match event {
            MsgFromDiscord::Servers(list) => {
                let cmds = self.set_servers(list);
                (cmds, false)
            },
            MsgFromDiscord::Channels(owner, list) => {
                self.set_channels(owner, list);
                (Vec::new(), false)
            },
            MsgFromDiscord::ChatMsg(m) => {
                self.store_message(m);
                (Vec::new(), false)
            },
            MsgFromDiscord::EchoResponse(text) => {
                self.transcript.push(
                    SystemMessage { username: String::from_str("DiscordProvider"), content: text },
                );
                proof {
                    assert(self.transcript@.drop_last() =~= old(self).transcript@);
                }
                (Vec::new(), false)
            },
            MsgFromDiscord::Exit => (Vec::new(), true),
        }
    }
}

/// Law: inserting a character and then deleting at the same spot restores
/// both the composer buffer and the cursor offset. `mid` is the state that
/// `add_character(chr)` leaves, `post` the state after `remove_character`.
pub proof fn lemma_composer_insert_then_delete(
    pre: AppState,
    mid: AppState,
    post: AppState,
    chr: char,
)
    requires
        pre.wf(),
        pre.content@.len() < usize::MAX,
        mid.content@ == insert_char_at(pre.content@, pre.offset as int, chr),
        mid.offset == pre.offset + 1,
        post.content@ == delete_char_before(mid.content@, mid.offset as int),
        post.offset == mid.offset - 1,
    ensures
        post.content@ == pre.content@,
        post.offset == pre.offset,
{
    lemma_insert_then_delete(pre.content@, pre.offset as int, chr);
}

} // verus!
