use termchat::bridge::ChannelInfo;
use termchat::bridge::MsgFromDiscord;
use termchat::bridge::MsgToDiscord;
use termchat::bridge::ServerInfo;
use termchat::keys::Key;
use termchat::modes::Mode;
use termchat::state::AppState;

fn info(id: u64, name: &str) -> ServerInfo {
    ServerInfo {
        id,
        name: String::from(name),
    }
}

fn chan(id: u64, name: &str) -> ChannelInfo {
    ChannelInfo {
        id,
        name: String::from(name),
        kind: String::from("Text"),
    }
}

#[test]
fn server_cycling_returns_to_start() {
    let mut st = AppState::new();
    st.set_servers(vec![info(1, "A"), info(2, "B"), info(3, "C")]);
    assert_eq!(st.active_server, 0);
    st.next_server();
    st.next_server();
    st.next_server();
    assert_eq!(st.active_server, 0);
    st.next_server();
    assert_eq!(st.active_server, 1);
    st.next_server();
    st.next_server();
    st.next_server();
    assert_eq!(st.active_server, 1);
}

#[test]
fn server_selection_wraps_at_edges() {
    let mut st = AppState::new();
    st.set_servers(vec![info(1, "A"), info(2, "B"), info(3, "C")]);
    assert_eq!(st.active_server, 0);
    st.prev_server();
    assert_eq!(st.active_server, 2);
    st.next_server();
    assert_eq!(st.active_server, 0);
}

#[test]
fn selection_noop_on_empty_list() {
    let mut st = AppState::new();
    st.next_server();
    assert_eq!(st.active_server, 0);
    st.prev_server();
    assert_eq!(st.active_server, 0);
    // channel selection with no servers at all is a no-op too
    assert!(st.handle_key(Key::Char('c')).is_empty());
    assert!(st.handle_key(Key::Char('j')).is_empty());
    assert!(st.handle_key(Key::Char('k')).is_empty());
    assert_eq!(st.active_server, 0);
    assert!(st.servers.is_empty());
}

#[test]
fn insert_then_delete_restores_composer() {
    let mut st = AppState::new();
    st.add_character('a');
    st.add_character('b');
    assert_eq!(st.content, "ab");
    assert_eq!(st.offset, 2);
    st.offset = 1;
    st.add_character('x');
    assert_eq!(st.content, "axb");
    assert_eq!(st.offset, 2);
    st.remove_character();
    assert_eq!(st.content, "ab");
    assert_eq!(st.offset, 1);
}

#[test]
fn backspace_at_start_is_noop() {
    let mut st = AppState::new();
    st.remove_character();
    assert_eq!(st.content, "");
    assert_eq!(st.offset, 0);
    st.add_character('a');
    st.offset = 0;
    st.remove_character();
    assert_eq!(st.content, "a");
    assert_eq!(st.offset, 0);
}

#[test]
fn composer_edits_are_per_character() {
    let mut st = AppState::new();
    st.add_character('\u{e9}'); // é
    st.add_character('\u{fc}'); // ü
    st.add_character('z');
    assert_eq!(st.content, "\u{e9}\u{fc}z");
    assert_eq!(st.offset, 3);
    st.remove_character();
    assert_eq!(st.content, "\u{e9}\u{fc}");
    assert_eq!(st.offset, 2);
}

#[test]
fn set_servers_reverses_and_requests_channels() {
    let mut st = AppState::new();
    let cmds = st.set_servers(vec![info(1, "A"), info(2, "B")]);
    assert_eq!(
        cmds,
        vec![MsgToDiscord::GetChannels(2), MsgToDiscord::GetChannels(1)]
    );
    assert_eq!(st.servers.len(), 2);
    assert_eq!(st.servers[0].info.id, 2);
    assert_eq!(st.servers[0].info.name, "B");
    assert_eq!(st.servers[1].info.id, 1);
    assert!(st.servers[0].channels.is_empty());
    assert!(st.servers[1].channels.is_empty());
}

#[test]
fn set_channels_targets_matching_server() {
    let mut st = AppState::new();
    st.set_servers(vec![info(1, "A"), info(2, "B")]);
    st.set_channels(2, vec![chan(10, "chan1")]);
    // servers are stored reversed, so B sits first
    assert_eq!(st.servers[0].info.id, 2);
    assert_eq!(st.servers[0].channels.len(), 1);
    assert_eq!(st.servers[0].channels[0].id, 10);
    assert_eq!(st.servers[0].channels[0].name, "chan1 (Text)");
    assert_eq!(st.servers[1].info.id, 1);
    assert!(st.servers[1].channels.is_empty());
}

#[test]
fn set_channels_for_unknown_server_is_noop() {
    let mut st = AppState::new();
    st.set_servers(vec![info(1, "A")]);
    st.set_channels(99, vec![chan(10, "chan1")]);
    assert!(st.servers[0].channels.is_empty());
    assert!(st.transcript.is_empty());
}

#[test]
fn compose_and_send_message() {
    let mut st = AppState::new();
    st.set_servers(vec![info(1, "A")]);
    st.set_channels(1, vec![chan(7, "general")]);
    assert!(st.handle_key(Key::Char('i')).is_empty());
    assert_eq!(st.mode, Mode::TextInput);
    assert!(st.handle_key(Key::Char('h')).is_empty());
    assert!(st.handle_key(Key::Char('i')).is_empty());
    let cmds = st.handle_key(Key::Char('\n'));
    assert_eq!(
        cmds,
        vec![MsgToDiscord::SendMessage(7, String::from("hi"))]
    );
    assert_eq!(st.mode, Mode::Normal);
    assert_eq!(st.content, "");
    assert_eq!(st.offset, 0);
    assert!(st.mode_stack.is_empty());
}

#[test]
fn sending_without_a_channel_emits_nothing() {
    let mut st = AppState::new();
    st.handle_key(Key::Char('i'));
    st.handle_key(Key::Char('h'));
    let cmds = st.handle_key(Key::Char('\n'));
    assert!(cmds.is_empty());
    assert_eq!(st.mode, Mode::Normal);
    assert_eq!(st.content, "");
}

#[test]
fn quit_command_exits_with_logout() {
    let mut st = AppState::new();
    assert!(st.handle_key(Key::Char(':')).is_empty());
    assert_eq!(st.mode, Mode::TextInput);
    assert_eq!(st.mode_stack, vec![Mode::Normal, Mode::Command]);
    assert!(st.handle_key(Key::Char('q')).is_empty());
    let cmds = st.handle_key(Key::Char('\n'));
    assert_eq!(cmds, vec![MsgToDiscord::Logout]);
    assert_eq!(st.mode, Mode::Exiting);
}

#[test]
fn unknown_command_echoes_and_returns_to_normal() {
    let mut st = AppState::new();
    st.handle_key(Key::Char(':'));
    st.handle_key(Key::Char('x'));
    let cmds = st.handle_key(Key::Char('\n'));
    assert_eq!(
        cmds,
        vec![MsgToDiscord::Echo(String::from("Unknown command x"))]
    );
    assert_eq!(st.mode, Mode::Normal);
    assert!(st.mode_stack.is_empty());
    assert_eq!(st.content, "");
}

#[test]
fn escape_leaves_text_entry_keeping_text() {
    let mut st = AppState::new();
    st.handle_key(Key::Char('i'));
    st.handle_key(Key::Char('h'));
    st.handle_key(Key::Char('i'));
    assert!(st.handle_key(Key::Esc).is_empty());
    assert_eq!(st.mode, Mode::Normal);
    assert!(st.mode_stack.is_empty());
    assert_eq!(st.content, "hi");
}

#[test]
fn escape_from_command_input_abandons_command() {
    let mut st = AppState::new();
    st.handle_key(Key::Char(':'));
    st.handle_key(Key::Char('q'));
    let cmds = st.handle_key(Key::Esc);
    assert!(cmds.is_empty());
    // popping TextInput lands in Command, which pops again to Normal
    assert_eq!(st.mode, Mode::Normal);
    assert!(st.mode_stack.is_empty());
    assert_ne!(st.mode, Mode::Exiting);
}

#[test]
fn pop_with_empty_stack_yields_normal() {
    let mut st = AppState::new();
    st.mode = Mode::TextInput;
    st.prev_mode();
    assert_eq!(st.mode, Mode::Normal);
    assert!(st.mode_stack.is_empty());
    st.prev_mode();
    assert_eq!(st.mode, Mode::Normal);
    assert!(st.mode_stack.is_empty());
}

#[test]
fn select_modes_swap_with_tab() {
    let mut st = AppState::new();
    st.set_servers(vec![info(1, "A")]);
    st.handle_key(Key::Char('s'));
    assert_eq!(st.mode, Mode::ServerSelect);
    assert_eq!(st.mode_stack, vec![Mode::Normal]);
    st.handle_key(Key::Char('\t'));
    assert_eq!(st.mode, Mode::ChannelSelect);
    assert_eq!(st.mode_stack, vec![Mode::Normal]);
    st.handle_key(Key::Char('\t'));
    assert_eq!(st.mode, Mode::ServerSelect);
    st.handle_key(Key::Esc);
    assert_eq!(st.mode, Mode::Normal);
    assert!(st.mode_stack.is_empty());
}

#[test]
fn channel_select_moves_selection() {
    let mut st = AppState::new();
    st.set_servers(vec![info(1, "A")]);
    st.set_channels(1, vec![chan(7, "one"), chan(8, "two")]);
    st.handle_key(Key::Char('c'));
    assert_eq!(st.mode, Mode::ChannelSelect);
    st.handle_key(Key::Char('j'));
    assert_eq!(st.servers[0].active_channel, 1);
    st.handle_key(Key::Char('j'));
    assert_eq!(st.servers[0].active_channel, 0);
    st.handle_key(Key::Char('k'));
    assert_eq!(st.servers[0].active_channel, 1);
}

#[test]
fn scroll_keys_move_viewport() {
    let mut st = AppState::new();
    assert!(st.handle_key(Key::Ctrl('u')).is_empty());
    assert_eq!(st.scroll_pos, 5);
    st.handle_key(Key::Ctrl('u'));
    assert_eq!(st.scroll_pos, 10);
    st.handle_key(Key::Ctrl('d'));
    assert_eq!(st.scroll_pos, 5);
    st.handle_key(Key::Ctrl('d'));
    assert_eq!(st.scroll_pos, 0);
    st.handle_key(Key::Ctrl('d'));
    assert_eq!(st.scroll_pos, 0);
}

#[test]
fn scroll_saturates_at_the_limits() {
    let mut st = AppState::new();
    st.scroll_pos = usize::MAX - 2;
    st.handle_key(Key::Ctrl('u'));
    assert_eq!(st.scroll_pos, usize::MAX);
    st.handle_key(Key::Ctrl('u'));
    assert_eq!(st.scroll_pos, usize::MAX);
    st.scroll_pos = 3;
    st.handle_key(Key::Ctrl('d'));
    assert_eq!(st.scroll_pos, 0);
}

#[test]
fn unbound_keys_change_nothing() {
    let mut st = AppState::new();
    assert!(st.handle_key(Key::Char('z')).is_empty());
    assert!(st.handle_key(Key::Other).is_empty());
    assert!(st.handle_key(Key::Backspace).is_empty());
    assert_eq!(st.mode, Mode::Normal);
    assert_eq!(st.content, "");
    assert!(st.transcript.is_empty());
}
