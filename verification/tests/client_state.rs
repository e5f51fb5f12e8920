use ruggine::client::{App, AppResult, Command};
use ruggine::client_net::{missing_reply, push_to_result, reply_to_result, request_for};
use ruggine::protocol::{ClientMsg, GroupInfo, MessageInfo, PrivateChatInfo, ServerMsg, UserInfo};
use ruggine::screen::View;

fn msg(id: u128, sender: u128, content: &str) -> MessageInfo {
    MessageInfo { message_id: id, sender_id: sender, sender_username: "x".into(), content: content.into(), sent_at: 0 }
}

fn logged_in() -> App {
    let mut app = App::new();
    let cmd = app.apply_result(AppResult::LoginSuccess { token: 10, user_id: 1, username: "alice".into() });
    assert_eq!(cmd, vec![Command::StartListener { token: 10 }]);
    app
}

#[test]
fn view_defaults_to_home() {
    assert_eq!(View::default(), View::Home);
    assert_eq!(App::new().view, View::Home);
}

#[test]
fn login_shows_the_chat_list() {
    let app = logged_in();
    assert!(app.is_logged_in());
    assert_eq!(app.view, View::ChatList);
    assert_eq!(app.username.as_deref(), Some("alice"));
    assert_eq!(app.status, "");
    assert!(!app.is_loading);
}

#[test]
fn logout_forgets_everything() {
    let mut app = logged_in();
    app.private_chats.push(PrivateChatInfo { chat_id: 5, other_user_id: 2, other_username: "bob".into() });
    app.groups.push(GroupInfo { group_id: 6, name: "g".into() });
    app.current_messages.push(msg(1, 2, "hi"));
    app.chats_loaded = true;
    app.logout();
    assert!(!app.is_logged_in());
    assert_eq!(app.user_id, None);
    assert!(app.private_chats.is_empty() && app.groups.is_empty() && app.current_messages.is_empty());
    assert!(!app.chats_loaded);
    assert_eq!(app.view, View::Home);
}

#[test]
fn navigation_resets() {
    let mut app = logged_in();
    app.current_messages.push(msg(1, 2, "hi"));
    app.current_group_members.push(UserInfo { user_id: 2, username: "bob".into() });
    app.status = "x".into();
    app.nav(View::GroupChat(0));
    assert_eq!(app.current_messages.len(), 1);
    app.nav(View::ChatList);
    assert_eq!(app.current_messages.len(), 1);
    assert!(app.current_group_members.is_empty());
    app.nav(View::Register);
    assert!(app.current_messages.is_empty());
    assert_eq!(app.status, "");
}

#[test]
fn pushed_messages_land_once_in_the_open_chat() {
    let mut app = logged_in();
    app.private_chats.push(PrivateChatInfo { chat_id: 5, other_user_id: 2, other_username: "bob".into() });
    app.nav(View::PrivateChat(0));
    let push = |id: u128, sender: u128, chat: Option<u128>| AppResult::PushNewMessage {
        message: msg(id, sender, "hey"),
        chat_id: chat,
        group_id: None,
    };
    assert_eq!(app.apply_result(push(100, 2, Some(5))), vec![]);
    assert_eq!(app.current_messages.len(), 1);
    app.apply_result(push(100, 2, Some(5)));
    assert_eq!(app.current_messages.len(), 1);
    // Another chat, from another user: not shown here.
    app.apply_result(push(101, 3, Some(6)));
    assert_eq!(app.current_messages.len(), 1);
    // From the user this chat is with, without a chat identifier: shown.
    app.apply_result(push(102, 2, None));
    assert_eq!(app.current_messages.len(), 2);
    // The chat's identifier as a sender is no match.
    app.apply_result(push(103, 5, None));
    assert_eq!(app.current_messages.len(), 2);
}

#[test]
fn history_is_shown_oldest_first_and_members_follow() {
    let mut app = logged_in();
    app.groups.push(GroupInfo { group_id: 6, name: "g".into() });
    let cmds = app.open_group(0);
    assert_eq!(cmds, vec![Command::LoadGroupMessages { token: 10, group_id: 6 }, Command::LoadGroupMembers { token: 10, group_id: 6 }]);
    let cmd = app.apply_result(AppResult::MessagesLoaded { messages: vec![msg(3, 2, "c"), msg(2, 2, "b"), msg(1, 2, "a")] });
    let ids: Vec<u128> = app.current_messages.iter().map(|m| m.message_id).collect();
    assert_eq!(ids, vec![1, 2, 3]);
    assert_eq!(cmd, vec![Command::LoadGroupMembers { token: 10, group_id: 6 }]);
    assert!(!app.is_loading);
}

#[test]
fn results_update_the_status() {
    let mut app = logged_in();
    app.apply_result(AppResult::Error { message: "Accesso negato".into() });
    assert_eq!(app.status, "Errore: Accesso negato");
    let cmd = app.apply_result(AppResult::PrivateChatStarted { chat_id: 0xff });
    assert_eq!(cmd, vec![Command::LoadPrivateChats { token: 10 }]);
    assert_eq!(app.status, "Chat avviata: 00000000-0000-0000-0000-0000000000ff");
    assert!(app.is_loading);
    let cmd = app.apply_result(AppResult::PrivateChatsLoaded { chats: vec![] });
    assert_eq!(cmd, vec![Command::LoadGroups { token: 10 }]);
    assert_eq!(app.pending_chat, None);
    assert_eq!(app.status, "Loading groups...");
    app.apply_result(AppResult::GroupsLoaded { groups: vec![GroupInfo { group_id: 6, name: "g".into() }] });
    assert_eq!(app.status, "");
    assert!(!app.is_loading);
    app.new_group_name = "nuovo".into();
    let cmd = app.apply_result(AppResult::GroupCreated { group_id: 1 });
    assert_eq!(cmd, vec![Command::LoadGroups { token: 10 }]);
    assert_eq!(app.new_group_name, "");
    assert_eq!(app.status, "Gruppo creato: 00000000-0000-0000-0000-000000000001");
    app.apply_result(AppResult::RegisterSuccess);
    assert_eq!(app.view, View::Login);
    assert_eq!(app.status, "Registrato! Fai login.");
    assert!(!app.is_loading);
}

#[test]
fn a_started_chat_opens_once_listed() {
    let mut app = logged_in();
    let cmd = app.apply_result(AppResult::PrivateChatStarted { chat_id: 7 });
    assert_eq!(cmd, vec![Command::LoadPrivateChats { token: 10 }]);
    assert_eq!(app.pending_chat, Some(7));
    let chats = vec![
        PrivateChatInfo { chat_id: 5, other_user_id: 2, other_username: "bob".into() },
        PrivateChatInfo { chat_id: 7, other_user_id: 3, other_username: "carol".into() },
    ];
    let cmd = app.apply_result(AppResult::PrivateChatsLoaded { chats });
    assert_eq!(
        cmd,
        vec![Command::LoadPrivateMessages { token: 10, chat_id: 7 }, Command::LoadGroups { token: 10 }]
    );
    assert_eq!(app.view, View::PrivateChat(1));
    assert_eq!(app.pending_chat, None);
    assert!(app.is_loading);
}

#[test]
fn a_sent_message_clears_the_input() {
    let mut app = logged_in();
    app.message_input = "ciao".into();
    assert_eq!(app.apply_result(AppResult::MessageSent), vec![]);
    assert_eq!(app.message_input, "");
}

#[test]
fn results_from_before_logout_are_dropped() {
    let mut app = logged_in();
    let before = app.epoch;
    app.logout();
    assert_ne!(app.epoch, before);
    let cmds = app.receive(before, AppResult::LoginSuccess { token: 11, user_id: 1, username: "alice".into() });
    assert!(cmds.is_empty());
    assert!(!app.is_logged_in());
    assert_eq!(app.view, View::Home);
    let cmds = app.receive(app.epoch, AppResult::LoginSuccess { token: 12, user_id: 1, username: "alice".into() });
    assert_eq!(cmds, vec![Command::StartListener { token: 12 }]);
    assert!(app.is_logged_in());
}

#[test]
fn search_waits_for_the_text_to_rest() {
    let mut app = logged_in();
    app.search_query = "  bo ".into();
    app.search_edited(1000);
    assert_eq!(app.poll_search(1200), None);
    assert_eq!(app.poll_search(1301), Some(Command::Search { token: 10, query: "bo".into() }));
    assert_eq!(app.search_last_edit, None);
    app.search_query = "   ".into();
    app.search_results.push(UserInfo { user_id: 2, username: "bob".into() });
    app.search_edited(2000);
    assert!(app.search_results.is_empty());
}

#[test]
fn opening_chats_from_search_results() {
    let mut app = logged_in();
    let bob = UserInfo { user_id: 2, username: "bob".into() };
    assert_eq!(app.open_chat_with(&bob), Some(Command::StartPrivateChat { token: 10, other_username: "bob".into() }));
    assert_eq!(app.status, "Avvio chat con bob...");
    app.private_chats.push(PrivateChatInfo { chat_id: 5, other_user_id: 2, other_username: "bob".into() });
    assert_eq!(app.open_chat_with(&bob), Some(Command::LoadPrivateMessages { token: 10, chat_id: 5 }));
    assert_eq!(app.view, View::PrivateChat(0));
    let me = UserInfo { user_id: 1, username: "alice".into() };
    assert_eq!(app.open_chat_with(&me), None);
}

#[test]
fn sending_shows_the_message_at_once() {
    let mut app = logged_in();
    app.message_input = "   ".into();
    assert_eq!(app.send_private_message(5), None);
    assert_eq!(app.message_input, "   ");
    app.message_input = "ciao".into();
    assert_eq!(app.send_private_message(5), Some(Command::SendPrivateMessage { token: 10, chat_id: 5, content: "ciao".into() }));
    assert_eq!(app.message_input, "");
    assert_eq!(app.current_messages.len(), 1);
    assert_eq!(app.current_messages[0].content, "ciao");
    assert_eq!(app.current_messages[0].sender_id, 1);
}

#[test]
fn group_actions() {
    let mut app = logged_in();
    app.new_group_name = " ".into();
    assert_eq!(app.create_group_clicked(), None);
    app.new_group_name = "amici".into();
    assert_eq!(app.create_group_clicked(), Some(Command::CreateGroup { token: 10, name: "amici".into() }));
    assert_eq!(app.status, "Creazione gruppo amici...");
    assert_eq!(app.create_group_clicked(), None);
    app.search_query = "bo".into();
    assert_eq!(app.add_member_clicked(6, "bob".into()), Some(Command::AddGroupMember { token: 10, group_id: 6, username: "bob".into() }));
    assert_eq!(app.status, "Aggiunto bob");
    assert_eq!(app.search_query, "");
    app.toggle_group_info();
    assert!(app.show_group_info);
    app.search_query = "x".into();
    app.toggle_group_info();
    assert!(!app.show_group_info);
    assert_eq!(app.search_query, "");
}

#[test]
fn replies_become_results() {
    let login = ClientMsg::Login { username: "a".into(), password: "p".into() };
    let ok = reply_to_result(&login, Some(ServerMsg::LoginOk { session_token: 1, user_id: 2, username: "a".into() }));
    assert_eq!(ok, AppResult::LoginSuccess { token: 1, user_id: 2, username: "a".into() });
    let err = reply_to_result(&login, Some(ServerMsg::Error { message: "Credenziali errate".into() }));
    assert_eq!(err, AppResult::Error { message: "Credenziali errate".into() });
    let odd = reply_to_result(&login, Some(ServerMsg::GroupMemberAdded));
    assert_eq!(odd, AppResult::Error { message: "Err".into() });
    assert_eq!(reply_to_result(&login, None), AppResult::Error { message: "Err".into() });
    let none = reply_to_result(&login, Some(missing_reply()));
    assert_eq!(none, AppResult::Error { message: "Nessuna risposta dal server".into() });
    let sent = reply_to_result(&ClientMsg::SendGroupMessage { token: 1, group_id: 2, content: "x".into() }, Some(ServerMsg::GroupMessageSent { message_id: 3 }));
    assert_eq!(sent, AppResult::MessageSent);
    assert_eq!(request_for(Command::LoadPrivateMessages { token: 1, chat_id: 2 }), ClientMsg::GetPrivateChatMessages { token: 1, chat_id: 2, limit: 50 });
    assert_eq!(request_for(Command::StartListener { token: 1 }), ClientMsg::Listen { token: 1 });
    assert_eq!(push_to_result(ServerMsg::PushGroupUpdated), Some(AppResult::PushGroupListUpdated));
    assert_eq!(push_to_result(ServerMsg::GroupMemberAdded), None);
}

#[test]
fn server_address_defaults() {
    let mut app = App::new();
    app.ensure_server_addr();
    assert_eq!(app.server_addr, "127.0.0.1:7878");
    app.server_addr = "10.0.0.1:1".into();
    app.ensure_server_addr();
    assert_eq!(app.server_addr, "10.0.0.1:1");
}
