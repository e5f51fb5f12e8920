//! What the client does when the user acts on its screens.

use vstd::prelude::*;
use crate::client::{App, AppV, Command, CommandV, begin_loading, command_view, nav_of, show_private_chat_of};
use crate::clock::now_unix;
use crate::keys::fresh_id;
use crate::protocol::{MessageInfo, MessageInfoV, UserInfo, UserInfoV};
use crate::screen;
use crate::text::{is_blank, is_blank_text, trim_text, trimmed};

verus! {

/// How long the search text must rest, in milliseconds, before it is sent.
pub const SEARCH_DEBOUNCE_MS: u64 = 300;

/// The server the client talks to unless told otherwise.
pub open spec fn default_server() -> Seq<char> {
    "127.0.0.1:7878"@
}

/// The search runs once its text has rested long enough: with a session, a
/// text that trims to something is sent trimmed, and an empty one clears
/// the results.
pub open spec fn poll_search_of(s: AppV, now_ms: u64) -> (AppV, Option<CommandV>) {
    match s.search_last_edit {
        Some(last) if now_ms > last && now_ms - last > SEARCH_DEBOUNCE_MS => {
            let s1 = AppV { search_last_edit: None, ..s };
            match s1.session_token {
                Some(token) => if trim_text(s1.search_query).len() > 0 {
                    (s1, Some(CommandV::Search { token, query: trim_text(s1.search_query) }))
                } else {
                    (AppV { search_results: Seq::empty(), last_search_completed: false, ..s1 }, None)
                },
                None => (s1, None),
            }
        },
        _ => (s, None),
    }
}

pub open spec fn search_edited_of(s: AppV, now_ms: u64) -> AppV {
    let s1 = AppV { search_last_edit: Some(now_ms), ..s };
    if is_blank_text(s1.search_query) {
        AppV { search_results: Seq::empty(), last_search_completed: false, ..s1 }
    } else {
        s1
    }
}

/// Whether `i` is the first private chat listed with `user`.
pub open spec fn first_chat_with(chats: Seq<crate::protocol::PrivateChatInfoV>, user: u128, i: int) -> bool {
    &&& 0 <= i < chats.len()
    &&& chats[i].other_user_id == user
    &&& forall|j: int| 0 <= j < i ==> (#[trigger] chats[j]).other_user_id != user
}

pub open spec fn open_chat_with_of(s: AppV, user: UserInfoV, found: Option<int>) -> (AppV, Option<CommandV>) {
    if s.user_id == Some(user.user_id) {
        (s, None)
    } else {
        match found {
            Some(idx) => {
                let s1 = nav_of(s, screen::View::PrivateChat(idx as usize));
                match s1.session_token {
                    Some(token) => (
                        AppV { is_loading: true, ..s1 },
                        Some(CommandV::LoadPrivateMessages { token, chat_id: s.private_chats[idx].chat_id }),
                    ),
                    None => (s1, None),
                }
            },
            None => match s.session_token {
                Some(token) => (
                    AppV {
                        is_loading: true,
                        status: "Avvio chat con "@ + user.username + "..."@,
                        ..s
                    },
                    Some(CommandV::StartPrivateChat { token, other_username: user.username }),
                ),
                None => (s, None),
            },
        }
    }
}

pub open spec fn create_group_clicked_of(s: AppV) -> (AppV, Option<CommandV>) {
    match s.session_token {
        Some(token) if !s.is_loading && !is_blank_text(s.new_group_name) => (
            AppV {
                is_loading: true,
                status: "Creazione gruppo "@ + s.new_group_name + "..."@,
                ..s
            },
            Some(CommandV::CreateGroup { token, name: s.new_group_name }),
        ),
        _ => (s, None),
    }
}

pub open spec fn open_group_of(s: AppV, idx: int) -> (AppV, Seq<CommandV>) {
    let s1 = nav_of(s, screen::View::GroupChat(idx as usize));
    let g = s.groups[idx].group_id;
    match s1.session_token {
        Some(token) => (
            AppV { is_loading: true, ..s1 },
            seq![
                CommandV::LoadGroupMessages { token, group_id: g },
                CommandV::LoadGroupMembers { token, group_id: g },
            ],
        ),
        None => (s1, Seq::empty()),
    }
}

pub open spec fn toggle_group_info_of(s: AppV) -> AppV {
    if s.show_group_info {
        AppV {
            show_group_info: false,
            search_query: Seq::empty(),
            search_results: Seq::empty(),
            ..s
        }
    } else {
        AppV { show_group_info: true, ..s }
    }
}

pub open spec fn group_search_changed_of(s: AppV) -> (AppV, Option<CommandV>) {
    match s.session_token {
        Some(token) => if is_blank_text(s.search_query) {
            (AppV { search_results: Seq::empty(), ..s }, None)
        } else {
            (s, Some(CommandV::Search { token, query: s.search_query }))
        },
        None => (s, None),
    }
}

pub open spec fn add_member_clicked_of(s: AppV, group_id: u128, username: Seq<char>) -> (AppV, Option<CommandV>) {
    let s1 = AppV { add_member_username: username, ..s };
    let (s2, cmd) = match s1.session_token {
        Some(token) => (
            AppV { is_loading: true, status: "Aggiunto "@ + username, ..s1 },
            Some(CommandV::AddGroupMember { token, group_id, username }),
        ),
        None => (s1, None),
    };
    (AppV { search_query: Seq::empty(), search_results: Seq::empty(), ..s2 }, cmd)
}

/// Sending what was typed: with a session, a text that is not blank is
/// taken from the input, shown at once as the user's own message with the
/// given identifier and time, and returned for sending.
pub open spec fn compose_of(s: AppV, message_id: u128, sent_at: i64) -> (AppV, Option<(u128, Seq<char>)>) {
    match (s.session_token, s.user_id, s.username) {
        (Some(token), Some(user_id), Some(username)) => if is_blank_text(s.message_input) {
            (s, None)
        } else {
            let m = MessageInfoV {
                message_id,
                sender_id: user_id,
                sender_username: username,
                content: s.message_input,
                sent_at,
            };
            (
                AppV {
                    message_input: Seq::empty(),
                    current_messages: s.current_messages.push(m),
                    ..s
                },
                Some((token, s.message_input)),
            )
        },
        _ => (s, None),
    }
}

pub open spec fn register_clicked_of(s: AppV) -> (AppV, Option<CommandV>) {
    if s.is_loading {
        (s, None)
    } else {
        (
            AppV { is_loading: true, status: "Registrazione in corso…"@, ..s },
            Some(CommandV::Register { username: s.reg_username, password: s.reg_password }),
        )
    }
}

pub open spec fn auto_load_of(s: AppV) -> (AppV, Option<CommandV>) {
    match s.session_token {
        Some(token) if !s.chats_loaded => (
            begin_loading(AppV { chats_loaded: true, ..s }, true, "Loading chats..."@),
            Some(CommandV::LoadPrivateChats { token }),
        ),
        _ => (s, None),
    }
}

impl App {
    /// Points the client at the default server when no address is set.
    pub fn ensure_server_addr(&mut self)
        ensures
            final(self)@ == if old(self)@.server_addr.len() == 0 {
                AppV { server_addr: default_server(), ..old(self)@ }
            } else {
                old(self)@
            },
    {
        if self.server_addr.as_str().unicode_len() == 0 {
            self.server_addr = String::from_str("127.0.0.1:7878");
        }
    }

    /// On the chat list: loads the private chats once a session exists.
    pub fn auto_load_chats(&mut self) -> (cmd: Option<Command>)
        ensures
            (final(self)@, command_view(cmd)) == auto_load_of(old(self)@),
    {
        if !self.chats_loaded {
            if let Some(token) = self.session_token {
                self.chats_loaded = true;
                self.is_loading = true;
                self.status = String::from_str("Loading chats...");
                return Some(Command::LoadPrivateChats { token });
            }
        }
        None
    }

    /// Records an edit of the search text at `now_ms`.
    pub fn search_edited(&mut self, now_ms: u64)
        ensures
            final(self)@ == search_edited_of(old(self)@, now_ms),
    {
        self.search_last_edit = Some(now_ms);
        if is_blank(self.search_query.as_str()) {
            self.search_results.clear();
            self.last_search_completed = false;
        }
    }

    /// Sends the search once its text has rested; `now_ms` is the shell's
    /// clock in milliseconds.
    pub fn poll_search(&mut self, now_ms: u64) -> (cmd: Option<Command>)
        ensures
            (final(self)@, command_view(cmd)) == poll_search_of(old(self)@, now_ms),
    {
        match self.search_last_edit {
            Some(last) => {
                if now_ms > last && now_ms - last > SEARCH_DEBOUNCE_MS {
                    self.search_last_edit = None;
                    if let Some(token) = self.session_token {
                        let query = trimmed(self.search_query.as_str());
                        if query.as_str().unicode_len() > 0 {
                            return Some(Command::Search { token, query });
                        } else {
                            self.search_results.clear();
                            self.last_search_completed = false;
                        }
                    }
                }
                None
            },
            None => None,
        }
    }

    fn find_chat_with(&self, user: u128) -> (r: Option<usize>)
        ensures
            match r {
                Some(i) => first_chat_with(self@.private_chats, user, i as int),
                None => forall|j: int| 0 <= j < self@.private_chats.len() ==> (
                    #[trigger] self@.private_chats[j]).other_user_id != user,
            },
    {
        let mut i: usize = 0;
        while i < self.private_chats.len()
            invariant
                i <= self.private_chats.len(),
                forall|j: int| 0 <= j < i ==> (#[trigger] self@.private_chats[j]).other_user_id != user,
            decreases self.private_chats.len() - i,
        {
            if self.private_chats[i].other_user_id == user {
                return Some(i);
            }
            i = i + 1;
        }
        None
    }

    /// The "chat" button next to a search result: opens the existing chat
    /// with that user (the first one listed), or asks to start one.
    pub fn open_chat_with(&mut self, user: &UserInfo) -> (cmd: Option<Command>)
        ensures
            exists|found: Option<int>| {
                &&& match found {
                    Some(i) => first_chat_with(old(self)@.private_chats, user.user_id, i),
                    None => forall|j: int| 0 <= j < old(self)@.private_chats.len() ==> (
                        #[trigger] old(self)@.private_chats[j]).other_user_id != user.user_id,
                }
                &&& (final(self)@, command_view(cmd)) == open_chat_with_of(old(self)@, user@, found)
            },
    {
        let ghost s0 = self@;
        let is_self = match self.user_id {
            Some(me) => me == user.user_id,
            None => false,
        };
        let found = self.find_chat_with(user.user_id);
        let ghost gfound: Option<int> = match found {
            Some(i) => Some(i as int),
            None => None,
        };
        if is_self {
            assert((self@, command_view(None)) == open_chat_with_of(s0, user@, gfound));
            return None;
        }
        match found {
            Some(idx) => {
                let chat_id = self.private_chats[idx].chat_id;
                self.nav(screen::View::PrivateChat(idx));
                match self.session_token {
                    Some(token) => {
                        self.is_loading = true;
                        let cmd = Some(Command::LoadPrivateMessages { token, chat_id });
                        assert((self@, command_view(cmd)) == open_chat_with_of(s0, user@, gfound));
                        cmd
                    },
                    None => {
                        assert((self@, command_view(None)) == open_chat_with_of(s0, user@, gfound));
                        None
                    },
                }
            },
            None => match self.session_token {
                Some(token) => {
                    self.is_loading = true;
                    self.status = String::from_str("Avvio chat con ").concat(user.username.as_str()).concat(
                        "...",
                    );
                    let cmd = Some(Command::StartPrivateChat { token, other_username: user.username.clone() });
                    assert((self@, command_view(cmd)) == open_chat_with_of(s0, user@, gfound));
                    cmd
                },
                None => {
                    assert((self@, command_view(None)) == open_chat_with_of(s0, user@, gfound));
                    None
                },
            },
        }
    }

    /// The "create group" button, which is enabled only when nothing is
    /// loading and the name is not blank.
    pub fn create_group_clicked(&mut self) -> (cmd: Option<Command>)
        ensures
            (final(self)@, command_view(cmd)) == create_group_clicked_of(old(self)@),
    {
        if self.is_loading || is_blank(self.new_group_name.as_str()) {
            return None;
        }
        match self.session_token {
            Some(token) => {
                self.is_loading = true;
                self.status = String::from_str("Creazione gruppo ").concat(self.new_group_name.as_str()).concat(
                    "...",
                );
                Some(Command::CreateGroup { token, name: self.new_group_name.clone() })
            },
            None => None,
        }
    }

    /// Opens the private chat listed at `idx`.
    pub fn open_private_chat(&mut self, idx: usize) -> (cmd: Option<Command>)
        requires
            idx < old(self)@.private_chats.len(),
        ensures
            (final(self)@, command_view(cmd)) == show_private_chat_of(old(self)@, idx as int),
    {
        let chat_id = self.private_chats[idx].chat_id;
        self.nav(screen::View::PrivateChat(idx));
        match self.session_token {
            Some(token) => {
                self.is_loading = true;
                Some(Command::LoadPrivateMessages { token, chat_id })
            },
            None => None,
        }
    }

    /// Opens the group listed at `idx`, loading its messages and members.
    pub fn open_group(&mut self, idx: usize) -> (cmds: Vec<Command>)
        requires
            idx < old(self)@.groups.len(),
        ensures
            final(self)@ == open_group_of(old(self)@, idx as int).0,
            cmds@.map_values(|c: Command| c@) == open_group_of(old(self)@, idx as int).1,
    {
        let group_id = self.groups[idx].group_id;
        self.nav(screen::View::GroupChat(idx));
        let mut cmds: Vec<Command> = Vec::new();
        if let Some(token) = self.session_token {
            self.is_loading = true;
            cmds.push(Command::LoadGroupMessages { token, group_id });
            cmds.push(Command::LoadGroupMembers { token, group_id });
        }
        assert(cmds@.map_values(|c: Command| c@) =~= open_group_of(old(self)@, idx as int).1);
        cmds
    }

    /// The group information button: showing the panel, or hiding it and
    /// clearing its search.
    pub fn toggle_group_info(&mut self)
        ensures
            final(self)@ == toggle_group_info_of(old(self)@),
    {
        self.show_group_info = !self.show_group_info;
        if !self.show_group_info {
            self.search_query = String::new();
            self.search_results.clear();
        }
    }

    /// The search text of the group panel changed.
    pub fn group_search_changed(&mut self) -> (cmd: Option<Command>)
        ensures
            (final(self)@, command_view(cmd)) == group_search_changed_of(old(self)@),
    {
        match self.session_token {
            Some(token) => {
                if is_blank(self.search_query.as_str()) {
                    self.search_results.clear();
                    None
                } else {
                    Some(Command::Search { token, query: self.search_query.clone() })
                }
            },
            None => None,
        }
    }

    /// The "add" button next to a search result in the group panel.
    pub fn add_member_clicked(&mut self, group_id: u128, username: String) -> (cmd: Option<Command>)
        ensures
            (final(self)@, command_view(cmd)) == add_member_clicked_of(old(self)@, group_id, username@),
    {
        self.add_member_username = username;
        let cmd = match self.session_token {
            Some(token) => {
                self.is_loading = true;
                self.status = String::from_str("Aggiunto ").concat(self.add_member_username.as_str());
                Some(Command::AddGroupMember {
                    token,
                    group_id,
                    username: self.add_member_username.clone(),
                })
            },
            None => None,
        };
        self.search_query = String::new();
        self.search_results.clear();
        cmd
    }

    /// Takes the typed text for sending and shows it at once as a message
    /// with identifier `message_id` sent at `sent_at`.
    pub fn compose(&mut self, message_id: u128, sent_at: i64) -> (r: Option<(u128, String)>)
        ensures
            (final(self)@, match r { Some((t, c)) => Some((t, c@)), None => None }) == compose_of(
                old(self)@,
                message_id,
                sent_at,
            ),
    {
        match (self.session_token, self.user_id, &self.username) {
            (Some(token), Some(user_id), Some(username)) => {
                if is_blank(self.message_input.as_str()) {
                    return None;
                }
                let content = self.message_input.clone();
                let m = MessageInfo {
                    message_id,
                    sender_id: user_id,
                    sender_username: username.clone(),
                    content: content.clone(),
                    sent_at,
                };
                self.message_input = String::new();
                self.current_messages.push(m);
                assert(self@.current_messages =~= old(self)@.current_messages.push(m@));
                Some((token, content))
            },
            _ => None,
        }
    }

    /// Sends the typed text to the private chat `chat_id`, showing it at once
    /// under a fresh identifier and the current time.
    pub fn send_private_message(&mut self, chat_id: u128) -> (cmd: Option<Command>)
        ensures
            exists|id: u128, t: i64| #![trigger compose_of(old(self)@, id, t)] {
                let (s, c) = compose_of(old(self)@, id, t);
                &&& 0 <= t
                &&& final(self)@ == s
                &&& command_view(cmd) == match c {
                    Some((token, content)) => Some(CommandV::SendPrivateMessage { token, chat_id, content }),
                    None => None,
                }
            },
    {
        let id = fresh_id();
        let t = now_unix();
        match self.compose(id, t) {
            Some((token, content)) => Some(Command::SendPrivateMessage { token, chat_id, content }),
            None => None,
        }
    }

    /// Sends the typed text to the group `group_id`, showing it at once
    /// under a fresh identifier and the current time.
    pub fn send_group_message(&mut self, group_id: u128) -> (cmd: Option<Command>)
        ensures
            exists|id: u128, t: i64| #![trigger compose_of(old(self)@, id, t)] {
                let (s, c) = compose_of(old(self)@, id, t);
                &&& 0 <= t
                &&& final(self)@ == s
                &&& command_view(cmd) == match c {
                    Some((token, content)) => Some(CommandV::SendGroupMessage { token, group_id, content }),
                    None => None,
                }
            },
    {
        let id = fresh_id();
        let t = now_unix();
        match self.compose(id, t) {
            Some((token, content)) => Some(Command::SendGroupMessage { token, group_id, content }),
            None => None,
        }
    }

    /// The "register" button, enabled while nothing is loading.
    pub fn register_clicked(&mut self) -> (cmd: Option<Command>)
        ensures
            (final(self)@, command_view(cmd)) == register_clicked_of(old(self)@),
    {
        if self.is_loading {
            return None;
        }
        self.is_loading = true;
        self.status = String::from_str("Registrazione in corso…");
        Some(Command::Register { username: self.reg_username.clone(), password: self.reg_password.clone() })
    }
}

} // verus!
