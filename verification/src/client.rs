//! The chat client's state and how it reacts to navigation and to the
//! results that arrive from the server.
//!
//! The state holds plain values only; the graphical shell around it owns the
//! runtime and the channels, performs the `Command`s the state asks for, and
//! feeds the results back in.

use vstd::prelude::*;
use crate::protocol::{
    GroupInfo, GroupInfoV, MessageInfo, MessageInfoV, PrivateChatInfo, PrivateChatInfoV,
    UserInfo, UserInfoV,
};
use crate::screen;
use crate::screen::shows_chats;
use crate::keys::{uuid_string, uuid_text};

verus! {

/// A result of a request, or a push notification, as it reaches the client.
#[allow(inconsistent_fields)]
#[derive(Debug, PartialEq)]
pub enum AppResult {
    LoginSuccess { token: u128, user_id: u128, username: String },
    RegisterSuccess,
    SearchResults { users: Vec<UserInfo> },
    PrivateChatsLoaded { chats: Vec<PrivateChatInfo> },
    GroupsLoaded { groups: Vec<GroupInfo> },
    GroupMembersLoaded { members: Vec<UserInfo> },
    MessagesLoaded { messages: Vec<MessageInfo> },
    PrivateChatStarted { chat_id: u128 },
    GroupCreated { group_id: u128 },
    MessageSent,
    MemberAdded,
    Error { message: String },
    PushGroupListUpdated,
    PushPrivateChatListUpdated,
    PushNewMessage { message: MessageInfo, chat_id: Option<u128>, group_id: Option<u128> },
}

#[allow(inconsistent_fields)]
pub enum AppResultV {
    LoginSuccess { token: u128, user_id: u128, username: Seq<char> },
    RegisterSuccess,
    SearchResults { users: Seq<UserInfoV> },
    PrivateChatsLoaded { chats: Seq<PrivateChatInfoV> },
    GroupsLoaded { groups: Seq<GroupInfoV> },
    GroupMembersLoaded { members: Seq<UserInfoV> },
    MessagesLoaded { messages: Seq<MessageInfoV> },
    PrivateChatStarted { chat_id: u128 },
    GroupCreated { group_id: u128 },
    MessageSent,
    MemberAdded,
    Error { message: Seq<char> },
    PushGroupListUpdated,
    PushPrivateChatListUpdated,
    PushNewMessage { message: MessageInfoV, chat_id: Option<u128>, group_id: Option<u128> },
}

impl View for AppResult {
    type V = AppResultV;

    open spec fn view(&self) -> AppResultV {
        match self {
            AppResult::LoginSuccess { token, user_id, username } => AppResultV::LoginSuccess {
                token: *token,
                user_id: *user_id,
                username: username@,
            },
            AppResult::RegisterSuccess => AppResultV::RegisterSuccess,
            AppResult::SearchResults { users } => AppResultV::SearchResults {
                users: users.deep_view(),
            },
            AppResult::PrivateChatsLoaded { chats } => AppResultV::PrivateChatsLoaded {
                chats: chats.deep_view(),
            },
            AppResult::GroupsLoaded { groups } => AppResultV::GroupsLoaded {
                groups: groups.deep_view(),
            },
            AppResult::GroupMembersLoaded { members } => AppResultV::GroupMembersLoaded {
                members: members.deep_view(),
            },
            AppResult::MessagesLoaded { messages } => AppResultV::MessagesLoaded {
                messages: messages.deep_view(),
            },
            AppResult::PrivateChatStarted { chat_id } => AppResultV::PrivateChatStarted {
                chat_id: *chat_id,
            },
            AppResult::GroupCreated { group_id } => AppResultV::GroupCreated { group_id: *group_id },
            AppResult::MessageSent => AppResultV::MessageSent,
            AppResult::MemberAdded => AppResultV::MemberAdded,
            AppResult::Error { message } => AppResultV::Error { message: message@ },
            AppResult::PushGroupListUpdated => AppResultV::PushGroupListUpdated,
            AppResult::PushPrivateChatListUpdated => AppResultV::PushPrivateChatListUpdated,
            AppResult::PushNewMessage { message, chat_id, group_id } => AppResultV::PushNewMessage {
                message: message@,
                chat_id: *chat_id,
                group_id: *group_id,
            },
        }
    }
}

/// Network work the client state asks its shell to start; each request's
/// result comes back as an `AppResult`.
#[derive(Debug, PartialEq)]
pub enum Command {
    StartListener { token: u128 },
    LoadPrivateChats { token: u128 },
    LoadGroups { token: u128 },
    LoadGroupMembers { token: u128, group_id: u128 },
    LoadPrivateMessages { token: u128, chat_id: u128 },
    LoadGroupMessages { token: u128, group_id: u128 },
    Search { token: u128, query: String },
    StartPrivateChat { token: u128, other_username: String },
    CreateGroup { token: u128, name: String },
    AddGroupMember { token: u128, group_id: u128, username: String },
    Register { username: String, password: String },
    SendPrivateMessage { token: u128, chat_id: u128, content: String },
    SendGroupMessage { token: u128, group_id: u128, content: String },
}

pub enum CommandV {
    StartListener { token: u128 },
    LoadPrivateChats { token: u128 },
    LoadGroups { token: u128 },
    LoadGroupMembers { token: u128, group_id: u128 },
    LoadPrivateMessages { token: u128, chat_id: u128 },
    LoadGroupMessages { token: u128, group_id: u128 },
    Search { token: u128, query: Seq<char> },
    StartPrivateChat { token: u128, other_username: Seq<char> },
    CreateGroup { token: u128, name: Seq<char> },
    AddGroupMember { token: u128, group_id: u128, username: Seq<char> },
    Register { username: Seq<char>, password: Seq<char> },
    SendPrivateMessage { token: u128, chat_id: u128, content: Seq<char> },
    SendGroupMessage { token: u128, group_id: u128, content: Seq<char> },
}

impl View for Command {
    type V = CommandV;

    open spec fn view(&self) -> CommandV {
        match self {
            Command::StartListener { token } => CommandV::StartListener { token: *token },
            Command::LoadPrivateChats { token } => CommandV::LoadPrivateChats { token: *token },
            Command::LoadGroups { token } => CommandV::LoadGroups { token: *token },
            Command::LoadGroupMembers { token, group_id } => CommandV::LoadGroupMembers {
                token: *token,
                group_id: *group_id,
            },
            Command::LoadPrivateMessages { token, chat_id } => CommandV::LoadPrivateMessages {
                token: *token,
                chat_id: *chat_id,
            },
            Command::LoadGroupMessages { token, group_id } => CommandV::LoadGroupMessages {
                token: *token,
                group_id: *group_id,
            },
            Command::Search { token, query } => CommandV::Search { token: *token, query: query@ },
            Command::StartPrivateChat { token, other_username } => CommandV::StartPrivateChat {
                token: *token,
                other_username: other_username@,
            },
            Command::CreateGroup { token, name } => CommandV::CreateGroup {
                token: *token,
                name: name@,
            },
            Command::AddGroupMember { token, group_id, username } => CommandV::AddGroupMember {
                token: *token,
                group_id: *group_id,
                username: username@,
            },
            Command::Register { username, password } => CommandV::Register {
                username: username@,
                password: password@,
            },
            Command::SendPrivateMessage { token, chat_id, content } =>
                CommandV::SendPrivateMessage { token: *token, chat_id: *chat_id, content: content@ },
            Command::SendGroupMessage { token, group_id, content } => CommandV::SendGroupMessage {
                token: *token,
                group_id: *group_id,
                content: content@,
            },
        }
    }
}

pub open spec fn command_view(c: Option<Command>) -> Option<CommandV> {
    match c {
        Some(c) => Some(c@),
        None => None,
    }
}

/// The client's state.
pub struct App {
    pub view: screen::View,
    pub server_addr: String,
    pub login_username: String,
    pub login_password: String,
    pub reg_username: String,
    pub reg_password: String,
    pub session_token: Option<u128>,
    pub user_id: Option<u128>,
    pub username: Option<String>,
    pub search_query: String,
    pub search_results: Vec<UserInfo>,
    pub last_search_completed: bool,
    /// When the search text was last edited, in milliseconds of the shell's clock.
    pub search_last_edit: Option<u64>,
    pub private_chats: Vec<PrivateChatInfo>,
    pub groups: Vec<GroupInfo>,
    pub chats_loaded: bool,
    pub new_group_name: String,
    pub add_member_username: String,
    pub current_messages: Vec<MessageInfo>,
    pub current_group_members: Vec<UserInfo>,
    pub message_input: String,
    pub status: String,
    pub is_loading: bool,
    pub show_group_info: bool,
    /// A private chat just started, to open once the chat list that holds it
    /// has been loaded.
    pub pending_chat: Option<u128>,
    /// Counts the sessions ended by logging out; results are taken in only
    /// from requests made under the current count.
    pub epoch: u64,
}

#[verifier::ext_equal]
pub struct AppV {
    pub view: screen::View,
    pub server_addr: Seq<char>,
    pub login_username: Seq<char>,
    pub login_password: Seq<char>,
    pub reg_username: Seq<char>,
    pub reg_password: Seq<char>,
    pub session_token: Option<u128>,
    pub user_id: Option<u128>,
    pub username: Option<Seq<char>>,
    pub search_query: Seq<char>,
    pub search_results: Seq<UserInfoV>,
    pub last_search_completed: bool,
    pub search_last_edit: Option<u64>,
    pub private_chats: Seq<PrivateChatInfoV>,
    pub groups: Seq<GroupInfoV>,
    pub chats_loaded: bool,
    pub new_group_name: Seq<char>,
    pub add_member_username: Seq<char>,
    pub current_messages: Seq<MessageInfoV>,
    pub current_group_members: Seq<UserInfoV>,
    pub message_input: Seq<char>,
    pub status: Seq<char>,
    pub is_loading: bool,
    pub show_group_info: bool,
    pub pending_chat: Option<u128>,
    pub epoch: u64,
}

pub open spec fn opt_text(o: Option<String>) -> Option<Seq<char>> {
    match o {
        Some(s) => Some(s@),
        None => None,
    }
}

impl View for App {
    type V = AppV;

    open spec fn view(&self) -> AppV {
        AppV {
            view: self.view,
            server_addr: self.server_addr@,
            login_username: self.login_username@,
            login_password: self.login_password@,
            reg_username: self.reg_username@,
            reg_password: self.reg_password@,
            session_token: self.session_token,
            user_id: self.user_id,
            username: opt_text(self.username),
            search_query: self.search_query@,
            search_results: self.search_results.deep_view(),
            last_search_completed: self.last_search_completed,
            search_last_edit: self.search_last_edit,
            private_chats: self.private_chats.deep_view(),
            groups: self.groups.deep_view(),
            chats_loaded: self.chats_loaded,
            new_group_name: self.new_group_name@,
            add_member_username: self.add_member_username@,
            current_messages: self.current_messages.deep_view(),
            current_group_members: self.current_group_members.deep_view(),
            message_input: self.message_input@,
            status: self.status@,
            is_loading: self.is_loading,
            show_group_info: self.show_group_info,
            pending_chat: self.pending_chat,
            epoch: self.epoch,
        }
    }
}

pub open spec fn reset_status_of(s: AppV) -> AppV {
    AppV { status: Seq::empty(), is_loading: false, ..s }
}

/// Moving to screen `v`: the status line and the search are reset, and the
/// messages and members of a conversation are dropped when `v` shows no
/// conversation (the members also when `v` is the chat list).
pub open spec fn nav_of(s: AppV, v: screen::View) -> AppV {
    let s1 = reset_status_of(AppV { view: v, ..s });
    let s2 = AppV {
        show_group_info: false,
        search_results: Seq::empty(),
        last_search_completed: false,
        search_last_edit: None,
        ..s1
    };
    let s3 = if !shows_chats(v) {
        AppV { current_messages: Seq::empty(), current_group_members: Seq::empty(), ..s2 }
    } else {
        s2
    };
    if v is ChatList {
        AppV { current_group_members: Seq::empty(), ..s3 }
    } else {
        s3
    }
}

/// Logging out forgets the session and everything loaded under it, then
/// shows the home screen.
pub open spec fn logout_of(s: AppV) -> AppV {
    nav_of(
        AppV {
            session_token: None,
            user_id: None,
            username: None,
            private_chats: Seq::empty(),
            groups: Seq::empty(),
            current_messages: Seq::empty(),
            current_group_members: Seq::empty(),
            search_results: Seq::empty(),
            last_search_completed: false,
            chats_loaded: false,
            pending_chat: None,
            epoch: next_epoch(s.epoch),
            ..s
        },
        screen::View::Home,
    )
}

/// The count after `e`, wrapping around; never `e` itself.
pub open spec fn next_epoch(e: u64) -> u64 {
    if e == u64::MAX { 0 } else { (e + 1) as u64 }
}

impl App {
    /// A client that shows the home screen and holds nothing yet.
    pub fn new() -> (r: App)
        ensures
            r@.view == screen::View::Home,
            r@.session_token is None,
            r@.user_id is None,
            r@.username is None,
            r@.server_addr == Seq::<char>::empty(),
            r@.search_results.len() == 0,
            r@.private_chats.len() == 0,
            r@.groups.len() == 0,
            r@.current_messages.len() == 0,
            r@.current_group_members.len() == 0,
            r@.status == Seq::<char>::empty(),
            !r@.is_loading,
            !r@.chats_loaded,
            !r@.show_group_info,
            !r@.last_search_completed,
            r@.search_last_edit is None,
            r@.pending_chat is None,
            r@.epoch == 0,
    {
        App {
            view: screen::View::Home,
            server_addr: String::new(),
            login_username: String::new(),
            login_password: String::new(),
            reg_username: String::new(),
            reg_password: String::new(),
            session_token: None,
            user_id: None,
            username: None,
            search_query: String::new(),
            search_results: Vec::new(),
            last_search_completed: false,
            search_last_edit: None,
            private_chats: Vec::new(),
            groups: Vec::new(),
            chats_loaded: false,
            new_group_name: String::new(),
            add_member_username: String::new(),
            current_messages: Vec::new(),
            current_group_members: Vec::new(),
            message_input: String::new(),
            status: String::new(),
            is_loading: false,
            show_group_info: false,
            pending_chat: None,
            epoch: 0,
        }
    }

    /// Clears the status line and the loading mark.
    pub fn reset_status(&mut self)
        ensures
            final(self)@ == reset_status_of(old(self)@),
    {
        self.status = String::new();
        self.is_loading = false;
    }

    /// Shows screen `v`.
    pub fn nav(&mut self, v: screen::View)
        ensures
            final(self)@ == nav_of(old(self)@, v),
    {
        self.view = v;
        self.reset_status();
        self.show_group_info = false;
        self.search_results.clear();
        self.last_search_completed = false;
        self.search_last_edit = None;
        let chats = match v {
            screen::View::PrivateChat(_) | screen::View::GroupChat(_) | screen::View::ChatList => true,
            _ => false,
        };
        if !chats {
            self.current_messages.clear();
            self.current_group_members.clear();
        }
        if let screen::View::ChatList = v {
            self.current_group_members.clear();
        }
        assert(self@ =~= nav_of(old(self)@, v));
    }

    pub fn is_logged_in(&self) -> (r: bool)
        ensures
            r == (self@.session_token is Some),
    {
        self.session_token.is_some()
    }

    /// Forgets the session and what was loaded under it, and shows the home
    /// screen.
    pub fn logout(&mut self)
        ensures
            final(self)@ == logout_of(old(self)@),
    {
        self.session_token = None;
        self.user_id = None;
        self.username = None;
        self.private_chats.clear();
        self.groups.clear();
        self.current_messages.clear();
        self.current_group_members.clear();
        self.search_results.clear();
        self.last_search_completed = false;
        self.chats_loaded = false;
        self.pending_chat = None;
        self.epoch = if self.epoch == u64::MAX { 0 } else { self.epoch + 1 };
        assert(self@ =~= AppV {
            session_token: None,
            user_id: None,
            username: None,
            private_chats: Seq::empty(),
            groups: Seq::empty(),
            current_messages: Seq::empty(),
            current_group_members: Seq::empty(),
            search_results: Seq::empty(),
            last_search_completed: false,
            chats_loaded: false,
            pending_chat: None,
            epoch: next_epoch(old(self)@.epoch),
            ..old(self)@
        });
        self.nav(screen::View::Home);
    }
}

/// Marks a load as running, with `text` in the status line, when it is
/// shown to the user.
pub open spec fn begin_loading(s: AppV, show: bool, text: Seq<char>) -> AppV {
    if show { AppV { is_loading: true, status: text, ..s } } else { s }
}

/// Whether a pushed message belongs to the conversation on screen: a group
/// message to the group shown; a private one to the chat shown, or sent by
/// the user that chat is with.
pub open spec fn belongs_on_screen(s: AppV, m: MessageInfoV, chat_id: Option<u128>, group_id: Option<u128>) -> bool {
    match s.view {
        screen::View::PrivateChat(idx) => idx < s.private_chats.len() && (
            chat_id == Some(s.private_chats[idx as int].chat_id)
            || m.sender_id == s.private_chats[idx as int].other_user_id),
        screen::View::GroupChat(idx) => idx < s.groups.len() && group_id == Some(
            s.groups[idx as int].group_id,
        ),
        _ => false,
    }
}

pub open spec fn has_message(msgs: Seq<MessageInfoV>, id: u128) -> bool {
    exists|i: int| 0 <= i < msgs.len() && (#[trigger] msgs[i]).message_id == id
}

/// The members of the group on screen, to load when none are known yet.
pub open spec fn members_to_load(s: AppV) -> Option<CommandV> {
    match (s.view, s.session_token) {
        (screen::View::GroupChat(idx), Some(token)) => if idx < s.groups.len() {
            Some(CommandV::LoadGroupMembers { token, group_id: s.groups[idx as int].group_id })
        } else {
            None
        },
        _ => None,
    }
}

/// The network work an optional command stands for.
pub open spec fn opt_cmds(c: Option<CommandV>) -> Seq<CommandV> {
    match c {
        Some(c) => seq![c],
        None => Seq::empty(),
    }
}

/// Whether `i` is the first position of the chat `chat_id` in `chats`.
pub open spec fn first_position_of(chats: Seq<PrivateChatInfoV>, chat_id: u128, i: int) -> bool {
    &&& 0 <= i < chats.len()
    &&& chats[i].chat_id == chat_id
    &&& forall|j: int| 0 <= j < i ==> (#[trigger] chats[j]).chat_id != chat_id
}

/// The first position of the chat `chat_id` in `chats`, if it is listed.
pub open spec fn chat_position(chats: Seq<PrivateChatInfoV>, chat_id: u128) -> Option<int> {
    if exists|i: int| 0 <= i < chats.len() && (#[trigger] chats[i]).chat_id == chat_id {
        Some(choose|i: int| first_position_of(chats, chat_id, i))
    } else {
        None
    }
}

/// Shows the private chat at `idx` and loads its messages when a session
/// exists.
pub open spec fn show_private_chat_of(s: AppV, idx: int) -> (AppV, Option<CommandV>) {
    let s1 = nav_of(s, screen::View::PrivateChat(idx as usize));
    match s1.session_token {
        Some(token) => (
            AppV { is_loading: true, ..s1 },
            Some(CommandV::LoadPrivateMessages { token, chat_id: s.private_chats[idx].chat_id }),
        ),
        None => (s1, None),
    }
}

/// A freshly loaded chat list: the chat waiting to be opened is opened when
/// the list holds it, and the groups are loaded when none are known yet.
pub open spec fn chats_loaded_of(s: AppV, chats: Seq<PrivateChatInfoV>) -> (AppV, Seq<CommandV>) {
    let s1 = AppV { is_loading: false, status: Seq::empty(), private_chats: chats, pending_chat: None, ..s };
    let (s2, open) = match s.pending_chat {
        Some(c) => match chat_position(chats, c) {
            Some(i) => show_private_chat_of(s1, i),
            None => (s1, None),
        },
        None => (s1, None),
    };
    match s2.session_token {
        Some(token) if s2.groups.len() == 0 => (
            begin_loading(s2, true, "Loading groups..."@),
            opt_cmds(open).push(CommandV::LoadGroups { token }),
        ),
        _ => (s2, opt_cmds(open)),
    }
}

/// What the client does with one result: its new state and the network
/// work it starts.
pub open spec fn apply_of(s: AppV, r: AppResultV) -> (AppV, Seq<CommandV>) {
    match r {
        AppResultV::LoginSuccess { token, user_id, username } => {
            let s1 = AppV {
                is_loading: false,
                session_token: Some(token),
                user_id: Some(user_id),
                username: Some(username),
                status: "✅ Login effettuato!"@,
                ..s
            };
            (nav_of(s1, screen::View::ChatList), seq![CommandV::StartListener { token }])
        },
        AppResultV::PushGroupListUpdated => match s.session_token {
            Some(token) => (s, seq![CommandV::LoadGroups { token }]),
            None => (s, Seq::empty()),
        },
        AppResultV::PushPrivateChatListUpdated => match s.session_token {
            Some(token) => (s, seq![CommandV::LoadPrivateChats { token }]),
            None => (s, Seq::empty()),
        },
        AppResultV::PushNewMessage { message, chat_id, group_id } => {
            if belongs_on_screen(s, message, chat_id, group_id) && !has_message(
                s.current_messages,
                message.message_id,
            ) {
                (AppV { current_messages: s.current_messages.push(message), ..s }, Seq::empty())
            } else {
                (s, Seq::empty())
            }
        },
        AppResultV::RegisterSuccess => (
            AppV {
                status: "Registrato! Fai login."@,
                ..nav_of(AppV { is_loading: false, ..s }, screen::View::Login)
            },
            Seq::empty(),
        ),
        AppResultV::SearchResults { users } => (
            AppV { is_loading: false, search_results: users, last_search_completed: true, ..s },
            Seq::empty(),
        ),
        AppResultV::PrivateChatsLoaded { chats } => chats_loaded_of(s, chats),
        AppResultV::GroupsLoaded { groups } => (
            AppV { is_loading: false, status: Seq::empty(), groups, ..s },
            Seq::empty(),
        ),
        AppResultV::GroupMembersLoaded { members } => (
            AppV { is_loading: false, current_group_members: members, ..s },
            Seq::empty(),
        ),
        AppResultV::MessagesLoaded { messages } => {
            let s1 = AppV { is_loading: false, current_messages: messages.reverse(), ..s };
            if s1.current_group_members.len() == 0 {
                (s1, opt_cmds(members_to_load(s1)))
            } else {
                (s1, Seq::empty())
            }
        },
        AppResultV::PrivateChatStarted { chat_id } => {
            let s1 = AppV { is_loading: false, ..s };
            let status = "Chat avviata: "@ + uuid_text(chat_id);
            match s1.session_token {
                Some(token) => (
                    AppV {
                        status,
                        pending_chat: Some(chat_id),
                        ..begin_loading(s1, true, "Loading chats..."@)
                    },
                    seq![CommandV::LoadPrivateChats { token }],
                ),
                None => (AppV { status, ..s1 }, Seq::empty()),
            }
        },
        AppResultV::GroupCreated { group_id } => {
            let s1 = AppV { is_loading: false, new_group_name: Seq::empty(), ..s };
            let status = "Gruppo creato: "@ + uuid_text(group_id);
            match s1.session_token {
                Some(token) => (
                    AppV { status, ..begin_loading(s1, true, "Loading groups..."@) },
                    seq![CommandV::LoadGroups { token }],
                ),
                None => (AppV { status, ..s1 }, Seq::empty()),
            }
        },
        AppResultV::MessageSent => (AppV { message_input: Seq::empty(), ..s }, Seq::empty()),
        AppResultV::MemberAdded => {
            let s1 = AppV { is_loading: false, add_member_username: Seq::empty(), ..s };
            (s1, opt_cmds(members_to_load(s1)))
        },
        AppResultV::Error { message } => (
            AppV { is_loading: false, status: "Errore: "@ + message, ..s },
            Seq::empty(),
        ),
    }
}

/// A result of a request made under session count `issued_in`: taken in
/// when that is the current count, and dropped unchanged otherwise.
pub open spec fn receive_of(s: AppV, issued_in: u64, r: AppResultV) -> (AppV, Seq<CommandV>) {
    if issued_in == s.epoch {
        apply_of(s, r)
    } else {
        (s, Seq::empty())
    }
}

/// The messages in the opposite order.
pub fn reversed_messages(v: &Vec<MessageInfo>) -> (r: Vec<MessageInfo>)
    ensures
        r.deep_view() == v.deep_view().reverse(),
{
    let n = v.len();
    let mut r: Vec<MessageInfo> = Vec::new();
    let mut i: usize = n;
    while i > 0
        invariant
            i <= n,
            n == v.len(),
            r.len() == n - i,
            forall|j: int| 0 <= j < r.len() ==> #[trigger] r@[j] == v@[n - 1 - j],
        decreases i,
    {
        i = i - 1;
        r.push(v[i].clone());
    }
    assert(r.deep_view() =~= v.deep_view().reverse());
    r
}

impl App {
    fn begin_loading(&mut self, show: bool, text: &str)
        ensures
            final(self)@ == begin_loading(old(self)@, show, text@),
    {
        if show {
            self.is_loading = true;
            self.status = String::from_str(text);
        }
    }

    fn shows_message_of(&self, m: &MessageInfo, chat_id: Option<u128>, group_id: Option<u128>) -> (r: bool)
        ensures
            r == belongs_on_screen(self@, m@, chat_id, group_id),
    {
        match self.view {
            screen::View::PrivateChat(idx) => {
                if idx < self.private_chats.len() {
                    let shown = self.private_chats[idx].chat_id;
                    let same_chat = match chat_id {
                        Some(c) => c == shown,
                        None => false,
                    };
                    same_chat || m.sender_id == self.private_chats[idx].other_user_id
                } else {
                    false
                }
            },
            screen::View::GroupChat(idx) => {
                if idx < self.groups.len() {
                    match group_id {
                        Some(g) => g == self.groups[idx].group_id,
                        None => false,
                    }
                } else {
                    false
                }
            },
            _ => false,
        }
    }

    fn holds_message(&self, id: u128) -> (r: bool)
        ensures
            r == has_message(self@.current_messages, id),
    {
        let mut i: usize = 0;
        while i < self.current_messages.len()
            invariant
                i <= self.current_messages.len(),
                forall|j: int| 0 <= j < i ==> (#[trigger] self@.current_messages[j]).message_id != id,
            decreases self.current_messages.len() - i,
        {
            if self.current_messages[i].message_id == id {
                assert(self@.current_messages[i as int].message_id == id);
                return true;
            }
            i = i + 1;
        }
        false
    }

    fn members_to_load(&self) -> (r: Option<Command>)
        ensures
            command_view(r) == members_to_load(self@),
    {
        match (self.view, self.session_token) {
            (screen::View::GroupChat(idx), Some(token)) => {
                if idx < self.groups.len() {
                    Some(Command::LoadGroupMembers { token, group_id: self.groups[idx].group_id })
                } else {
                    None
                }
            },
            _ => None,
        }
    }

    /// The first position of the chat `chat_id` in the private chat list.
    fn chat_index(&self, chat_id: u128) -> (r: Option<usize>)
        ensures
            match r {
                Some(i) => chat_position(self@.private_chats, chat_id) == Some(i as int)
                    && first_position_of(self@.private_chats, chat_id, i as int),
                None => chat_position(self@.private_chats, chat_id) is None,
            },
    {
        let mut i: usize = 0;
        while i < self.private_chats.len()
            invariant
                i <= self.private_chats.len(),
                forall|j: int| 0 <= j < i ==> (#[trigger] self@.private_chats[j]).chat_id != chat_id,
            decreases self.private_chats.len() - i,
        {
            if self.private_chats[i].chat_id == chat_id {
                let ghost chats = self@.private_chats;
                assert(first_position_of(chats, chat_id, i as int));
                let ghost k = choose|k: int| first_position_of(chats, chat_id, k);
                assert(first_position_of(chats, chat_id, k));
                assert(k == i as int) by {
                    if k < i as int {
                        assert(chats[k].chat_id != chat_id);
                    } else if k > i as int {
                        assert(chats[i as int].chat_id != chat_id);
                    }
                }
                return Some(i);
            }
            i = i + 1;
        }
        None
    }

    /// Takes in one result from the server and returns the network work it
    /// starts.
    pub fn apply_result(&mut self, r: AppResult) -> (cmds: Vec<Command>)
        ensures
            (final(self)@, cmds@.map_values(|c: Command| c@)) == apply_of(old(self)@, r@),
    {
        let ghost rv = r@;
        match r {
            AppResult::LoginSuccess { token, user_id, username } => {
                self.is_loading = false;
                self.session_token = Some(token);
                self.user_id = Some(user_id);
                self.username = Some(username);
                self.status = String::from_str("✅ Login effettuato!");
                self.nav(screen::View::ChatList);
                commands(Some(Command::StartListener { token }))
            },
            AppResult::PushGroupListUpdated => match self.session_token {
                Some(token) => commands(Some(Command::LoadGroups { token })),
                None => commands(None),
            },
            AppResult::PushPrivateChatListUpdated => match self.session_token {
                Some(token) => commands(Some(Command::LoadPrivateChats { token })),
                None => commands(None),
            },
            AppResult::PushNewMessage { message, chat_id, group_id } => {
                if self.shows_message_of(&message, chat_id, group_id) && !self.holds_message(message.message_id) {
                    self.current_messages.push(message);
                    assert(self@.current_messages =~= old(self)@.current_messages.push(message@));
                }
                commands(None)
            },
            AppResult::RegisterSuccess => {
                self.is_loading = false;
                self.nav(screen::View::Login);
                self.status = String::from_str("Registrato! Fai login.");
                commands(None)
            },
            AppResult::SearchResults { users } => {
                self.is_loading = false;
                self.search_results = users;
                self.last_search_completed = true;
                commands(None)
            },
            AppResult::PrivateChatsLoaded { chats } => {
                let pending = self.pending_chat;
                self.is_loading = false;
                self.status = String::new();
                self.private_chats = chats;
                self.pending_chat = None;
                let ghost s1 = self@;
                let open = match pending {
                    Some(c) => match self.chat_index(c) {
                        Some(i) => self.open_private_chat(i),
                        None => None,
                    },
                    None => None,
                };
                let mut cmds = commands(open);
                if self.groups.len() == 0 {
                    if let Some(token) = self.session_token {
                        self.begin_loading(true, "Loading groups...");
                        cmds.push(Command::LoadGroups { token });
                    }
                }
                assert(cmds@.map_values(|c: Command| c@) =~= chats_loaded_of(old(self)@, rv->chats).1);
                cmds
            },
            AppResult::GroupsLoaded { groups } => {
                self.is_loading = false;
                self.status = String::new();
                self.groups = groups;
                commands(None)
            },
            AppResult::GroupMembersLoaded { members } => {
                self.is_loading = false;
                self.current_group_members = members;
                commands(None)
            },
            AppResult::MessagesLoaded { messages } => {
                self.is_loading = false;
                self.current_messages = reversed_messages(&messages);
                if self.current_group_members.len() == 0 {
                    commands(self.members_to_load())
                } else {
                    commands(None)
                }
            },
            AppResult::PrivateChatStarted { chat_id } => {
                self.is_loading = false;
                let cmd = match self.session_token {
                    Some(token) => {
                        self.begin_loading(true, "Loading chats...");
                        self.pending_chat = Some(chat_id);
                        Some(Command::LoadPrivateChats { token })
                    },
                    None => None,
                };
                self.status = String::from_str("Chat avviata: ").concat(uuid_string(chat_id).as_str());
                commands(cmd)
            },
            AppResult::GroupCreated { group_id } => {
                self.is_loading = false;
                self.new_group_name = String::new();
                let cmd = match self.session_token {
                    Some(token) => {
                        self.begin_loading(true, "Loading groups...");
                        Some(Command::LoadGroups { token })
                    },
                    None => None,
                };
                self.status = String::from_str("Gruppo creato: ").concat(uuid_string(group_id).as_str());
                commands(cmd)
            },
            AppResult::MessageSent => {
                self.message_input = String::new();
                commands(None)
            },
            AppResult::MemberAdded => {
                self.is_loading = false;
                self.add_member_username = String::new();
                commands(self.members_to_load())
            },
            AppResult::Error { message } => {
                self.is_loading = false;
                self.status = String::from_str("Errore: ").concat(message.as_str());
                commands(None)
            },
        }
    }

    /// Takes in a result of a request made under session count
    /// `issued_in`; a result from before the last logout is dropped.
    pub fn receive(&mut self, issued_in: u64, r: AppResult) -> (cmds: Vec<Command>)
        ensures
            (final(self)@, cmds@.map_values(|c: Command| c@)) == receive_of(old(self)@, issued_in, r@),
    {
        if issued_in == self.epoch {
            self.apply_result(r)
        } else {
            let cmds: Vec<Command> = Vec::new();
            assert(cmds@.map_values(|c: Command| c@) =~= Seq::<CommandV>::empty());
            cmds
        }
    }
}

/// The network work an optional command stands for, as a list.
fn commands(c: Option<Command>) -> (v: Vec<Command>)
    ensures
        v@.map_values(|c: Command| c@) == opt_cmds(command_view(c)),
{
    let mut v: Vec<Command> = Vec::new();
    match c {
        Some(c) => {
            v.push(c);
        },
        None => {},
    }
    assert(v@.map_values(|c: Command| c@) =~= opt_cmds(command_view(c)));
    v
}

} // verus!
