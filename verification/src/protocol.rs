//! The messages that client and server exchange. Identifiers are the 128-bit
//! values of the UUIDs that name users, sessions, chats, groups and messages.

use vstd::prelude::*;

verus! {

/// A user as listed in search results and group member lists.
#[derive(Debug, PartialEq)]
pub struct UserInfo {
    pub user_id: u128,
    pub username: String,
}

/// A private chat as seen by one of its two participants.
#[derive(Debug, PartialEq)]
pub struct PrivateChatInfo {
    pub chat_id: u128,
    pub other_user_id: u128,
    pub other_username: String,
}

/// A group the user belongs to.
#[derive(Debug, PartialEq)]
pub struct GroupInfo {
    pub group_id: u128,
    pub name: String,
}

/// A stored message with its author and its send time in Unix seconds.
#[derive(Debug, PartialEq)]
pub struct MessageInfo {
    pub message_id: u128,
    pub sender_id: u128,
    pub sender_username: String,
    pub content: String,
    pub sent_at: i64,
}

impl Clone for UserInfo {
    fn clone(&self) -> (r: Self)
        ensures
            r == *self,
    {
        UserInfo { user_id: self.user_id, username: self.username.clone() }
    }
}

impl Clone for PrivateChatInfo {
    fn clone(&self) -> (r: Self)
        ensures
            r == *self,
    {
        PrivateChatInfo {
            chat_id: self.chat_id,
            other_user_id: self.other_user_id,
            other_username: self.other_username.clone(),
        }
    }
}

impl Clone for GroupInfo {
    fn clone(&self) -> (r: Self)
        ensures
            r == *self,
    {
        GroupInfo { group_id: self.group_id, name: self.name.clone() }
    }
}

impl Clone for MessageInfo {
    fn clone(&self) -> (r: Self)
        ensures
            r == *self,
    {
        MessageInfo {
            message_id: self.message_id,
            sender_id: self.sender_id,
            sender_username: self.sender_username.clone(),
            content: self.content.clone(),
            sent_at: self.sent_at,
        }
    }
}

/// Requests a client sends.
#[derive(Debug, PartialEq)]
pub enum ClientMsg {
    Register { username: String, password: String },
    Login { username: String, password: String },
    Listen { token: u128 },
    SearchUsers { token: u128, query: String },
    StartPrivateChat { token: u128, other_username: String },
    GetPrivateChats { token: u128 },
    GetPrivateChatMessages { token: u128, chat_id: u128, limit: u32 },
    SendPrivateMessage { token: u128, chat_id: u128, content: String },
    CreateGroup { token: u128, name: String },
    AddGroupMember { token: u128, group_id: u128, username: String },
    GetGroups { token: u128 },
    GetGroupMembers { token: u128, group_id: u128 },
    GetGroupMessages { token: u128, group_id: u128, limit: u32 },
    SendGroupMessage { token: u128, group_id: u128, content: String },
}

/// Replies and push notifications the server sends.
#[allow(inconsistent_fields)]
#[derive(Debug, PartialEq)]
pub enum ServerMsg {
    Registered { user_id: u128 },
    LoginOk { session_token: u128, user_id: u128, username: String },
    PushNewMessage { message: MessageInfo, chat_id: Option<u128>, group_id: Option<u128> },
    PushGroupUpdated,
    PushPrivateChatListUpdated,
    UsersFound { users: Vec<UserInfo> },
    PrivateChatStarted { chat_id: u128 },
    PrivateChats { chats: Vec<PrivateChatInfo> },
    PrivateChatMessages { messages: Vec<MessageInfo> },
    PrivateMessageSent { message_id: u128 },
    GroupCreated { group_id: u128 },
    GroupMemberAdded,
    Groups { groups: Vec<GroupInfo> },
    GroupMembers { members: Vec<UserInfo> },
    GroupMessages { messages: Vec<MessageInfo> },
    GroupMessageSent { message_id: u128 },
    Error { message: String },
}

/// `UserInfo` with its text seen as characters.
pub struct UserInfoV {
    pub user_id: u128,
    pub username: Seq<char>,
}

pub struct PrivateChatInfoV {
    pub chat_id: u128,
    pub other_user_id: u128,
    pub other_username: Seq<char>,
}

pub struct GroupInfoV {
    pub group_id: u128,
    pub name: Seq<char>,
}

pub struct MessageInfoV {
    pub message_id: u128,
    pub sender_id: u128,
    pub sender_username: Seq<char>,
    pub content: Seq<char>,
    pub sent_at: i64,
}

impl View for UserInfo {
    type V = UserInfoV;

    open spec fn view(&self) -> UserInfoV {
        UserInfoV { user_id: self.user_id, username: self.username@ }
    }
}

impl View for PrivateChatInfo {
    type V = PrivateChatInfoV;

    open spec fn view(&self) -> PrivateChatInfoV {
        PrivateChatInfoV {
            chat_id: self.chat_id,
            other_user_id: self.other_user_id,
            other_username: self.other_username@,
        }
    }
}

impl View for GroupInfo {
    type V = GroupInfoV;

    open spec fn view(&self) -> GroupInfoV {
        GroupInfoV { group_id: self.group_id, name: self.name@ }
    }
}

impl View for MessageInfo {
    type V = MessageInfoV;

    open spec fn view(&self) -> MessageInfoV {
        MessageInfoV {
            message_id: self.message_id,
            sender_id: self.sender_id,
            sender_username: self.sender_username@,
            content: self.content@,
            sent_at: self.sent_at,
        }
    }
}


impl DeepView for UserInfo {
    type V = UserInfoV;

    open spec fn deep_view(&self) -> UserInfoV {
        self@
    }
}

impl DeepView for PrivateChatInfo {
    type V = PrivateChatInfoV;

    open spec fn deep_view(&self) -> PrivateChatInfoV {
        self@
    }
}

impl DeepView for GroupInfo {
    type V = GroupInfoV;

    open spec fn deep_view(&self) -> GroupInfoV {
        self@
    }
}

impl DeepView for MessageInfo {
    type V = MessageInfoV;

    open spec fn deep_view(&self) -> MessageInfoV {
        self@
    }
}

/// `ServerMsg` with its lists seen as sequences and its text as characters.
#[allow(inconsistent_fields)]
pub enum ServerMsgV {
    Registered { user_id: u128 },
    LoginOk { session_token: u128, user_id: u128, username: Seq<char> },
    PushNewMessage { message: MessageInfoV, chat_id: Option<u128>, group_id: Option<u128> },
    PushGroupUpdated,
    PushPrivateChatListUpdated,
    UsersFound { users: Seq<UserInfoV> },
    PrivateChatStarted { chat_id: u128 },
    PrivateChats { chats: Seq<PrivateChatInfoV> },
    PrivateChatMessages { messages: Seq<MessageInfoV> },
    PrivateMessageSent { message_id: u128 },
    GroupCreated { group_id: u128 },
    GroupMemberAdded,
    Groups { groups: Seq<GroupInfoV> },
    GroupMembers { members: Seq<UserInfoV> },
    GroupMessages { messages: Seq<MessageInfoV> },
    GroupMessageSent { message_id: u128 },
    Error { message: Seq<char> },
}

impl View for ServerMsg {
    type V = ServerMsgV;

    open spec fn view(&self) -> ServerMsgV {
        match self {
            ServerMsg::Registered { user_id } => ServerMsgV::Registered { user_id: *user_id },
            ServerMsg::LoginOk { session_token, user_id, username } => ServerMsgV::LoginOk {
                session_token: *session_token,
                user_id: *user_id,
                username: username@,
            },
            ServerMsg::PushNewMessage { message, chat_id, group_id } => ServerMsgV::PushNewMessage {
                message: message@,
                chat_id: *chat_id,
                group_id: *group_id,
            },
            ServerMsg::PushGroupUpdated => ServerMsgV::PushGroupUpdated,
            ServerMsg::PushPrivateChatListUpdated => ServerMsgV::PushPrivateChatListUpdated,
            ServerMsg::UsersFound { users } => ServerMsgV::UsersFound { users: users.deep_view() },
            ServerMsg::PrivateChatStarted { chat_id } => ServerMsgV::PrivateChatStarted {
                chat_id: *chat_id,
            },
            ServerMsg::PrivateChats { chats } => ServerMsgV::PrivateChats {
                chats: chats.deep_view(),
            },
            ServerMsg::PrivateChatMessages { messages } => ServerMsgV::PrivateChatMessages {
                messages: messages.deep_view(),
            },
            ServerMsg::PrivateMessageSent { message_id } => ServerMsgV::PrivateMessageSent {
                message_id: *message_id,
            },
            ServerMsg::GroupCreated { group_id } => ServerMsgV::GroupCreated { group_id: *group_id },
            ServerMsg::GroupMemberAdded => ServerMsgV::GroupMemberAdded,
            ServerMsg::Groups { groups } => ServerMsgV::Groups { groups: groups.deep_view() },
            ServerMsg::GroupMembers { members } => ServerMsgV::GroupMembers {
                members: members.deep_view(),
            },
            ServerMsg::GroupMessages { messages } => ServerMsgV::GroupMessages {
                messages: messages.deep_view(),
            },
            ServerMsg::GroupMessageSent { message_id } => ServerMsgV::GroupMessageSent {
                message_id: *message_id,
            },
            ServerMsg::Error { message } => ServerMsgV::Error { message: message@ },
        }
    }
}

impl DeepView for ServerMsg {
    type V = ServerMsgV;

    open spec fn deep_view(&self) -> ServerMsgV {
        self@
    }
}

} // verus!
