//! The client's side of the protocol: which request each piece of network
//! work sends, and what result each reply becomes.

use vstd::prelude::*;
use crate::client::{AppResult, AppResultV, Command, CommandV};
use crate::protocol::{ClientMsg, ServerMsg, ServerMsgV};

verus! {

/// How many messages of a conversation the client loads.
pub const HISTORY_LIMIT: u32 = 50;

/// The request a piece of network work sends.
pub open spec fn request_of(c: CommandV) -> ClientMsgV {
    match c {
        CommandV::StartListener { token } => ClientMsgV::Listen { token },
        CommandV::LoadPrivateChats { token } => ClientMsgV::GetPrivateChats { token },
        CommandV::LoadGroups { token } => ClientMsgV::GetGroups { token },
        CommandV::LoadGroupMembers { token, group_id } => ClientMsgV::GetGroupMembers { token, group_id },
        CommandV::LoadPrivateMessages { token, chat_id } => ClientMsgV::GetPrivateChatMessages {
            token,
            chat_id,
            limit: HISTORY_LIMIT,
        },
        CommandV::LoadGroupMessages { token, group_id } => ClientMsgV::GetGroupMessages {
            token,
            group_id,
            limit: HISTORY_LIMIT,
        },
        CommandV::Search { token, query } => ClientMsgV::SearchUsers { token, query },
        CommandV::StartPrivateChat { token, other_username } => ClientMsgV::StartPrivateChat {
            token,
            other_username,
        },
        CommandV::CreateGroup { token, name } => ClientMsgV::CreateGroup { token, name },
        CommandV::AddGroupMember { token, group_id, username } => ClientMsgV::AddGroupMember {
            token,
            group_id,
            username,
        },
        CommandV::Register { username, password } => ClientMsgV::Register { username, password },
        CommandV::SendPrivateMessage { token, chat_id, content } => ClientMsgV::SendPrivateMessage {
            token,
            chat_id,
            content,
        },
        CommandV::SendGroupMessage { token, group_id, content } => ClientMsgV::SendGroupMessage {
            token,
            group_id,
            content,
        },
    }
}

/// `ClientMsg` with its text seen as characters.
pub enum ClientMsgV {
    Register { username: Seq<char>, password: Seq<char> },
    Login { username: Seq<char>, password: Seq<char> },
    Listen { token: u128 },
    SearchUsers { token: u128, query: Seq<char> },
    StartPrivateChat { token: u128, other_username: Seq<char> },
    GetPrivateChats { token: u128 },
    GetPrivateChatMessages { token: u128, chat_id: u128, limit: u32 },
    SendPrivateMessage { token: u128, chat_id: u128, content: Seq<char> },
    CreateGroup { token: u128, name: Seq<char> },
    AddGroupMember { token: u128, group_id: u128, username: Seq<char> },
    GetGroups { token: u128 },
    GetGroupMembers { token: u128, group_id: u128 },
    GetGroupMessages { token: u128, group_id: u128, limit: u32 },
    SendGroupMessage { token: u128, group_id: u128, content: Seq<char> },
}

impl View for ClientMsg {
    type V = ClientMsgV;

    open spec fn view(&self) -> ClientMsgV {
        match self {
            ClientMsg::Register { username, password } => ClientMsgV::Register {
                username: username@,
                password: password@,
            },
            ClientMsg::Login { username, password } => ClientMsgV::Login {
                username: username@,
                password: password@,
            },
            ClientMsg::Listen { token } => ClientMsgV::Listen { token: *token },
            ClientMsg::SearchUsers { token, query } => ClientMsgV::SearchUsers {
                token: *token,
                query: query@,
            },
            ClientMsg::StartPrivateChat { token, other_username } => ClientMsgV::StartPrivateChat {
                token: *token,
                other_username: other_username@,
            },
            ClientMsg::GetPrivateChats { token } => ClientMsgV::GetPrivateChats { token: *token },
            ClientMsg::GetPrivateChatMessages { token, chat_id, limit } =>
                ClientMsgV::GetPrivateChatMessages { token: *token, chat_id: *chat_id, limit: *limit },
            ClientMsg::SendPrivateMessage { token, chat_id, content } =>
                ClientMsgV::SendPrivateMessage { token: *token, chat_id: *chat_id, content: content@ },
            ClientMsg::CreateGroup { token, name } => ClientMsgV::CreateGroup {
                token: *token,
                name: name@,
            },
            ClientMsg::AddGroupMember { token, group_id, username } => ClientMsgV::AddGroupMember {
                token: *token,
                group_id: *group_id,
                username: username@,
            },
            ClientMsg::GetGroups { token } => ClientMsgV::GetGroups { token: *token },
            ClientMsg::GetGroupMembers { token, group_id } => ClientMsgV::GetGroupMembers {
                token: *token,
                group_id: *group_id,
            },
            ClientMsg::GetGroupMessages { token, group_id, limit } => ClientMsgV::GetGroupMessages {
                token: *token,
                group_id: *group_id,
                limit: *limit,
            },
            ClientMsg::SendGroupMessage { token, group_id, content } => ClientMsgV::SendGroupMessage {
                token: *token,
                group_id: *group_id,
                content: content@,
            },
        }
    }
}

/// The request that carries out a piece of network work.
pub fn request_for(c: Command) -> (m: ClientMsg)
    ensures
        m@ == request_of(c@),
{
    match c {
        Command::StartListener { token } => ClientMsg::Listen { token },
        Command::LoadPrivateChats { token } => ClientMsg::GetPrivateChats { token },
        Command::LoadGroups { token } => ClientMsg::GetGroups { token },
        Command::LoadGroupMembers { token, group_id } => ClientMsg::GetGroupMembers { token, group_id },
        Command::LoadPrivateMessages { token, chat_id } => ClientMsg::GetPrivateChatMessages {
            token,
            chat_id,
            limit: HISTORY_LIMIT,
        },
        Command::LoadGroupMessages { token, group_id } => ClientMsg::GetGroupMessages {
            token,
            group_id,
            limit: HISTORY_LIMIT,
        },
        Command::Search { token, query } => ClientMsg::SearchUsers { token, query },
        Command::StartPrivateChat { token, other_username } => ClientMsg::StartPrivateChat {
            token,
            other_username,
        },
        Command::CreateGroup { token, name } => ClientMsg::CreateGroup { token, name },
        Command::AddGroupMember { token, group_id, username } => ClientMsg::AddGroupMember {
            token,
            group_id,
            username,
        },
        Command::Register { username, password } => ClientMsg::Register { username, password },
        Command::SendPrivateMessage { token, chat_id, content } => ClientMsg::SendPrivateMessage {
            token,
            chat_id,
            content,
        },
        Command::SendGroupMessage { token, group_id, content } => ClientMsg::SendGroupMessage {
            token,
            group_id,
            content,
        },
    }
}

/// What a connection that closed without replying is taken to have said.
pub fn missing_reply() -> (m: ServerMsg)
    ensures
        m@ == (ServerMsgV::Error { message: "Nessuna risposta dal server"@ }),
{
    ServerMsg::Error { message: String::from_str("Nessuna risposta dal server") }
}

pub open spec fn unexpected_reply() -> AppResultV {
    AppResultV::Error { message: "Err"@ }
}

/// The result a reply to `req` becomes: the reply the request expects
/// becomes its result, an error reply keeps its message, and anything else,
/// or no readable reply (`None`), becomes the error "Err".
pub open spec fn reply_result(req: ClientMsgV, reply: Option<ServerMsgV>) -> AppResultV {
    match reply {
        Some(ServerMsgV::Error { message }) => AppResultV::Error { message },
        Some(r) => match (req, r) {
            (ClientMsgV::Login { .. }, ServerMsgV::LoginOk { session_token, user_id, username }) =>
                AppResultV::LoginSuccess { token: session_token, user_id, username },
            (ClientMsgV::Register { .. }, ServerMsgV::Registered { .. }) => AppResultV::RegisterSuccess,
            (ClientMsgV::SearchUsers { .. }, ServerMsgV::UsersFound { users }) => AppResultV::SearchResults {
                users,
            },
            (ClientMsgV::StartPrivateChat { .. }, ServerMsgV::PrivateChatStarted { chat_id }) =>
                AppResultV::PrivateChatStarted { chat_id },
            (ClientMsgV::GetPrivateChats { .. }, ServerMsgV::PrivateChats { chats }) =>
                AppResultV::PrivateChatsLoaded { chats },
            (ClientMsgV::GetPrivateChatMessages { .. }, ServerMsgV::PrivateChatMessages { messages }) =>
                AppResultV::MessagesLoaded { messages },
            (ClientMsgV::SendPrivateMessage { .. }, ServerMsgV::PrivateMessageSent { .. }) =>
                AppResultV::MessageSent,
            (ClientMsgV::CreateGroup { .. }, ServerMsgV::GroupCreated { group_id }) =>
                AppResultV::GroupCreated { group_id },
            (ClientMsgV::AddGroupMember { .. }, ServerMsgV::GroupMemberAdded) => AppResultV::MemberAdded,
            (ClientMsgV::GetGroups { .. }, ServerMsgV::Groups { groups }) => AppResultV::GroupsLoaded {
                groups,
            },
            (ClientMsgV::GetGroupMembers { .. }, ServerMsgV::GroupMembers { members }) =>
                AppResultV::GroupMembersLoaded { members },
            (ClientMsgV::GetGroupMessages { .. }, ServerMsgV::GroupMessages { messages }) =>
                AppResultV::MessagesLoaded { messages },
            (ClientMsgV::SendGroupMessage { .. }, ServerMsgV::GroupMessageSent { .. }) =>
                AppResultV::MessageSent,
            _ => unexpected_reply(),
        },
        None => unexpected_reply(),
    }
}

fn unexpected() -> (r: AppResult)
    ensures
        r@ == unexpected_reply(),
{
    AppResult::Error { message: String::from_str("Err") }
}

/// Turns the reply to `req` into the result the client takes in.
pub fn reply_to_result(req: &ClientMsg, reply: Option<ServerMsg>) -> (r: AppResult)
    ensures
        r@ == reply_result(req@, match reply { Some(m) => Some(m@), None => None }),
{
    let reply = match reply {
        Some(m) => m,
        None => return unexpected(),
    };
    match reply {
        ServerMsg::Error { message } => AppResult::Error { message },
        ServerMsg::LoginOk { session_token, user_id, username } => match req {
            ClientMsg::Login { .. } => AppResult::LoginSuccess { token: session_token, user_id, username },
            _ => unexpected(),
        },
        ServerMsg::Registered { .. } => match req {
            ClientMsg::Register { .. } => AppResult::RegisterSuccess,
            _ => unexpected(),
        },
        ServerMsg::UsersFound { users } => match req {
            ClientMsg::SearchUsers { .. } => AppResult::SearchResults { users },
            _ => unexpected(),
        },
        ServerMsg::PrivateChatStarted { chat_id } => match req {
            ClientMsg::StartPrivateChat { .. } => AppResult::PrivateChatStarted { chat_id },
            _ => unexpected(),
        },
        ServerMsg::PrivateChats { chats } => match req {
            ClientMsg::GetPrivateChats { .. } => AppResult::PrivateChatsLoaded { chats },
            _ => unexpected(),
        },
        ServerMsg::PrivateChatMessages { messages } => match req {
            ClientMsg::GetPrivateChatMessages { .. } => AppResult::MessagesLoaded { messages },
            _ => unexpected(),
        },
        ServerMsg::PrivateMessageSent { .. } => match req {
            ClientMsg::SendPrivateMessage { .. } => AppResult::MessageSent,
            _ => unexpected(),
        },
        ServerMsg::GroupCreated { group_id } => match req {
            ClientMsg::CreateGroup { .. } => AppResult::GroupCreated { group_id },
            _ => unexpected(),
        },
        ServerMsg::GroupMemberAdded => match req {
            ClientMsg::AddGroupMember { .. } => AppResult::MemberAdded,
            _ => unexpected(),
        },
        ServerMsg::Groups { groups } => match req {
            ClientMsg::GetGroups { .. } => AppResult::GroupsLoaded { groups },
            _ => unexpected(),
        },
        ServerMsg::GroupMembers { members } => match req {
            ClientMsg::GetGroupMembers { .. } => AppResult::GroupMembersLoaded { members },
            _ => unexpected(),
        },
        ServerMsg::GroupMessages { messages } => match req {
            ClientMsg::GetGroupMessages { .. } => AppResult::MessagesLoaded { messages },
            _ => unexpected(),
        },
        ServerMsg::GroupMessageSent { .. } => match req {
            ClientMsg::SendGroupMessage { .. } => AppResult::MessageSent,
            _ => unexpected(),
        },
        _ => unexpected(),
    }
}

/// The notifications a listening client takes in; replies to requests are
/// not notifications and are dropped.
pub open spec fn push_result(m: ServerMsgV) -> Option<AppResultV> {
    match m {
        ServerMsgV::PushGroupUpdated => Some(AppResultV::PushGroupListUpdated),
        ServerMsgV::PushPrivateChatListUpdated => Some(AppResultV::PushPrivateChatListUpdated),
        ServerMsgV::PushNewMessage { message, chat_id, group_id } => Some(
            AppResultV::PushNewMessage { message, chat_id, group_id },
        ),
        _ => None,
    }
}

pub fn push_to_result(m: ServerMsg) -> (r: Option<AppResult>)
    ensures
        match r { Some(x) => Some(x@), None => None } == push_result(m@),
{
    match m {
        ServerMsg::PushGroupUpdated => Some(AppResult::PushGroupListUpdated),
        ServerMsg::PushPrivateChatListUpdated => Some(AppResult::PushPrivateChatListUpdated),
        ServerMsg::PushNewMessage { message, chat_id, group_id } => Some(
            AppResult::PushNewMessage { message, chat_id, group_id },
        ),
        _ => None,
    }
}

} // verus!
