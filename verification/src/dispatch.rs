//! Turning a client request into the server's reply.

use vstd::prelude::*;
use crate::effects::{Outcome, Step, StepV};
use crate::errors::{AppError, AppErrorV, error_text};
use crate::handlers::{
    add_group_member_plan, create_group_plan, get_group_members_plan, get_group_messages_plan,
    get_groups_plan, get_private_chat_messages_plan, get_private_chats_plan,
    handle_add_group_member, handle_create_group, handle_get_group_members,
    handle_get_group_messages, handle_get_groups, handle_get_private_chat_messages,
    handle_get_private_chats, handle_login, handle_register, handle_search_users,
    handle_send_group_message, handle_send_private_message, handle_start_private_chat,
    login_plan, register_plan, search_users_plan, send_group_message_plan,
    send_private_message_plan, start_private_chat_plan,
};
use crate::protocol::{ClientMsg, ServerMsg, ServerMsgV};

verus! {

/// The text a client is shown for a failed request.
pub open spec fn error_message(e: AppErrorV) -> Seq<char> {
    match e {
        AppErrorV::UserExists => "Username già in uso"@,
        AppErrorV::BadCredentials => "Credenziali errate"@,
        AppErrorV::Validation(m) => m,
        other => error_text(other),
    }
}

/// The reply that reports a failed request.
pub fn map_error(e: AppError) -> (r: ServerMsg)
    ensures
        r@ == (ServerMsgV::Error { message: error_message(e@) }),
{
    let message = match e {
        AppError::UserExists => String::from_str("Username già in uso"),
        AppError::BadCredentials => String::from_str("Credenziali errate"),
        AppError::Validation(m) => m,
        other => other.to_text(),
    };
    ServerMsg::Error { message }
}

/// A handler's step seen through the reply it finishes with.
pub open spec fn reply_with<V>(s: StepV<V>, ok: spec_fn(V) -> ServerMsgV) -> StepV<ServerMsgV> {
    match s {
        StepV::Perform(e) => StepV::Perform(e),
        StepV::Finish(Ok(v)) => StepV::Finish(Ok(ok(v))),
        StepV::Finish(Err(e)) => StepV::Finish(Ok(ServerMsgV::Error { message: error_message(e) })),
    }
}

/// What serving `msg` does next, given the answers so far.
pub open spec fn client_msg_plan(msg: ClientMsg, done: Seq<Outcome>, now: i64) -> StepV<ServerMsgV> {
    match msg {
        ClientMsg::Register { username, password } => reply_with(
            register_plan(username@, password@, done),
            |id: u128| ServerMsgV::Registered { user_id: id },
        ),
        ClientMsg::Login { username, password } => reply_with(
            login_plan(username@, password@, done),
            |r: (u128, u128, Seq<char>)| ServerMsgV::LoginOk {
                session_token: r.0,
                user_id: r.1,
                username: r.2,
            },
        ),
        ClientMsg::SearchUsers { token, query } => reply_with(
            search_users_plan(token, query@, done),
            |users| ServerMsgV::UsersFound { users },
        ),
        ClientMsg::StartPrivateChat { token, other_username } => reply_with(
            start_private_chat_plan(token, other_username@, done),
            |chat_id: u128| ServerMsgV::PrivateChatStarted { chat_id },
        ),
        ClientMsg::GetPrivateChats { token } => reply_with(
            get_private_chats_plan(token, done),
            |chats| ServerMsgV::PrivateChats { chats },
        ),
        ClientMsg::GetPrivateChatMessages { token, chat_id, limit } => reply_with(
            get_private_chat_messages_plan(token, chat_id, limit, done),
            |messages| ServerMsgV::PrivateChatMessages { messages },
        ),
        ClientMsg::SendPrivateMessage { token, chat_id, content } => reply_with(
            send_private_message_plan(token, chat_id, content@, now, done),
            |message_id: u128| ServerMsgV::PrivateMessageSent { message_id },
        ),
        ClientMsg::CreateGroup { token, name } => reply_with(
            create_group_plan(token, name@, done),
            |group_id: u128| ServerMsgV::GroupCreated { group_id },
        ),
        ClientMsg::AddGroupMember { token, group_id, username } => reply_with(
            add_group_member_plan(token, group_id, username@, done),
            |u: ()| ServerMsgV::GroupMemberAdded,
        ),
        ClientMsg::GetGroups { token } => reply_with(
            get_groups_plan(token, done),
            |groups| ServerMsgV::Groups { groups },
        ),
        ClientMsg::GetGroupMembers { token, group_id } => reply_with(
            get_group_members_plan(token, group_id, done),
            |members| ServerMsgV::GroupMembers { members },
        ),
        ClientMsg::GetGroupMessages { token, group_id, limit } => reply_with(
            get_group_messages_plan(token, group_id, limit, done),
            |messages| ServerMsgV::GroupMessages { messages },
        ),
        ClientMsg::SendGroupMessage { token, group_id, content } => reply_with(
            send_group_message_plan(token, group_id, content@, now, done),
            |message_id: u128| ServerMsgV::GroupMessageSent { message_id },
        ),
        ClientMsg::Listen { .. } => StepV::Finish(
            Ok(ServerMsgV::Error { message: "Messaggio non gestito"@ }),
        ),
    }
}

/// Serves one request: asks for the next effect, or finishes with the
/// reply to send back; failures are reported as an error reply. `now` is
/// the current time in Unix seconds, used as the send time of new messages.
pub fn handle_client_msg(msg: &ClientMsg, done: &Vec<Outcome>, now: i64) -> (step: Step<ServerMsg>)
    ensures
        step@ == client_msg_plan(*msg, done@, now),
{
    match msg {
        ClientMsg::Register { username, password } => {
            match handle_register(username, password, done) {
                Step::Perform(e) => Step::Perform(e),
                Step::Finish(Ok(id)) => Step::Finish(Ok(ServerMsg::Registered { user_id: id })),
                Step::Finish(Err(e)) => Step::Finish(Ok(map_error(e))),
            }
        },
        ClientMsg::Login { username, password } => {
            match handle_login(username, password, done) {
                Step::Perform(e) => Step::Perform(e),
                Step::Finish(Ok((session_token, user_id, username))) => Step::Finish(
                    Ok(ServerMsg::LoginOk { session_token, user_id, username }),
                ),
                Step::Finish(Err(e)) => Step::Finish(Ok(map_error(e))),
            }
        },
        ClientMsg::SearchUsers { token, query } => {
            match handle_search_users(*token, query, done) {
                Step::Perform(e) => Step::Perform(e),
                Step::Finish(Ok(users)) => Step::Finish(Ok(ServerMsg::UsersFound { users })),
                Step::Finish(Err(e)) => Step::Finish(Ok(map_error(e))),
            }
        },
        ClientMsg::StartPrivateChat { token, other_username } => {
            match handle_start_private_chat(*token, other_username, done) {
                Step::Perform(e) => Step::Perform(e),
                Step::Finish(Ok(chat_id)) => Step::Finish(Ok(ServerMsg::PrivateChatStarted { chat_id })),
                Step::Finish(Err(e)) => Step::Finish(Ok(map_error(e))),
            }
        },
        ClientMsg::GetPrivateChats { token } => {
            match handle_get_private_chats(*token, done) {
                Step::Perform(e) => Step::Perform(e),
                Step::Finish(Ok(chats)) => Step::Finish(Ok(ServerMsg::PrivateChats { chats })),
                Step::Finish(Err(e)) => Step::Finish(Ok(map_error(e))),
            }
        },
        ClientMsg::GetPrivateChatMessages { token, chat_id, limit } => {
            match handle_get_private_chat_messages(*token, *chat_id, *limit, done) {
                Step::Perform(e) => Step::Perform(e),
                Step::Finish(Ok(messages)) => Step::Finish(Ok(ServerMsg::PrivateChatMessages { messages })),
                Step::Finish(Err(e)) => Step::Finish(Ok(map_error(e))),
            }
        },
        ClientMsg::SendPrivateMessage { token, chat_id, content } => {
            match handle_send_private_message(*token, *chat_id, content, now, done) {
                Step::Perform(e) => Step::Perform(e),
                Step::Finish(Ok(message_id)) => Step::Finish(Ok(ServerMsg::PrivateMessageSent { message_id })),
                Step::Finish(Err(e)) => Step::Finish(Ok(map_error(e))),
            }
        },
        ClientMsg::CreateGroup { token, name } => {
            match handle_create_group(*token, name, done) {
                Step::Perform(e) => Step::Perform(e),
                Step::Finish(Ok(group_id)) => Step::Finish(Ok(ServerMsg::GroupCreated { group_id })),
                Step::Finish(Err(e)) => Step::Finish(Ok(map_error(e))),
            }
        },
        ClientMsg::AddGroupMember { token, group_id, username } => {
            match handle_add_group_member(*token, *group_id, username, done) {
                Step::Perform(e) => Step::Perform(e),
                Step::Finish(Ok(())) => Step::Finish(Ok(ServerMsg::GroupMemberAdded)),
                Step::Finish(Err(e)) => Step::Finish(Ok(map_error(e))),
            }
        },
        ClientMsg::GetGroups { token } => {
            match handle_get_groups(*token, done) {
                Step::Perform(e) => Step::Perform(e),
                Step::Finish(Ok(groups)) => Step::Finish(Ok(ServerMsg::Groups { groups })),
                Step::Finish(Err(e)) => Step::Finish(Ok(map_error(e))),
            }
        },
        ClientMsg::GetGroupMembers { token, group_id } => {
            match handle_get_group_members(*token, *group_id, done) {
                Step::Perform(e) => Step::Perform(e),
                Step::Finish(Ok(members)) => Step::Finish(Ok(ServerMsg::GroupMembers { members })),
                Step::Finish(Err(e)) => Step::Finish(Ok(map_error(e))),
            }
        },
        ClientMsg::GetGroupMessages { token, group_id, limit } => {
            match handle_get_group_messages(*token, *group_id, *limit, done) {
                Step::Perform(e) => Step::Perform(e),
                Step::Finish(Ok(messages)) => Step::Finish(Ok(ServerMsg::GroupMessages { messages })),
                Step::Finish(Err(e)) => Step::Finish(Ok(map_error(e))),
            }
        },
        ClientMsg::SendGroupMessage { token, group_id, content } => {
            match handle_send_group_message(*token, *group_id, content, now, done) {
                Step::Perform(e) => Step::Perform(e),
                Step::Finish(Ok(message_id)) => Step::Finish(Ok(ServerMsg::GroupMessageSent { message_id })),
                Step::Finish(Err(e)) => Step::Finish(Ok(map_error(e))),
            }
        },
        ClientMsg::Listen { .. } => Step::Finish(
            Ok(ServerMsg::Error { message: String::from_str("Messaggio non gestito") }),
        ),
    }
}

} // verus!
