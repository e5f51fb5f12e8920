//! Properties that hold of the server's request handling for every sequence
//! of answers the shell may give.

use vstd::prelude::*;
use crate::dispatch::client_msg_plan;
use crate::effects::{EffectV, Outcome, StepV};
use crate::auth::{hash_result, hashed_password_verifies, verify_result};
use crate::effects::{flag_of, id_of, maybe_id_of, maybe_text_of, text_of};
use crate::errors::AppErrorV;
use crate::handlers::{
    get_group_messages_plan, get_private_chat_messages_plan, login_plan, other_participant,
    recipients_excluding, register_plan, search_users_plan, send_group_message_plan,
    send_private_message_plan,
};
use crate::protocol::MessageInfoV;
use crate::protocol::{ClientMsg, ServerMsgV, UserInfo, UserInfoV};
use crate::text::is_blank_text;

verus! {

/// The session token a request carries, for the requests that need one.
pub open spec fn session_token(msg: ClientMsg) -> Option<u128> {
    match msg {
        ClientMsg::Register { .. } | ClientMsg::Login { .. } | ClientMsg::Listen { .. } => None,
        ClientMsg::SearchUsers { token, .. } => Some(token),
        ClientMsg::StartPrivateChat { token, .. } => Some(token),
        ClientMsg::GetPrivateChats { token } => Some(token),
        ClientMsg::GetPrivateChatMessages { token, .. } => Some(token),
        ClientMsg::SendPrivateMessage { token, .. } => Some(token),
        ClientMsg::CreateGroup { token, .. } => Some(token),
        ClientMsg::AddGroupMember { token, .. } => Some(token),
        ClientMsg::GetGroups { token } => Some(token),
        ClientMsg::GetGroupMembers { token, .. } => Some(token),
        ClientMsg::GetGroupMessages { token, .. } => Some(token),
        ClientMsg::SendGroupMessage { token, .. } => Some(token),
    }
}

/// Every request that needs a session first asks for its token to be
/// validated, and an unknown or expired token is answered with the
/// bad-credentials error and nothing else is done.
pub proof fn session_is_checked_first(msg: ClientMsg, done: Seq<Outcome>, now: i64)
    requires
        session_token(msg) is Some,
    ensures
        done.len() == 0 ==> client_msg_plan(msg, done, now) == StepV::<ServerMsgV>::Perform(
            EffectV::ValidateSession { token: session_token(msg)->0 },
        ),
        done.len() > 0 && done[0] == Outcome::MaybeId(None) ==> client_msg_plan(msg, done, now)
            == StepV::<ServerMsgV>::Finish(Ok(ServerMsgV::Error { message: "Credenziali errate"@ })),
{
}

/// A message is stored only for a caller whose session was valid, who the
/// store confirmed belongs to the chat or group, and whose text is not
/// blank; it is stored in the chat or group the request names, with the
/// request's text.
pub proof fn message_writes_are_authorised(msg: ClientMsg, done: Seq<Outcome>, now: i64)
    ensures
        match client_msg_plan(msg, done, now) {
            StepV::Perform(EffectV::InsertMessage { sender, content, private_chat, group }) => {
                &&& done.len() == 2
                &&& done[0] == Outcome::MaybeId(Some(sender))
                &&& done[1] == Outcome::Flag(true)
                &&& !is_blank_text(content)
                &&& match msg {
                    ClientMsg::SendPrivateMessage { chat_id, content: c, .. } => {
                        private_chat == Some(chat_id) && group is None && content == c@
                    },
                    ClientMsg::SendGroupMessage { group_id, content: c, .. } => {
                        group == Some(group_id) && private_chat is None && content == c@
                    },
                    _ => false,
                }
            },
            _ => true,
        },
{
}

/// A user is added to a group only on the request of a member of that
/// group, and only if the user exists, is not the requester, and is not
/// yet a member.
pub proof fn membership_changes_are_authorised(msg: ClientMsg, done: Seq<Outcome>, now: i64)
    ensures
        match client_msg_plan(msg, done, now) {
            StepV::Perform(EffectV::AddGroupMember { group_id, user_id }) => {
                &&& msg matches ClientMsg::AddGroupMember { group_id: g, .. } && g == group_id
                &&& done.len() == 4
                &&& done[0] matches Outcome::MaybeId(Some(me)) && me != user_id
                &&& done[1] == Outcome::Flag(true)
                &&& done[2] == Outcome::MaybeId(Some(user_id))
                &&& done[3] == Outcome::Flag(false)
            },
            _ => true,
        },
{
}

/// The history of a chat or group, and the member list of a group, are
/// read only for a caller the store confirmed takes part in it.
pub proof fn reads_are_authorised(msg: ClientMsg, done: Seq<Outcome>, now: i64)
    ensures
        match client_msg_plan(msg, done, now) {
            StepV::Perform(EffectV::GetPrivateChatMessages { chat_id, .. }) => {
                &&& msg matches ClientMsg::GetPrivateChatMessages { chat_id: c, .. } && c == chat_id
                &&& done.len() == 2
                &&& done[0] matches Outcome::MaybeId(Some(_))
                &&& done[1] == Outcome::Flag(true)
            },
            StepV::Perform(EffectV::GetGroupMessages { group_id, .. }) => {
                &&& msg matches ClientMsg::GetGroupMessages { group_id: g, .. } && g == group_id
                &&& done.len() == 2
                &&& done[0] matches Outcome::MaybeId(Some(_))
                &&& done[1] == Outcome::Flag(true)
            },
            _ => true,
        },
{
}

/// A successful login happens only after the password was checked
/// against a stored hash and found to match.
pub proof fn login_needs_matching_password(msg: ClientMsg, done: Seq<Outcome>, now: i64)
    ensures
        client_msg_plan(msg, done, now) matches StepV::Finish(Ok(ServerMsgV::LoginOk { .. }))
            ==> {
            &&& msg is Login
            &&& done.len() >= 4
            &&& done[0] matches Outcome::MaybeText(Some(_))
            &&& done[1] == Outcome::Flag(true)
        },
{
}

/// Registration with a blank name or password is refused before anything
/// is done.
pub proof fn blank_registration_is_refused(username: String, password: String, done: Seq<Outcome>, now: i64)
    requires
        is_blank_text(username@) || is_blank_text(password@),
    ensures
        client_msg_plan(ClientMsg::Register { username, password }, done, now)
            == StepV::<ServerMsgV>::Finish(Ok(ServerMsgV::Error { message: "Input vuoti"@ })),
{
}

/// The recipients left after removing `me` never include `me`, and each is
/// one of the members.
pub proof fn recipients_exclude_sender(members: Seq<UserInfoV>, me: u128)
    ensures
        !recipients_excluding(members, me).contains(me),
        forall|i: int| #![trigger recipients_excluding(members, me)[i]]
            0 <= i < recipients_excluding(members, me).len() ==>
            exists|j: int| 0 <= j < members.len() && (#[trigger] members[j]).user_id
                == recipients_excluding(members, me)[i],
    decreases members.len(),
{
    if members.len() > 0 {
        let rest = members.drop_last();
        recipients_exclude_sender(rest, me);
        let r = recipients_excluding(rest, me);
        assert forall|i: int| #![trigger recipients_excluding(members, me)[i]]
            0 <= i < recipients_excluding(members, me).len() implies
            exists|j: int| 0 <= j < members.len() && (#[trigger] members[j]).user_id
                == recipients_excluding(members, me)[i] by {
            if i < r.len() {
                assert(r[i] == recipients_excluding(rest, me)[i]);
                let j = choose|j: int| 0 <= j < rest.len() && (#[trigger] rest[j]).user_id == r[i];
                assert(members[j] == rest[j]);
            } else {
                assert(members[members.len() - 1] == members.last());
            }
        }
    }
}

/// A new message is pushed to everyone it concerns but its sender: in a
/// group, to every other member in the order the store listed them; in a
/// private chat, to the other participant (the sender only if the store
/// lists the sender as both participants).
pub proof fn new_messages_reach_the_others(msg: ClientMsg, done: Seq<Outcome>, now: i64)
    ensures
        match client_msg_plan(msg, done, now) {
            StepV::Perform(EffectV::Push { recipients, msg: ServerMsgV::PushNewMessage { message, chat_id, group_id } }) => {
                &&& done.len() == 5
                &&& done[0] == Outcome::MaybeId(Some(message.sender_id))
                &&& match msg {
                    ClientMsg::SendGroupMessage { group_id: g, .. } => {
                        &&& group_id == Some(g) && chat_id is None
                        &&& done[4] matches Outcome::Users(members)
                        &&& recipients == recipients_excluding(members.deep_view(), message.sender_id)
                        &&& !recipients.contains(message.sender_id)
                    },
                    ClientMsg::SendPrivateMessage { chat_id: c, .. } => {
                        &&& chat_id == Some(c) && group_id is None
                        &&& done[4] matches Outcome::Pair(Some(pair))
                        &&& recipients == seq![other_participant(pair, message.sender_id)]
                        &&& (recipients.contains(message.sender_id) ==> pair == (
                            message.sender_id,
                            message.sender_id,
                        ))
                    },
                    _ => false,
                }
            },
            _ => true,
        },
{
    match msg {
        ClientMsg::SendGroupMessage { .. } => {
            if done.len() == 5 {
                if let Outcome::Users(members) = done[4] {
                    if let Outcome::MaybeId(Some(me)) = done[0] {
                        recipients_exclude_sender(members.deep_view(), me);
                    }
                }
            }
        },
        _ => {},
    }
}

/// A user who registered logs in with the same password. Registration
/// stores the hash it was given for the password; when that hash came from
/// hashing as `hash_password` does, the store gives it back at login along
/// with the identifier it issued, and the check is answered as
/// `verify_password` answers, login succeeds with the new session for that
/// user.
pub proof fn registered_users_can_log_in(
    username: Seq<char>,
    password: Seq<char>,
    hash: Seq<char>,
    reg: Seq<Outcome>,
    login: Seq<Outcome>,
    user_id: u128,
    token: u128,
)
    requires
        register_plan(username, password, reg) == StepV::<u128>::Finish(Ok(user_id)),
        text_of(reg[0]) == Ok::<Seq<char>, AppErrorV>(hash),
        hash_result(password, Ok(hash)),
        login.len() == 4,
        maybe_text_of(login[0]) == Ok::<Option<Seq<char>>, AppErrorV>(Some(hash)),
        verify_result(password, hash, flag_of(login[1])),
        id_of(login[2]) == Ok::<u128, AppErrorV>(token),
        maybe_id_of(login[3]) == Ok::<Option<u128>, AppErrorV>(Some(user_id)),
    ensures
        register_plan(username, password, reg.take(1)) == StepV::<u128>::Perform(
            EffectV::InsertUser { username, pwd_hash: hash },
        ),
        login_plan(username, password, login) == StepV::Finish(Ok((token, user_id, username))),
{
    hashed_password_verifies(password, hash, flag_of(login[1]));
    assert(reg.take(1)[0] == reg[0]);
}

/// The name a new message is pushed under: the one the store found for the
/// sender, and "?" only when it found none.
pub open spec fn pushed_under_found_name(found: Outcome, message: MessageInfoV) -> bool {
    match found {
        Outcome::MaybeText(Some(n)) => message.sender_username == n@,
        Outcome::MaybeText(None) => message.sender_username == "?"@,
        _ => false,
    }
}

/// A group message is pushed exactly as it was stored: with the identifier
/// the store gave it, the sender whose session was checked, the sender's
/// name as the store found it ("?" only when it found none), the request's
/// text and the current time, for the group the request names, to every
/// other member the store listed.
pub proof fn group_pushes_carry_the_stored_message(
    token: u128,
    group_id: u128,
    content: Seq<char>,
    now: i64,
    done: Seq<Outcome>,
)
    ensures
        send_group_message_plan(token, group_id, content, now, done) matches StepV::Perform(
            EffectV::Push { recipients, msg },
        ) ==> {
            &&& done.len() == 5
            &&& msg matches ServerMsgV::PushNewMessage { message, chat_id, group_id: g }
            &&& g == Some(group_id) && chat_id is None
            &&& done[0] == Outcome::MaybeId(Some(message.sender_id))
            &&& done[1] == Outcome::Flag(true)
            &&& done[2] == Outcome::Id(message.message_id)
            &&& pushed_under_found_name(done[3], message)
            &&& message.content == content && message.sent_at == now
            &&& done[4] matches Outcome::Users(members)
            &&& recipients == recipients_excluding(members.deep_view(), message.sender_id)
        },
{
}

/// With the session, membership, stored identifier, found name and member
/// list in hand, sending to a group pushes the message under the sender's
/// name to the other members.
pub proof fn group_messages_are_pushed_under_the_senders_name(
    token: u128,
    group_id: u128,
    content: Seq<char>,
    now: i64,
    me: u128,
    message_id: u128,
    name: String,
    members: Vec<UserInfo>,
)
    requires
        !is_blank_text(content),
    ensures
        send_group_message_plan(
            token,
            group_id,
            content,
            now,
            seq![
                Outcome::MaybeId(Some(me)),
                Outcome::Flag(true),
                Outcome::Id(message_id),
                Outcome::MaybeText(Some(name)),
                Outcome::Users(members),
            ],
        ) == StepV::<u128>::Perform(
            EffectV::Push {
                recipients: recipients_excluding(members.deep_view(), me),
                msg: ServerMsgV::PushNewMessage {
                    message: MessageInfoV {
                        message_id,
                        sender_id: me,
                        sender_username: name@,
                        content,
                        sent_at: now,
                    },
                    chat_id: None,
                    group_id: Some(group_id),
                },
            },
        ),
{
}

/// A private message is pushed exactly as it was stored, under the
/// sender's name as the store found it ("?" only when it found none), to
/// the other participant of the chat the request names.
pub proof fn private_pushes_carry_the_stored_message(
    token: u128,
    chat_id: u128,
    content: Seq<char>,
    now: i64,
    done: Seq<Outcome>,
)
    ensures
        send_private_message_plan(token, chat_id, content, now, done) matches StepV::Perform(
            EffectV::Push { recipients, msg },
        ) ==> {
            &&& done.len() == 5
            &&& msg matches ServerMsgV::PushNewMessage { message, chat_id: c, group_id }
            &&& c == Some(chat_id) && group_id is None
            &&& done[0] == Outcome::MaybeId(Some(message.sender_id))
            &&& done[1] == Outcome::Flag(true)
            &&& done[2] == Outcome::Id(message.message_id)
            &&& pushed_under_found_name(done[3], message)
            &&& message.content == content && message.sent_at == now
            &&& done[4] matches Outcome::Pair(Some(pair))
            &&& recipients == seq![other_participant(pair, message.sender_id)]
        },
{
}

/// Login opens a session only after the stored hash was found and the
/// password matched it, and the session it asks for is the user's, for one
/// day (86400 seconds).
pub proof fn login_sessions_last_a_day(username: Seq<char>, password: Seq<char>, done: Seq<Outcome>, stored: String)
    ensures
        login_plan(username, password, done) matches StepV::Perform(EffectV::InsertSession { username: u, ttl_secs }) ==> {
            &&& u == username
            &&& ttl_secs == 24 * 60 * 60
            &&& done.len() == 2
            &&& done[0] matches Outcome::MaybeText(Some(_))
            &&& done[1] == Outcome::Flag(true)
        },
        login_plan(username, password, seq![Outcome::MaybeText(Some(stored)), Outcome::Flag(true)])
                == StepV::<(u128, u128, Seq<char>)>::Perform(EffectV::InsertSession { username, ttl_secs: 86400 }),
{
}

/// A user search leaves the caller out: it asks the store for names
/// starting with the query, excluding the user whose session was checked,
/// at most twenty of them.
pub proof fn searches_leave_the_caller_out(token: u128, query: Seq<char>, done: Seq<Outcome>, me: u128)
    ensures
        search_users_plan(token, query, done) matches StepV::Perform(EffectV::SearchUsers { my_id, query: q, limit }) ==> {
            &&& done.len() == 1
            &&& done[0] == Outcome::MaybeId(Some(my_id))
            &&& q == query
            &&& limit == 20
        },
        search_users_plan(token, query, seq![Outcome::MaybeId(Some(me))])
                == StepV::<Seq<UserInfoV>>::Perform(EffectV::SearchUsers { my_id: me, query, limit: 20 }),
{
}

/// A history is read for a participant only, for the chat or group the
/// request names and with exactly the limit the request carries.
pub proof fn histories_are_read_with_the_requested_limit(
    token: u128,
    id: u128,
    limit: u32,
    done: Seq<Outcome>,
    me: u128,
)
    ensures
        get_group_messages_plan(token, id, limit, done) matches StepV::Perform(
            EffectV::GetGroupMessages { group_id, limit: l },
        ) ==> {
            &&& group_id == id && l == limit
            &&& done.len() == 2
            &&& done[0] matches Outcome::MaybeId(Some(_))
            &&& done[1] == Outcome::Flag(true)
        },
        get_private_chat_messages_plan(token, id, limit, done) matches StepV::Perform(
            EffectV::GetPrivateChatMessages { chat_id, limit: l },
        ) ==> {
            &&& chat_id == id && l == limit
            &&& done.len() == 2
            &&& done[0] matches Outcome::MaybeId(Some(_))
            &&& done[1] == Outcome::Flag(true)
        },
        get_group_messages_plan(token, id, limit, seq![Outcome::MaybeId(Some(me)), Outcome::Flag(true)])
                == StepV::<Seq<MessageInfoV>>::Perform(EffectV::GetGroupMessages { group_id: id, limit }),
        get_private_chat_messages_plan(token, id, limit, seq![Outcome::MaybeId(Some(me)), Outcome::Flag(true)])
                == StepV::<Seq<MessageInfoV>>::Perform(EffectV::GetPrivateChatMessages { chat_id: id, limit }),
{
}

} // verus!
