//! The server's request handlers as resumable decision procedures.
//!
//! Each handler is called with the answers to the effects it asked for so far
//! (`done`, oldest first). Given those answers it either asks for the next
//! effect or finishes with its result. The `*_plan` functions state, for every
//! sequence of answers, what the handler does next.

use vstd::prelude::*;
use crate::effects::{
    Effect, EffectV, Outcome, Step, StepV, chats_answer, chats_of, done_answer, done_of,
    flag_answer, flag_of, groups_answer, groups_of, id_answer, id_of, maybe_id_answer,
    maybe_id_of, maybe_text_answer, maybe_text_of, messages_answer, messages_of, pair_answer,
    pair_of, session_answer, session_of, text_answer, text_of, users_answer, users_of,
};
use crate::errors::{AppError, AppErrorV};
use crate::protocol::{
    GroupInfo, GroupInfoV, MessageInfo, MessageInfoV, PrivateChatInfo, PrivateChatInfoV,
    ServerMsg, ServerMsgV, UserInfo, UserInfoV,
};
use crate::text::{is_blank, is_blank_text};

verus! {

/// How long a login session lasts, as handed to the session store.
pub const SESSION_TTL_SECS: i64 = 86400;

/// How many users a search returns at most.
pub const SEARCH_LIMIT: u32 = 20;

pub open spec fn invalid(msg: Seq<char>) -> AppErrorV {
    AppErrorV::Validation(msg)
}

pub fn invalid_error(msg: &str) -> (e: AppError)
    ensures
        e@ == invalid(msg@),
{
    AppError::Validation(String::from_str(msg))
}

pub open spec fn fail<V>(e: AppErrorV) -> StepV<V> {
    StepV::Finish(Err(e))
}

pub open spec fn finish<V>(r: Result<V, AppErrorV>) -> StepV<V> {
    StepV::Finish(r)
}

pub open spec fn ask<V>(e: EffectV) -> StepV<V> {
    StepV::Perform(e)
}

// ---------------------------------------------------------------------------
// Registration and login
// ---------------------------------------------------------------------------

pub open spec fn register_plan(username: Seq<char>, password: Seq<char>, done: Seq<Outcome>) -> StepV<u128> {
    if is_blank_text(username) || is_blank_text(password) {
        fail(invalid("Input vuoti"@))
    } else if done.len() == 0 {
        ask(EffectV::HashPassword { password })
    } else {
        match text_of(done[0]) {
            Err(e) => fail(e),
            Ok(hash) => if done.len() == 1 {
                ask(EffectV::InsertUser { username, pwd_hash: hash })
            } else {
                finish(id_of(done[1]))
            },
        }
    }
}

/// Registers a user under a hash of the password.
pub fn handle_register(username: &String, password: &String, done: &Vec<Outcome>) -> (step: Step<u128>)
    ensures
        step@ == register_plan(username@, password@, done@),
{
    if is_blank(username.as_str()) || is_blank(password.as_str()) {
        return Step::Finish(Err(invalid_error("Input vuoti")));
    }
    if done.len() == 0 {
        return Step::Perform(Effect::HashPassword { password: password.clone() });
    }
    let hash = match text_answer(&done[0]) {
        Ok(h) => h,
        Err(e) => return Step::Finish(Err(e)),
    };
    if done.len() == 1 {
        return Step::Perform(Effect::InsertUser { username: username.clone(), pwd_hash: hash });
    }
    Step::Finish(id_answer(&done[1]))
}

pub open spec fn login_plan(username: Seq<char>, password: Seq<char>, done: Seq<Outcome>) -> StepV<(u128, u128, Seq<char>)> {
    if done.len() == 0 {
        ask(EffectV::GetPwdHash { username })
    } else {
        match maybe_text_of(done[0]) {
            Err(e) => fail(e),
            Ok(None) => fail(AppErrorV::BadCredentials),
            Ok(Some(stored)) => if done.len() == 1 {
                ask(EffectV::VerifyPassword { password, stored_hash: stored })
            } else {
                match flag_of(done[1]) {
                    Err(e) => fail(e),
                    Ok(false) => fail(AppErrorV::BadCredentials),
                    Ok(true) => if done.len() == 2 {
                        ask(EffectV::InsertSession { username, ttl_secs: SESSION_TTL_SECS })
                    } else {
                        match id_of(done[2]) {
                            Err(e) => fail(e),
                            Ok(token) => if done.len() == 3 {
                                ask(EffectV::GetUserId { username })
                            } else {
                                match maybe_id_of(done[3]) {
                                    Err(e) => fail(e),
                                    Ok(None) => fail(AppErrorV::BadCredentials),
                                    Ok(Some(user_id)) => finish(Ok((token, user_id, username))),
                                }
                            },
                        }
                    },
                }
            },
        }
    }
}

/// Checks the password against the stored hash and opens a session:
/// the result is the session token, the user's identifier and the name.
pub fn handle_login(username: &String, password: &String, done: &Vec<Outcome>) -> (step: Step<(u128, u128, String)>)
    ensures
        step@ == login_plan(username@, password@, done@),
{
    if done.len() == 0 {
        return Step::Perform(Effect::GetPwdHash { username: username.clone() });
    }
    let stored = match maybe_text_answer(&done[0]) {
        Ok(Some(s)) => s,
        Ok(None) => return Step::Finish(Err(AppError::BadCredentials)),
        Err(e) => return Step::Finish(Err(e)),
    };
    if done.len() == 1 {
        return Step::Perform(Effect::VerifyPassword { password: password.clone(), stored_hash: stored });
    }
    match flag_answer(&done[1]) {
        Ok(true) => {},
        Ok(false) => return Step::Finish(Err(AppError::BadCredentials)),
        Err(e) => return Step::Finish(Err(e)),
    }
    if done.len() == 2 {
        return Step::Perform(Effect::InsertSession { username: username.clone(), ttl_secs: SESSION_TTL_SECS });
    }
    let token = match id_answer(&done[2]) {
        Ok(t) => t,
        Err(e) => return Step::Finish(Err(e)),
    };
    if done.len() == 3 {
        return Step::Perform(Effect::GetUserId { username: username.clone() });
    }
    match maybe_id_answer(&done[3]) {
        Ok(Some(user_id)) => Step::Finish(Ok((token, user_id, username.clone()))),
        Ok(None) => Step::Finish(Err(AppError::BadCredentials)),
        Err(e) => Step::Finish(Err(e)),
    }
}

pub open spec fn search_users_plan(token: u128, query: Seq<char>, done: Seq<Outcome>) -> StepV<Seq<UserInfoV>> {
    if done.len() == 0 {
        ask(EffectV::ValidateSession { token })
    } else {
        match session_of(done[0]) {
            Err(e) => fail(e),
            Ok(me) => if done.len() == 1 {
                ask(EffectV::SearchUsers { my_id: me, query, limit: SEARCH_LIMIT })
            } else {
                finish(users_of(done[1]))
            },
        }
    }
}

/// Finds other users whose name starts with the query.
pub fn handle_search_users(token: u128, query: &String, done: &Vec<Outcome>) -> (step: Step<Vec<UserInfo>>)
    ensures
        step@ == search_users_plan(token, query@, done@),
{
    if done.len() == 0 {
        return Step::Perform(Effect::ValidateSession { token });
    }
    let me = match session_answer(&done[0]) {
        Ok(u) => u,
        Err(e) => return Step::Finish(Err(e)),
    };
    if done.len() == 1 {
        return Step::Perform(Effect::SearchUsers { my_id: me, query: query.clone(), limit: SEARCH_LIMIT });
    }
    Step::Finish(users_answer(&done[1]))
}

// ---------------------------------------------------------------------------
// Private chats
// ---------------------------------------------------------------------------

pub open spec fn start_private_chat_plan(token: u128, other_username: Seq<char>, done: Seq<Outcome>) -> StepV<u128> {
    if done.len() == 0 {
        ask(EffectV::ValidateSession { token })
    } else {
        match session_of(done[0]) {
            Err(e) => fail(e),
            Ok(me) => if done.len() == 1 {
                ask(EffectV::GetUserId { username: other_username })
            } else {
                match maybe_id_of(done[1]) {
                    Err(e) => fail(e),
                    Ok(None) => fail(invalid("Utente non trovato"@)),
                    Ok(Some(other)) => if me == other {
                        fail(invalid("No chat con te stesso"@))
                    } else if done.len() == 2 {
                        ask(EffectV::CreatePrivateChat { user1: me, user2: other })
                    } else {
                        match id_of(done[2]) {
                            Err(e) => fail(e),
                            Ok(chat_id) => if done.len() == 3 {
                                ask(EffectV::Push {
                                    recipients: seq![other],
                                    msg: ServerMsgV::PushPrivateChatListUpdated,
                                })
                            } else {
                                match done_of(done[3]) {
                                    Err(e) => fail(e),
                                    Ok(_) => finish(Ok(chat_id)),
                                }
                            },
                        }
                    },
                }
            },
        }
    }
}

/// Opens (or finds) the private chat with another user and tells that user
/// that their chat list changed.
pub fn handle_start_private_chat(token: u128, other_username: &String, done: &Vec<Outcome>) -> (step: Step<u128>)
    ensures
        step@ == start_private_chat_plan(token, other_username@, done@),
{
    if done.len() == 0 {
        return Step::Perform(Effect::ValidateSession { token });
    }
    let me = match session_answer(&done[0]) {
        Ok(u) => u,
        Err(e) => return Step::Finish(Err(e)),
    };
    if done.len() == 1 {
        return Step::Perform(Effect::GetUserId { username: other_username.clone() });
    }
    let other = match maybe_id_answer(&done[1]) {
        Ok(Some(o)) => o,
        Ok(None) => return Step::Finish(Err(invalid_error("Utente non trovato"))),
        Err(e) => return Step::Finish(Err(e)),
    };
    if me == other {
        return Step::Finish(Err(invalid_error("No chat con te stesso")));
    }
    if done.len() == 2 {
        return Step::Perform(Effect::CreatePrivateChat { user1: me, user2: other });
    }
    let chat_id = match id_answer(&done[2]) {
        Ok(c) => c,
        Err(e) => return Step::Finish(Err(e)),
    };
    if done.len() == 3 {
        let mut recipients: Vec<u128> = Vec::new();
        recipients.push(other);
        assert(recipients@ =~= seq![other]);
        return Step::Perform(Effect::Push { recipients, msg: ServerMsg::PushPrivateChatListUpdated });
    }
    match done_answer(&done[3]) {
        Ok(_) => Step::Finish(Ok(chat_id)),
        Err(e) => Step::Finish(Err(e)),
    }
}

pub open spec fn get_private_chats_plan(token: u128, done: Seq<Outcome>) -> StepV<Seq<PrivateChatInfoV>> {
    if done.len() == 0 {
        ask(EffectV::ValidateSession { token })
    } else {
        match session_of(done[0]) {
            Err(e) => fail(e),
            Ok(me) => if done.len() == 1 {
                ask(EffectV::GetUserPrivateChats { user_id: me })
            } else {
                finish(chats_of(done[1]))
            },
        }
    }
}

/// Lists the caller's private chats.
pub fn handle_get_private_chats(token: u128, done: &Vec<Outcome>) -> (step: Step<Vec<PrivateChatInfo>>)
    ensures
        step@ == get_private_chats_plan(token, done@),
{
    if done.len() == 0 {
        return Step::Perform(Effect::ValidateSession { token });
    }
    let me = match session_answer(&done[0]) {
        Ok(u) => u,
        Err(e) => return Step::Finish(Err(e)),
    };
    if done.len() == 1 {
        return Step::Perform(Effect::GetUserPrivateChats { user_id: me });
    }
    Step::Finish(chats_answer(&done[1]))
}

pub open spec fn get_private_chat_messages_plan(token: u128, chat_id: u128, limit: u32, done: Seq<Outcome>) -> StepV<Seq<MessageInfoV>> {
    if done.len() == 0 {
        ask(EffectV::ValidateSession { token })
    } else {
        match session_of(done[0]) {
            Err(e) => fail(e),
            Ok(me) => if done.len() == 1 {
                ask(EffectV::IsUserInPrivateChat { user_id: me, chat_id })
            } else {
                match flag_of(done[1]) {
                    Err(e) => fail(e),
                    Ok(false) => fail(invalid("Accesso negato"@)),
                    Ok(true) => if done.len() == 2 {
                        ask(EffectV::GetPrivateChatMessages { chat_id, limit })
                    } else {
                        finish(messages_of(done[2]))
                    },
                }
            },
        }
    }
}

/// The latest messages of a private chat the caller takes part in.
pub fn handle_get_private_chat_messages(token: u128, chat_id: u128, limit: u32, done: &Vec<Outcome>) -> (step: Step<Vec<MessageInfo>>)
    ensures
        step@ == get_private_chat_messages_plan(token, chat_id, limit, done@),
{
    if done.len() == 0 {
        return Step::Perform(Effect::ValidateSession { token });
    }
    let me = match session_answer(&done[0]) {
        Ok(u) => u,
        Err(e) => return Step::Finish(Err(e)),
    };
    if done.len() == 1 {
        return Step::Perform(Effect::IsUserInPrivateChat { user_id: me, chat_id });
    }
    match flag_answer(&done[1]) {
        Ok(true) => {},
        Ok(false) => return Step::Finish(Err(invalid_error("Accesso negato"))),
        Err(e) => return Step::Finish(Err(e)),
    }
    if done.len() == 2 {
        return Step::Perform(Effect::GetPrivateChatMessages { chat_id, limit });
    }
    Step::Finish(messages_answer(&done[2]))
}

/// The other participant of a private chat, seen from `me`.
pub open spec fn other_participant(pair: (u128, u128), me: u128) -> u128 {
    if pair.0 == me { pair.1 } else { pair.0 }
}

/// The name shown for a sender whose name cannot be found.
pub open spec fn sender_name(found: Option<Seq<char>>) -> Seq<char> {
    match found {
        Some(n) => n,
        None => "?"@,
    }
}

pub open spec fn send_private_message_plan(token: u128, chat_id: u128, content: Seq<char>, now: i64, done: Seq<Outcome>) -> StepV<u128> {
    if done.len() == 0 {
        ask(EffectV::ValidateSession { token })
    } else {
        match session_of(done[0]) {
            Err(e) => fail(e),
            Ok(me) => if is_blank_text(content) {
                fail(invalid("Messaggio vuoto"@))
            } else if done.len() == 1 {
                ask(EffectV::IsUserInPrivateChat { user_id: me, chat_id })
            } else {
                match flag_of(done[1]) {
                    Err(e) => fail(e),
                    Ok(false) => fail(invalid("Accesso negato"@)),
                    Ok(true) => if done.len() == 2 {
                        ask(EffectV::InsertMessage {
                            sender: me,
                            content,
                            private_chat: Some(chat_id),
                            group: None,
                        })
                    } else {
                        match id_of(done[2]) {
                            Err(e) => fail(e),
                            Ok(message_id) => if done.len() == 3 {
                                ask(EffectV::GetUsername { user_id: me })
                            } else {
                                match maybe_text_of(done[3]) {
                                    Err(e) => fail(e),
                                    Ok(found) => if done.len() == 4 {
                                        ask(EffectV::GetPrivateChatMembers { chat_id })
                                    } else {
                                        match pair_of(done[4]) {
                                            Err(e) => fail(e),
                                            Ok(None) => finish(Ok(message_id)),
                                            Ok(Some(pair)) => if done.len() == 5 {
                                                ask(EffectV::Push {
                                                    recipients: seq![other_participant(pair, me)],
                                                    msg: ServerMsgV::PushNewMessage {
                                                        message: MessageInfoV {
                                                            message_id,
                                                            sender_id: me,
                                                            sender_username: sender_name(found),
                                                            content,
                                                            sent_at: now,
                                                        },
                                                        chat_id: Some(chat_id),
                                                        group_id: None,
                                                    },
                                                })
                                            } else {
                                                match done_of(done[5]) {
                                                    Err(e) => fail(e),
                                                    Ok(_) => finish(Ok(message_id)),
                                                }
                                            },
                                        }
                                    },
                                }
                            },
                        }
                    },
                }
            },
        }
    }
}

pub fn name_or_placeholder(found: Option<String>) -> (r: String)
    ensures
        r@ == sender_name(match found { Some(n) => Some(n@), None => None }),
{
    match found {
        Some(n) => n,
        None => String::from_str("?"),
    }
}

/// Stores a message in a private chat of the caller and pushes it to the
/// other participant; `now` is the send time in Unix seconds.
pub fn handle_send_private_message(token: u128, chat_id: u128, content: &String, now: i64, done: &Vec<Outcome>) -> (step: Step<u128>)
    ensures
        step@ == send_private_message_plan(token, chat_id, content@, now, done@),
{
    if done.len() == 0 {
        return Step::Perform(Effect::ValidateSession { token });
    }
    let me = match session_answer(&done[0]) {
        Ok(u) => u,
        Err(e) => return Step::Finish(Err(e)),
    };
    if is_blank(content.as_str()) {
        return Step::Finish(Err(invalid_error("Messaggio vuoto")));
    }
    if done.len() == 1 {
        return Step::Perform(Effect::IsUserInPrivateChat { user_id: me, chat_id });
    }
    match flag_answer(&done[1]) {
        Ok(true) => {},
        Ok(false) => return Step::Finish(Err(invalid_error("Accesso negato"))),
        Err(e) => return Step::Finish(Err(e)),
    }
    if done.len() == 2 {
        return Step::Perform(Effect::InsertMessage {
            sender: me,
            content: content.clone(),
            private_chat: Some(chat_id),
            group: None,
        });
    }
    let message_id = match id_answer(&done[2]) {
        Ok(m) => m,
        Err(e) => return Step::Finish(Err(e)),
    };
    if done.len() == 3 {
        return Step::Perform(Effect::GetUsername { user_id: me });
    }
    let found = match maybe_text_answer(&done[3]) {
        Ok(f) => f,
        Err(e) => return Step::Finish(Err(e)),
    };
    if done.len() == 4 {
        return Step::Perform(Effect::GetPrivateChatMembers { chat_id });
    }
    let pair = match pair_answer(&done[4]) {
        Ok(Some(p)) => p,
        Ok(None) => return Step::Finish(Ok(message_id)),
        Err(e) => return Step::Finish(Err(e)),
    };
    if done.len() == 5 {
        let other = if pair.0 == me { pair.1 } else { pair.0 };
        let mut recipients: Vec<u128> = Vec::new();
        recipients.push(other);
        assert(recipients@ =~= seq![other]);
        let message = MessageInfo {
            message_id,
            sender_id: me,
            sender_username: name_or_placeholder(found),
            content: content.clone(),
            sent_at: now,
        };
        return Step::Perform(Effect::Push {
            recipients,
            msg: ServerMsg::PushNewMessage { message, chat_id: Some(chat_id), group_id: None },
        });
    }
    match done_answer(&done[5]) {
        Ok(_) => Step::Finish(Ok(message_id)),
        Err(e) => Step::Finish(Err(e)),
    }
}

// ---------------------------------------------------------------------------
// Groups
// ---------------------------------------------------------------------------

pub open spec fn create_group_plan(token: u128, name: Seq<char>, done: Seq<Outcome>) -> StepV<u128> {
    if done.len() == 0 {
        ask(EffectV::ValidateSession { token })
    } else {
        match session_of(done[0]) {
            Err(e) => fail(e),
            Ok(me) => if is_blank_text(name) {
                fail(invalid("Nome vuoto"@))
            } else if done.len() == 1 {
                ask(EffectV::CreateGroup { name, creator: me })
            } else {
                finish(id_of(done[1]))
            },
        }
    }
}

/// Creates a group with the caller as its creator.
pub fn handle_create_group(token: u128, name: &String, done: &Vec<Outcome>) -> (step: Step<u128>)
    ensures
        step@ == create_group_plan(token, name@, done@),
{
    if done.len() == 0 {
        return Step::Perform(Effect::ValidateSession { token });
    }
    let me = match session_answer(&done[0]) {
        Ok(u) => u,
        Err(e) => return Step::Finish(Err(e)),
    };
    if is_blank(name.as_str()) {
        return Step::Finish(Err(invalid_error("Nome vuoto")));
    }
    if done.len() == 1 {
        return Step::Perform(Effect::CreateGroup { name: name.clone(), creator: me });
    }
    Step::Finish(id_answer(&done[1]))
}

pub open spec fn add_group_member_plan(token: u128, group_id: u128, username: Seq<char>, done: Seq<Outcome>) -> StepV<()> {
    if done.len() == 0 {
        ask(EffectV::ValidateSession { token })
    } else {
        match session_of(done[0]) {
            Err(e) => fail(e),
            Ok(me) => if done.len() == 1 {
                ask(EffectV::IsUserInGroup { user_id: me, group_id })
            } else {
                match flag_of(done[1]) {
                    Err(e) => fail(e),
                    Ok(false) => fail(invalid("Non membro"@)),
                    Ok(true) => if done.len() == 2 {
                        ask(EffectV::GetUserId { username })
                    } else {
                        match maybe_id_of(done[2]) {
                            Err(e) => fail(e),
                            Ok(None) => fail(invalid("Utente non trovato"@)),
                            Ok(Some(target)) => if target == me {
                                fail(invalid("Auto-aggiunta vietata"@))
                            } else if done.len() == 3 {
                                ask(EffectV::IsUserInGroup { user_id: target, group_id })
                            } else {
                                match flag_of(done[3]) {
                                    Err(e) => fail(e),
                                    Ok(true) => fail(invalid("Già membro"@)),
                                    Ok(false) => if done.len() == 4 {
                                        ask(EffectV::AddGroupMember { group_id, user_id: target })
                                    } else {
                                        match done_of(done[4]) {
                                            Err(e) => fail(e),
                                            Ok(_) => if done.len() == 5 {
                                                ask(EffectV::Push {
                                                    recipients: seq![target],
                                                    msg: ServerMsgV::PushGroupUpdated,
                                                })
                                            } else {
                                                finish(done_of(done[5]))
                                            },
                                        }
                                    },
                                }
                            },
                        }
                    },
                }
            },
        }
    }
}

/// A member of a group adds another user to it and tells that user.
pub fn handle_add_group_member(token: u128, group_id: u128, username: &String, done: &Vec<Outcome>) -> (step: Step<()>)
    ensures
        step@ == add_group_member_plan(token, group_id, username@, done@),
{
    if done.len() == 0 {
        return Step::Perform(Effect::ValidateSession { token });
    }
    let me = match session_answer(&done[0]) {
        Ok(u) => u,
        Err(e) => return Step::Finish(Err(e)),
    };
    if done.len() == 1 {
        return Step::Perform(Effect::IsUserInGroup { user_id: me, group_id });
    }
    match flag_answer(&done[1]) {
        Ok(true) => {},
        Ok(false) => return Step::Finish(Err(invalid_error("Non membro"))),
        Err(e) => return Step::Finish(Err(e)),
    }
    if done.len() == 2 {
        return Step::Perform(Effect::GetUserId { username: username.clone() });
    }
    let target = match maybe_id_answer(&done[2]) {
        Ok(Some(t)) => t,
        Ok(None) => return Step::Finish(Err(invalid_error("Utente non trovato"))),
        Err(e) => return Step::Finish(Err(e)),
    };
    if target == me {
        return Step::Finish(Err(invalid_error("Auto-aggiunta vietata")));
    }
    if done.len() == 3 {
        return Step::Perform(Effect::IsUserInGroup { user_id: target, group_id });
    }
    match flag_answer(&done[3]) {
        Ok(false) => {},
        Ok(true) => return Step::Finish(Err(invalid_error("Già membro"))),
        Err(e) => return Step::Finish(Err(e)),
    }
    if done.len() == 4 {
        return Step::Perform(Effect::AddGroupMember { group_id, user_id: target });
    }
    match done_answer(&done[4]) {
        Ok(_) => {},
        Err(e) => return Step::Finish(Err(e)),
    }
    if done.len() == 5 {
        let mut recipients: Vec<u128> = Vec::new();
        recipients.push(target);
        assert(recipients@ =~= seq![target]);
        return Step::Perform(Effect::Push { recipients, msg: ServerMsg::PushGroupUpdated });
    }
    Step::Finish(done_answer(&done[5]))
}

pub open spec fn get_groups_plan(token: u128, done: Seq<Outcome>) -> StepV<Seq<GroupInfoV>> {
    if done.len() == 0 {
        ask(EffectV::ValidateSession { token })
    } else {
        match session_of(done[0]) {
            Err(e) => fail(e),
            Ok(me) => if done.len() == 1 {
                ask(EffectV::GetUserGroups { user_id: me })
            } else {
                finish(groups_of(done[1]))
            },
        }
    }
}

/// Lists the groups the caller belongs to.
pub fn handle_get_groups(token: u128, done: &Vec<Outcome>) -> (step: Step<Vec<GroupInfo>>)
    ensures
        step@ == get_groups_plan(token, done@),
{
    if done.len() == 0 {
        return Step::Perform(Effect::ValidateSession { token });
    }
    let me = match session_answer(&done[0]) {
        Ok(u) => u,
        Err(e) => return Step::Finish(Err(e)),
    };
    if done.len() == 1 {
        return Step::Perform(Effect::GetUserGroups { user_id: me });
    }
    Step::Finish(groups_answer(&done[1]))
}

pub open spec fn get_group_members_plan(token: u128, group_id: u128, done: Seq<Outcome>) -> StepV<Seq<UserInfoV>> {
    if done.len() == 0 {
        ask(EffectV::ValidateSession { token })
    } else {
        match session_of(done[0]) {
            Err(e) => fail(e),
            Ok(me) => if done.len() == 1 {
                ask(EffectV::IsUserInGroup { user_id: me, group_id })
            } else {
                match flag_of(done[1]) {
                    Err(e) => fail(e),
                    Ok(false) => fail(invalid("Accesso negato"@)),
                    Ok(true) => if done.len() == 2 {
                        ask(EffectV::GetGroupMembers { group_id })
                    } else {
                        finish(users_of(done[2]))
                    },
                }
            },
        }
    }
}

/// The members of a group the caller belongs to.
pub fn handle_get_group_members(token: u128, group_id: u128, done: &Vec<Outcome>) -> (step: Step<Vec<UserInfo>>)
    ensures
        step@ == get_group_members_plan(token, group_id, done@),
{
    if done.len() == 0 {
        return Step::Perform(Effect::ValidateSession { token });
    }
    let me = match session_answer(&done[0]) {
        Ok(u) => u,
        Err(e) => return Step::Finish(Err(e)),
    };
    if done.len() == 1 {
        return Step::Perform(Effect::IsUserInGroup { user_id: me, group_id });
    }
    match flag_answer(&done[1]) {
        Ok(true) => {},
        Ok(false) => return Step::Finish(Err(invalid_error("Accesso negato"))),
        Err(e) => return Step::Finish(Err(e)),
    }
    if done.len() == 2 {
        return Step::Perform(Effect::GetGroupMembers { group_id });
    }
    Step::Finish(users_answer(&done[2]))
}

pub open spec fn get_group_messages_plan(token: u128, group_id: u128, limit: u32, done: Seq<Outcome>) -> StepV<Seq<MessageInfoV>> {
    if done.len() == 0 {
        ask(EffectV::ValidateSession { token })
    } else {
        match session_of(done[0]) {
            Err(e) => fail(e),
            Ok(me) => if done.len() == 1 {
                ask(EffectV::IsUserInGroup { user_id: me, group_id })
            } else {
                match flag_of(done[1]) {
                    Err(e) => fail(e),
                    Ok(false) => fail(invalid("Accesso negato"@)),
                    Ok(true) => if done.len() == 2 {
                        ask(EffectV::GetGroupMessages { group_id, limit })
                    } else {
                        finish(messages_of(done[2]))
                    },
                }
            },
        }
    }
}

/// The latest messages of a group the caller belongs to.
pub fn handle_get_group_messages(token: u128, group_id: u128, limit: u32, done: &Vec<Outcome>) -> (step: Step<Vec<MessageInfo>>)
    ensures
        step@ == get_group_messages_plan(token, group_id, limit, done@),
{
    if done.len() == 0 {
        return Step::Perform(Effect::ValidateSession { token });
    }
    let me = match session_answer(&done[0]) {
        Ok(u) => u,
        Err(e) => return Step::Finish(Err(e)),
    };
    if done.len() == 1 {
        return Step::Perform(Effect::IsUserInGroup { user_id: me, group_id });
    }
    match flag_answer(&done[1]) {
        Ok(true) => {},
        Ok(false) => return Step::Finish(Err(invalid_error("Accesso negato"))),
        Err(e) => return Step::Finish(Err(e)),
    }
    if done.len() == 2 {
        return Step::Perform(Effect::GetGroupMessages { group_id, limit });
    }
    Step::Finish(messages_answer(&done[2]))
}

/// The identifiers of `members`, in order, leaving out `me`.
pub open spec fn recipients_excluding(members: Seq<UserInfoV>, me: u128) -> Seq<u128>
    decreases members.len(),
{
    if members.len() == 0 {
        Seq::empty()
    } else {
        let rest = recipients_excluding(members.drop_last(), me);
        if members.last().user_id != me {
            rest.push(members.last().user_id)
        } else {
            rest
        }
    }
}

pub fn members_except(members: &Vec<UserInfo>, me: u128) -> (r: Vec<u128>)
    ensures
        r@ == recipients_excluding(members.deep_view(), me),
{
    let mut r: Vec<u128> = Vec::new();
    let mut i: usize = 0;
    while i < members.len()
        invariant
            i <= members.len(),
            r@ == recipients_excluding(members.deep_view().take(i as int), me),
        decreases members.len() - i,
    {
        let id = members[i].user_id;
        if id != me {
            r.push(id);
        }
        proof {
            let d = members.deep_view();
            assert(d.take(i + 1).drop_last() =~= d.take(i as int));
            assert(d.take(i + 1).last() == d[i as int]);
        }
        i = i + 1;
    }
    assert(members.deep_view().take(members.len() as int) =~= members.deep_view());
    r
}

pub open spec fn send_group_message_plan(token: u128, group_id: u128, content: Seq<char>, now: i64, done: Seq<Outcome>) -> StepV<u128> {
    if done.len() == 0 {
        ask(EffectV::ValidateSession { token })
    } else {
        match session_of(done[0]) {
            Err(e) => fail(e),
            Ok(me) => if is_blank_text(content) {
                fail(invalid("Messaggio vuoto"@))
            } else if done.len() == 1 {
                ask(EffectV::IsUserInGroup { user_id: me, group_id })
            } else {
                match flag_of(done[1]) {
                    Err(e) => fail(e),
                    Ok(false) => fail(invalid("Accesso negato"@)),
                    Ok(true) => if done.len() == 2 {
                        ask(EffectV::InsertMessage {
                            sender: me,
                            content,
                            private_chat: None,
                            group: Some(group_id),
                        })
                    } else {
                        match id_of(done[2]) {
                            Err(e) => fail(e),
                            Ok(message_id) => if done.len() == 3 {
                                ask(EffectV::GetUsername { user_id: me })
                            } else {
                                match maybe_text_of(done[3]) {
                                    Err(e) => fail(e),
                                    Ok(found) => if done.len() == 4 {
                                        ask(EffectV::GetGroupMembers { group_id })
                                    } else {
                                        match users_of(done[4]) {
                                            Err(e) => fail(e),
                                            Ok(members) => if done.len() == 5 {
                                                ask(EffectV::Push {
                                                    recipients: recipients_excluding(members, me),
                                                    msg: ServerMsgV::PushNewMessage {
                                                        message: MessageInfoV {
                                                            message_id,
                                                            sender_id: me,
                                                            sender_username: sender_name(found),
                                                            content,
                                                            sent_at: now,
                                                        },
                                                        chat_id: None,
                                                        group_id: Some(group_id),
                                                    },
                                                })
                                            } else {
                                                match done_of(done[5]) {
                                                    Err(e) => fail(e),
                                                    Ok(_) => finish(Ok(message_id)),
                                                }
                                            },
                                        }
                                    },
                                }
                            },
                        }
                    },
                }
            },
        }
    }
}

/// Stores a message in a group of the caller and pushes it to every other
/// member; `now` is the send time in Unix seconds.
pub fn handle_send_group_message(token: u128, group_id: u128, content: &String, now: i64, done: &Vec<Outcome>) -> (step: Step<u128>)
    ensures
        step@ == send_group_message_plan(token, group_id, content@, now, done@),
{
    if done.len() == 0 {
        return Step::Perform(Effect::ValidateSession { token });
    }
    let me = match session_answer(&done[0]) {
        Ok(u) => u,
        Err(e) => return Step::Finish(Err(e)),
    };
    if is_blank(content.as_str()) {
        return Step::Finish(Err(invalid_error("Messaggio vuoto")));
    }
    if done.len() == 1 {
        return Step::Perform(Effect::IsUserInGroup { user_id: me, group_id });
    }
    match flag_answer(&done[1]) {
        Ok(true) => {},
        Ok(false) => return Step::Finish(Err(invalid_error("Accesso negato"))),
        Err(e) => return Step::Finish(Err(e)),
    }
    if done.len() == 2 {
        return Step::Perform(Effect::InsertMessage {
            sender: me,
            content: content.clone(),
            private_chat: None,
            group: Some(group_id),
        });
    }
    let message_id = match id_answer(&done[2]) {
        Ok(m) => m,
        Err(e) => return Step::Finish(Err(e)),
    };
    if done.len() == 3 {
        return Step::Perform(Effect::GetUsername { user_id: me });
    }
    let found = match maybe_text_answer(&done[3]) {
        Ok(f) => f,
        Err(e) => return Step::Finish(Err(e)),
    };
    if done.len() == 4 {
        return Step::Perform(Effect::GetGroupMembers { group_id });
    }
    let members = match users_answer(&done[4]) {
        Ok(m) => m,
        Err(e) => return Step::Finish(Err(e)),
    };
    if done.len() == 5 {
        let recipients = members_except(&members, me);
        let message = MessageInfo {
            message_id,
            sender_id: me,
            sender_username: name_or_placeholder(found),
            content: content.clone(),
            sent_at: now,
        };
        return Step::Perform(Effect::Push {
            recipients,
            msg: ServerMsg::PushNewMessage { message, chat_id: None, group_id: Some(group_id) },
        });
    }
    match done_answer(&done[5]) {
        Ok(_) => Step::Finish(Ok(message_id)),
        Err(e) => Step::Finish(Err(e)),
    }
}

} // verus!
