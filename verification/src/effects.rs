//! The vocabulary between the server's decision procedures and the shell that
//! owns the database, the password hasher and the connected clients.
//!
//! A handler is resumable: it is called with the answers to the effects it has
//! asked for so far, in order, and either asks for one more effect or finishes.

use vstd::prelude::*;
use crate::errors::{AppError, AppErrorV};
use crate::protocol::{
    GroupInfo, GroupInfoV, MessageInfo, MessageInfoV, PrivateChatInfo, PrivateChatInfoV,
    ServerMsg, ServerMsgV, UserInfo, UserInfoV,
};

verus! {

/// One piece of outside work a handler asks the shell to do.
#[derive(Debug, PartialEq)]
pub enum Effect {
    HashPassword { password: String },
    VerifyPassword { password: String, stored_hash: String },
    InsertUser { username: String, pwd_hash: String },
    GetPwdHash { username: String },
    InsertSession { username: String, ttl_secs: i64 },
    GetUserId { username: String },
    GetUsername { user_id: u128 },
    SearchUsers { my_id: u128, query: String, limit: u32 },
    ValidateSession { token: u128 },
    CreatePrivateChat { user1: u128, user2: u128 },
    GetUserPrivateChats { user_id: u128 },
    IsUserInPrivateChat { user_id: u128, chat_id: u128 },
    GetPrivateChatMembers { chat_id: u128 },
    CreateGroup { name: String, creator: u128 },
    AddGroupMember { group_id: u128, user_id: u128 },
    IsUserInGroup { user_id: u128, group_id: u128 },
    GetUserGroups { user_id: u128 },
    GetGroupMembers { group_id: u128 },
    InsertMessage { sender: u128, content: String, private_chat: Option<u128>, group: Option<u128> },
    GetPrivateChatMessages { chat_id: u128, limit: u32 },
    GetGroupMessages { group_id: u128, limit: u32 },
    /// Deliver `msg` to those of `recipients` that are connected.
    Push { recipients: Vec<u128>, msg: ServerMsg },
}

/// `Effect` with its text seen as characters and its lists as sequences.
pub enum EffectV {
    HashPassword { password: Seq<char> },
    VerifyPassword { password: Seq<char>, stored_hash: Seq<char> },
    InsertUser { username: Seq<char>, pwd_hash: Seq<char> },
    GetPwdHash { username: Seq<char> },
    InsertSession { username: Seq<char>, ttl_secs: i64 },
    GetUserId { username: Seq<char> },
    GetUsername { user_id: u128 },
    SearchUsers { my_id: u128, query: Seq<char>, limit: u32 },
    ValidateSession { token: u128 },
    CreatePrivateChat { user1: u128, user2: u128 },
    GetUserPrivateChats { user_id: u128 },
    IsUserInPrivateChat { user_id: u128, chat_id: u128 },
    GetPrivateChatMembers { chat_id: u128 },
    CreateGroup { name: Seq<char>, creator: u128 },
    AddGroupMember { group_id: u128, user_id: u128 },
    IsUserInGroup { user_id: u128, group_id: u128 },
    GetUserGroups { user_id: u128 },
    GetGroupMembers { group_id: u128 },
    InsertMessage {
        sender: u128,
        content: Seq<char>,
        private_chat: Option<u128>,
        group: Option<u128>,
    },
    GetPrivateChatMessages { chat_id: u128, limit: u32 },
    GetGroupMessages { group_id: u128, limit: u32 },
    Push { recipients: Seq<u128>, msg: ServerMsgV },
}

impl View for Effect {
    type V = EffectV;

    open spec fn view(&self) -> EffectV {
        match self {
            Effect::HashPassword { password } => EffectV::HashPassword { password: password@ },
            Effect::VerifyPassword { password, stored_hash } => EffectV::VerifyPassword {
                password: password@,
                stored_hash: stored_hash@,
            },
            Effect::InsertUser { username, pwd_hash } => EffectV::InsertUser {
                username: username@,
                pwd_hash: pwd_hash@,
            },
            Effect::GetPwdHash { username } => EffectV::GetPwdHash { username: username@ },
            Effect::InsertSession { username, ttl_secs } => EffectV::InsertSession {
                username: username@,
                ttl_secs: *ttl_secs,
            },
            Effect::GetUserId { username } => EffectV::GetUserId { username: username@ },
            Effect::GetUsername { user_id } => EffectV::GetUsername { user_id: *user_id },
            Effect::SearchUsers { my_id, query, limit } => EffectV::SearchUsers {
                my_id: *my_id,
                query: query@,
                limit: *limit,
            },
            Effect::ValidateSession { token } => EffectV::ValidateSession { token: *token },
            Effect::CreatePrivateChat { user1, user2 } => EffectV::CreatePrivateChat {
                user1: *user1,
                user2: *user2,
            },
            Effect::GetUserPrivateChats { user_id } => EffectV::GetUserPrivateChats {
                user_id: *user_id,
            },
            Effect::IsUserInPrivateChat { user_id, chat_id } => EffectV::IsUserInPrivateChat {
                user_id: *user_id,
                chat_id: *chat_id,
            },
            Effect::GetPrivateChatMembers { chat_id } => EffectV::GetPrivateChatMembers {
                chat_id: *chat_id,
            },
            Effect::CreateGroup { name, creator } => EffectV::CreateGroup {
                name: name@,
                creator: *creator,
            },
            Effect::AddGroupMember { group_id, user_id } => EffectV::AddGroupMember {
                group_id: *group_id,
                user_id: *user_id,
            },
            Effect::IsUserInGroup { user_id, group_id } => EffectV::IsUserInGroup {
                user_id: *user_id,
                group_id: *group_id,
            },
            Effect::GetUserGroups { user_id } => EffectV::GetUserGroups { user_id: *user_id },
            Effect::GetGroupMembers { group_id } => EffectV::GetGroupMembers {
                group_id: *group_id,
            },
            Effect::InsertMessage { sender, content, private_chat, group } =>
                EffectV::InsertMessage {
                    sender: *sender,
                    content: content@,
                    private_chat: *private_chat,
                    group: *group,
                },
            Effect::GetPrivateChatMessages { chat_id, limit } => EffectV::GetPrivateChatMessages {
                chat_id: *chat_id,
                limit: *limit,
            },
            Effect::GetGroupMessages { group_id, limit } => EffectV::GetGroupMessages {
                group_id: *group_id,
                limit: *limit,
            },
            Effect::Push { recipients, msg } => EffectV::Push {
                recipients: recipients@,
                msg: msg@,
            },
        }
    }
}

/// The shell's answer to one effect.
#[derive(Debug, PartialEq)]
pub enum Outcome {
    /// The effect failed; the handler stops with this error.
    Failed(AppError),
    /// A write or a delivery that returns nothing.
    Done,
    /// The identifier of a created row, or a session token.
    Id(u128),
    /// A lookup of an identifier that may find nothing.
    MaybeId(Option<u128>),
    /// A computed text, such as a password hash.
    Text(String),
    /// A lookup of a text that may find nothing.
    MaybeText(Option<String>),
    /// The answer to a yes/no question.
    Flag(bool),
    /// The two participants of a private chat, if it exists.
    Pair(Option<(u128, u128)>),
    Users(Vec<UserInfo>),
    Chats(Vec<PrivateChatInfo>),
    Groups(Vec<GroupInfo>),
    Messages(Vec<MessageInfo>),
}

/// The next move of a resumable handler.
#[derive(Debug, PartialEq)]
pub enum Step<T> {
    Perform(Effect),
    Finish(Result<T, AppError>),
}

pub enum StepV<V> {
    Perform(EffectV),
    Finish(Result<V, AppErrorV>),
}

impl<T: DeepView> View for Step<T> {
    type V = StepV<T::V>;

    open spec fn view(&self) -> StepV<T::V> {
        match self {
            Step::Perform(e) => StepV::Perform(e@),
            Step::Finish(Ok(x)) => StepV::Finish(Ok(x.deep_view())),
            Step::Finish(Err(e)) => StepV::Finish(Err(e@)),
        }
    }
}

/// The error for an answer of the wrong kind: the shell did not answer the
/// effect that was asked for.
pub open spec fn mismatch() -> AppErrorV {
    AppErrorV::Db("risposta inattesa dallo storage"@)
}

pub fn mismatch_error() -> (e: AppError)
    ensures
        e@ == mismatch(),
{
    AppError::Db(String::from_str("risposta inattesa dallo storage"))
}

/// The user a session-validation answer names; an unknown or expired
/// session is refused as bad credentials.
pub open spec fn session_of(o: Outcome) -> Result<u128, AppErrorV> {
    match o {
        Outcome::MaybeId(Some(u)) => Ok(u),
        Outcome::MaybeId(None) => Err(AppErrorV::BadCredentials),
        Outcome::Failed(e) => Err(e@),
        _ => Err(mismatch()),
    }
}

pub open spec fn flag_of(o: Outcome) -> Result<bool, AppErrorV> {
    match o {
        Outcome::Flag(b) => Ok(b),
        Outcome::Failed(e) => Err(e@),
        _ => Err(mismatch()),
    }
}

pub open spec fn id_of(o: Outcome) -> Result<u128, AppErrorV> {
    match o {
        Outcome::Id(x) => Ok(x),
        Outcome::Failed(e) => Err(e@),
        _ => Err(mismatch()),
    }
}

pub open spec fn maybe_id_of(o: Outcome) -> Result<Option<u128>, AppErrorV> {
    match o {
        Outcome::MaybeId(x) => Ok(x),
        Outcome::Failed(e) => Err(e@),
        _ => Err(mismatch()),
    }
}

pub open spec fn text_of(o: Outcome) -> Result<Seq<char>, AppErrorV> {
    match o {
        Outcome::Text(t) => Ok(t@),
        Outcome::Failed(e) => Err(e@),
        _ => Err(mismatch()),
    }
}

pub open spec fn maybe_text_of(o: Outcome) -> Result<Option<Seq<char>>, AppErrorV> {
    match o {
        Outcome::MaybeText(Some(t)) => Ok(Some(t@)),
        Outcome::MaybeText(None) => Ok(None),
        Outcome::Failed(e) => Err(e@),
        _ => Err(mismatch()),
    }
}

pub open spec fn done_of(o: Outcome) -> Result<(), AppErrorV> {
    match o {
        Outcome::Done => Ok(()),
        Outcome::Failed(e) => Err(e@),
        _ => Err(mismatch()),
    }
}

pub open spec fn pair_of(o: Outcome) -> Result<Option<(u128, u128)>, AppErrorV> {
    match o {
        Outcome::Pair(p) => Ok(p),
        Outcome::Failed(e) => Err(e@),
        _ => Err(mismatch()),
    }
}

pub open spec fn users_of(o: Outcome) -> Result<Seq<UserInfoV>, AppErrorV> {
    match o {
        Outcome::Users(v) => Ok(v.deep_view()),
        Outcome::Failed(e) => Err(e@),
        _ => Err(mismatch()),
    }
}

pub open spec fn chats_of(o: Outcome) -> Result<Seq<PrivateChatInfoV>, AppErrorV> {
    match o {
        Outcome::Chats(v) => Ok(v.deep_view()),
        Outcome::Failed(e) => Err(e@),
        _ => Err(mismatch()),
    }
}

pub open spec fn groups_of(o: Outcome) -> Result<Seq<GroupInfoV>, AppErrorV> {
    match o {
        Outcome::Groups(v) => Ok(v.deep_view()),
        Outcome::Failed(e) => Err(e@),
        _ => Err(mismatch()),
    }
}

pub open spec fn messages_of(o: Outcome) -> Result<Seq<MessageInfoV>, AppErrorV> {
    match o {
        Outcome::Messages(v) => Ok(v.deep_view()),
        Outcome::Failed(e) => Err(e@),
        _ => Err(mismatch()),
    }
}

/// Views an executable result against a result of views.
pub open spec fn agrees<T: DeepView>(r: Result<T, AppError>, s: Result<T::V, AppErrorV>) -> bool {
    match r {
        Ok(x) => s == Ok::<T::V, AppErrorV>(x.deep_view()),
        Err(e) => s == Err::<T::V, AppErrorV>(e@),
    }
}

pub fn session_answer(o: &Outcome) -> (r: Result<u128, AppError>)
    ensures
        agrees(r, session_of(*o)),
{
    match o {
        Outcome::MaybeId(Some(u)) => Ok(*u),
        Outcome::MaybeId(None) => Err(AppError::BadCredentials),
        Outcome::Failed(e) => Err(e.clone()),
        _ => Err(mismatch_error()),
    }
}

pub fn flag_answer(o: &Outcome) -> (r: Result<bool, AppError>)
    ensures
        agrees(r, flag_of(*o)),
{
    match o {
        Outcome::Flag(b) => Ok(*b),
        Outcome::Failed(e) => Err(e.clone()),
        _ => Err(mismatch_error()),
    }
}

pub fn id_answer(o: &Outcome) -> (r: Result<u128, AppError>)
    ensures
        agrees(r, id_of(*o)),
{
    match o {
        Outcome::Id(x) => Ok(*x),
        Outcome::Failed(e) => Err(e.clone()),
        _ => Err(mismatch_error()),
    }
}

pub fn maybe_id_answer(o: &Outcome) -> (r: Result<Option<u128>, AppError>)
    ensures
        agrees(r, maybe_id_of(*o)),
{
    match o {
        Outcome::MaybeId(x) => Ok(*x),
        Outcome::Failed(e) => Err(e.clone()),
        _ => Err(mismatch_error()),
    }
}

pub fn text_answer(o: &Outcome) -> (r: Result<String, AppError>)
    ensures
        agrees(r, text_of(*o)),
{
    match o {
        Outcome::Text(t) => Ok(t.clone()),
        Outcome::Failed(e) => Err(e.clone()),
        _ => Err(mismatch_error()),
    }
}

pub fn maybe_text_answer(o: &Outcome) -> (r: Result<Option<String>, AppError>)
    ensures
        agrees(r, maybe_text_of(*o)),
{
    match o {
        Outcome::MaybeText(Some(t)) => Ok(Some(t.clone())),
        Outcome::MaybeText(None) => Ok(None),
        Outcome::Failed(e) => Err(e.clone()),
        _ => Err(mismatch_error()),
    }
}

pub fn done_answer(o: &Outcome) -> (r: Result<(), AppError>)
    ensures
        agrees(r, done_of(*o)),
{
    match o {
        Outcome::Done => Ok(()),
        Outcome::Failed(e) => Err(e.clone()),
        _ => Err(mismatch_error()),
    }
}

pub fn pair_answer(o: &Outcome) -> (r: Result<Option<(u128, u128)>, AppError>)
    ensures
        agrees(r, pair_of(*o)),
{
    match o {
        Outcome::Pair(p) => Ok(*p),
        Outcome::Failed(e) => Err(e.clone()),
        _ => Err(mismatch_error()),
    }
}

pub fn copy_users(v: &Vec<UserInfo>) -> (r: Vec<UserInfo>)
    ensures
        r@ == v@,
{
    let mut r: Vec<UserInfo> = Vec::new();
    let mut i: usize = 0;
    while i < v.len()
        invariant
            i <= v.len(),
            r@ == v@.take(i as int),
        decreases v.len() - i,
    {
        r.push(v[i].clone());
        i = i + 1;
        assert(r@ =~= v@.take(i as int));
    }
    assert(v@.take(v.len() as int) =~= v@);
    r
}

pub fn copy_chats(v: &Vec<PrivateChatInfo>) -> (r: Vec<PrivateChatInfo>)
    ensures
        r@ == v@,
{
    let mut r: Vec<PrivateChatInfo> = Vec::new();
    let mut i: usize = 0;
    while i < v.len()
        invariant
            i <= v.len(),
            r@ == v@.take(i as int),
        decreases v.len() - i,
    {
        r.push(v[i].clone());
        i = i + 1;
        assert(r@ =~= v@.take(i as int));
    }
    assert(v@.take(v.len() as int) =~= v@);
    r
}

pub fn copy_groups(v: &Vec<GroupInfo>) -> (r: Vec<GroupInfo>)
    ensures
        r@ == v@,
{
    let mut r: Vec<GroupInfo> = Vec::new();
    let mut i: usize = 0;
    while i < v.len()
        invariant
            i <= v.len(),
            r@ == v@.take(i as int),
        decreases v.len() - i,
    {
        r.push(v[i].clone());
        i = i + 1;
        assert(r@ =~= v@.take(i as int));
    }
    assert(v@.take(v.len() as int) =~= v@);
    r
}

pub fn copy_messages(v: &Vec<MessageInfo>) -> (r: Vec<MessageInfo>)
    ensures
        r@ == v@,
{
    let mut r: Vec<MessageInfo> = Vec::new();
    let mut i: usize = 0;
    while i < v.len()
        invariant
            i <= v.len(),
            r@ == v@.take(i as int),
        decreases v.len() - i,
    {
        r.push(v[i].clone());
        i = i + 1;
        assert(r@ =~= v@.take(i as int));
    }
    assert(v@.take(v.len() as int) =~= v@);
    r
}

pub fn users_answer(o: &Outcome) -> (r: Result<Vec<UserInfo>, AppError>)
    ensures
        agrees(r, users_of(*o)),
{
    match o {
        Outcome::Users(v) => Ok(copy_users(v)),
        Outcome::Failed(e) => Err(e.clone()),
        _ => Err(mismatch_error()),
    }
}

pub fn chats_answer(o: &Outcome) -> (r: Result<Vec<PrivateChatInfo>, AppError>)
    ensures
        agrees(r, chats_of(*o)),
{
    match o {
        Outcome::Chats(v) => Ok(copy_chats(v)),
        Outcome::Failed(e) => Err(e.clone()),
        _ => Err(mismatch_error()),
    }
}

pub fn groups_answer(o: &Outcome) -> (r: Result<Vec<GroupInfo>, AppError>)
    ensures
        agrees(r, groups_of(*o)),
{
    match o {
        Outcome::Groups(v) => Ok(copy_groups(v)),
        Outcome::Failed(e) => Err(e.clone()),
        _ => Err(mismatch_error()),
    }
}

pub fn messages_answer(o: &Outcome) -> (r: Result<Vec<MessageInfo>, AppError>)
    ensures
        agrees(r, messages_of(*o)),
{
    match o {
        Outcome::Messages(v) => Ok(copy_messages(v)),
        Outcome::Failed(e) => Err(e.clone()),
        _ => Err(mismatch_error()),
    }
}

} // verus!
