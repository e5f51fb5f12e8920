//! The request handlers driven end to end through an in-memory store that
//! answers their effects the way the SQLite store does.

use ruggine::auth::{hash_password, verify_password};
use ruggine::dispatch::handle_client_msg;
use ruggine::effects::{Effect, Outcome, Step};
use ruggine::errors::AppError;
use ruggine::protocol::{ClientMsg, GroupInfo, MessageInfo, PrivateChatInfo, ServerMsg, UserInfo};
use std::collections::{BTreeMap, BTreeSet};

struct MemoryStore {
    next_id: u128,
    now: i64,
    users: Vec<(u128, String, String)>,
    sessions: BTreeMap<u128, u128>,
    chats: Vec<(u128, u128, u128, i64)>,
    groups: Vec<(u128, String, u128, i64)>,
    members: BTreeSet<(u128, u128)>,
    messages: Vec<(u128, u128, Option<u128>, Option<u128>, String, i64)>,
    online: BTreeSet<u128>,
    delivered: Vec<(u128, ServerMsg)>,
}

impl MemoryStore {
    fn new() -> Self {
        MemoryStore {
            next_id: 1000,
            now: 1_700_000_000,
            users: Vec::new(),
            sessions: BTreeMap::new(),
            chats: Vec::new(),
            groups: Vec::new(),
            members: BTreeSet::new(),
            messages: Vec::new(),
            online: BTreeSet::new(),
            delivered: Vec::new(),
        }
    }

    fn fresh(&mut self) -> u128 {
        self.next_id += 1;
        self.next_id
    }

    fn name_of(&self, id: u128) -> Option<String> {
        self.users.iter().find(|u| u.0 == id).map(|u| u.1.clone())
    }

    fn tick(&mut self) -> i64 {
        self.now += 1;
        self.now
    }

    fn perform(&mut self, e: Effect) -> Outcome {
        match e {
            Effect::HashPassword { password } => match hash_password(&password) {
                Ok(h) => Outcome::Text(h),
                Err(e) => Outcome::Failed(e),
            },
            Effect::VerifyPassword { password, stored_hash } => match verify_password(&password, &stored_hash) {
                Ok(b) => Outcome::Flag(b),
                Err(e) => Outcome::Failed(e),
            },
            Effect::InsertUser { username, pwd_hash } => {
                if self.users.iter().any(|u| u.1 == username) {
                    Outcome::Failed(AppError::UserExists)
                } else {
                    let id = self.fresh();
                    self.users.push((id, username, pwd_hash));
                    Outcome::Id(id)
                }
            }
            Effect::GetPwdHash { username } => {
                Outcome::MaybeText(self.users.iter().find(|u| u.1 == username).map(|u| u.2.clone()))
            }
            Effect::InsertSession { username, .. } => {
                let token = self.fresh();
                if let Some(u) = self.users.iter().find(|u| u.1 == username) {
                    self.sessions.insert(token, u.0);
                    Outcome::Id(token)
                } else {
                    Outcome::Failed(AppError::Db("NOT NULL constraint failed: sessions.user_id".into()))
                }
            }
            Effect::GetUserId { username } => {
                Outcome::MaybeId(self.users.iter().find(|u| u.1 == username).map(|u| u.0))
            }
            Effect::GetUsername { user_id } => Outcome::MaybeText(self.name_of(user_id)),
            Effect::SearchUsers { my_id, query, limit } => {
                let q = query.to_lowercase();
                let found: Vec<UserInfo> = self
                    .users
                    .iter()
                    .filter(|u| u.0 != my_id && u.1.to_lowercase().starts_with(&q))
                    .take(limit as usize)
                    .map(|u| UserInfo { user_id: u.0, username: u.1.clone() })
                    .collect();
                Outcome::Users(found)
            }
            Effect::ValidateSession { token } => Outcome::MaybeId(self.sessions.get(&token).copied()),
            Effect::CreatePrivateChat { user1, user2 } => {
                let (a, b) = ruggine::keys::ordered_pair(user1, user2);
                if let Some(c) = self.chats.iter().find(|c| c.1 == a && c.2 == b) {
                    Outcome::Id(c.0)
                } else {
                    let id = self.fresh();
                    let t = self.tick();
                    self.chats.push((id, a, b, t));
                    Outcome::Id(id)
                }
            }
            Effect::GetUserPrivateChats { user_id } => {
                let mut mine: Vec<&(u128, u128, u128, i64)> =
                    self.chats.iter().filter(|c| c.1 == user_id || c.2 == user_id).collect();
                mine.sort_by(|x, y| y.3.cmp(&x.3));
                let chats = mine
                    .iter()
                    .map(|c| {
                        let other = if c.1 == user_id { c.2 } else { c.1 };
                        PrivateChatInfo {
                            chat_id: c.0,
                            other_user_id: other,
                            other_username: self.name_of(other).unwrap(),
                        }
                    })
                    .collect();
                Outcome::Chats(chats)
            }
            Effect::IsUserInPrivateChat { user_id, chat_id } => Outcome::Flag(
                self.chats.iter().any(|c| c.0 == chat_id && (c.1 == user_id || c.2 == user_id)),
            ),
            Effect::GetPrivateChatMembers { chat_id } => {
                Outcome::Pair(self.chats.iter().find(|c| c.0 == chat_id).map(|c| (c.1, c.2)))
            }
            Effect::CreateGroup { name, creator } => {
                let id = self.fresh();
                let t = self.tick();
                self.groups.push((id, name, creator, t));
                self.members.insert((id, creator));
                Outcome::Id(id)
            }
            Effect::AddGroupMember { group_id, user_id } => {
                self.members.insert((group_id, user_id));
                Outcome::Done
            }
            Effect::IsUserInGroup { user_id, group_id } => Outcome::Flag(self.members.contains(&(group_id, user_id))),
            Effect::GetUserGroups { user_id } => {
                let mut mine: Vec<&(u128, String, u128, i64)> =
                    self.groups.iter().filter(|g| self.members.contains(&(g.0, user_id))).collect();
                mine.sort_by(|x, y| y.3.cmp(&x.3));
                Outcome::Groups(mine.iter().map(|g| GroupInfo { group_id: g.0, name: g.1.clone() }).collect())
            }
            Effect::GetGroupMembers { group_id } => {
                let members = self
                    .users
                    .iter()
                    .filter(|u| self.members.contains(&(group_id, u.0)))
                    .map(|u| UserInfo { user_id: u.0, username: u.1.clone() })
                    .collect();
                Outcome::Users(members)
            }
            Effect::InsertMessage { sender, content, private_chat, group } => {
                let id = self.fresh();
                let t = self.tick();
                self.messages.push((id, sender, private_chat, group, content, t));
                Outcome::Id(id)
            }
            Effect::GetPrivateChatMessages { chat_id, limit } => {
                Outcome::Messages(self.history(|m| m.2 == Some(chat_id), limit))
            }
            Effect::GetGroupMessages { group_id, limit } => {
                Outcome::Messages(self.history(|m| m.3 == Some(group_id), limit))
            }
            Effect::Push { recipients, msg } => {
                for r in recipients {
                    if self.online.contains(&r) {
                        self.delivered.push((r, msg.clone_msg()));
                    }
                }
                Outcome::Done
            }
        }
    }

    fn history(
        &self,
        keep: impl Fn(&&(u128, u128, Option<u128>, Option<u128>, String, i64)) -> bool,
        limit: u32,
    ) -> Vec<MessageInfo> {
        let mut found: Vec<&(u128, u128, Option<u128>, Option<u128>, String, i64)> =
            self.messages.iter().filter(keep).collect();
        found.sort_by(|x, y| y.5.cmp(&x.5));
        found
            .iter()
            .take(limit as usize)
            .map(|m| MessageInfo {
                message_id: m.0,
                sender_id: m.1,
                sender_username: self.name_of(m.1).unwrap(),
                content: m.4.clone(),
                sent_at: m.5,
            })
            .collect()
    }

    fn serve(&mut self, msg: ClientMsg) -> ServerMsg {
        let mut done: Vec<Outcome> = Vec::new();
        loop {
            let now = self.now;
            match handle_client_msg(&msg, &done, now) {
                Step::Perform(e) => {
                    let o = self.perform(e);
                    done.push(o);
                }
                Step::Finish(Ok(reply)) => return reply,
                Step::Finish(Err(e)) => panic!("the dispatcher reports failures as replies: {:?}", e),
            }
        }
    }

    fn pushes_to(&self, user: u128) -> Vec<&ServerMsg> {
        self.delivered.iter().filter(|d| d.0 == user).map(|d| &d.1).collect()
    }
}

trait CloneMsg {
    fn clone_msg(&self) -> ServerMsg;
}

impl CloneMsg for ServerMsg {
    fn clone_msg(&self) -> ServerMsg {
        match self {
            ServerMsg::PushGroupUpdated => ServerMsg::PushGroupUpdated,
            ServerMsg::PushPrivateChatListUpdated => ServerMsg::PushPrivateChatListUpdated,
            ServerMsg::PushNewMessage { message, chat_id, group_id } => ServerMsg::PushNewMessage {
                message: message.clone(),
                chat_id: *chat_id,
                group_id: *group_id,
            },
            other => panic!("not a notification: {:?}", other),
        }
    }
}

/// Registers (optionally), logs in and listens, as the end-to-end client does.
fn join(store: &mut MemoryStore, name: &str, password: &str, register: bool) -> Result<(u128, u128), String> {
    if register {
        match store.serve(ClientMsg::Register { username: name.into(), password: password.into() }) {
            ServerMsg::Registered { .. } => {}
            ServerMsg::Error { message } => return Err(message),
            other => return Err(format!("{:?}", other)),
        }
    }
    match store.serve(ClientMsg::Login { username: name.into(), password: password.into() }) {
        ServerMsg::LoginOk { session_token, user_id, username } => {
            assert_eq!(username, name);
            store.online.insert(user_id);
            Ok((session_token, user_id))
        }
        ServerMsg::Error { message } => Err(message),
        other => Err(format!("{:?}", other)),
    }
}

#[test]
fn e2e_all_requests_g65() {
    let mut store = MemoryStore::new();

    // Logging in as a user that does not exist fails.
    match store.serve(ClientMsg::Login { username: "ghost".into(), password: "pw".into() }) {
        ServerMsg::Error { message } => assert_eq!(message, "Credenziali errate"),
        other => panic!("Il login di un utente inesistente non ha dato errore: {:?}", other),
    }

    let (alice, alice_id) = join(&mut store, "alice", "pw", true).unwrap();
    let (_bob, bob_id) = join(&mut store, "bob", "pw", true).unwrap();
    let (_charlie, charlie_id) = join(&mut store, "charlie", "pw", true).unwrap();

    // A second registration of alice fails.
    let dup = join(&mut store, "alice", "pw", true);
    assert!(dup.is_err(), "La seconda registrazione di alice deve fallire");
    assert_eq!(dup.unwrap_err(), "Username già in uso");

    let gid = match store.serve(ClientMsg::CreateGroup { token: alice, name: "G65Group".into() }) {
        ServerMsg::GroupCreated { group_id } => group_id,
        other => panic!("Wait GroupCreated: {:?}", other),
    };

    match store.serve(ClientMsg::AddGroupMember { token: alice, group_id: gid, username: "bob".into() }) {
        ServerMsg::GroupMemberAdded => {}
        other => panic!("Wait GroupMemberAdded Ack: {:?}", other),
    }
    assert!(store.pushes_to(bob_id).iter().any(|m| matches!(m, ServerMsg::PushGroupUpdated)));

    match store.serve(ClientMsg::AddGroupMember { token: alice, group_id: gid, username: "nessuno".into() }) {
        ServerMsg::Error { message } => assert_eq!(message, "Utente non trovato"),
        other => panic!("Wait Error adding nobody: {:?}", other),
    }

    match store.serve(ClientMsg::SendGroupMessage { token: alice, group_id: gid, content: "Hola Bob".into() }) {
        ServerMsg::GroupMessageSent { .. } => {}
        other => panic!("Wait Ack Sent: {:?}", other),
    }
    assert!(
        store.pushes_to(bob_id).iter().any(|m| matches!(m,
            ServerMsg::PushNewMessage { message, group_id, .. }
                if *group_id == Some(gid) && message.content == "Hola Bob")),
        "Bob receives group msg"
    );
    assert!(
        !store.pushes_to(charlie_id).iter().any(|m| matches!(m, ServerMsg::PushNewMessage { .. })),
        "Charlie spying"
    );
    assert!(!store.pushes_to(alice_id).iter().any(|m| matches!(m, ServerMsg::PushNewMessage { .. })));

    let members = match store.serve(ClientMsg::GetGroupMembers { token: alice, group_id: gid }) {
        ServerMsg::GroupMembers { members } => members,
        other => panic!("Get Members: {:?}", other),
    };
    let names: Vec<String> = members.iter().map(|u| u.username.clone()).collect();
    assert!(names.contains(&"alice".to_string()));
    assert!(names.contains(&"bob".to_string()));
    assert!(!names.contains(&"charlie".to_string()));

    let chat_id = match store.serve(ClientMsg::StartPrivateChat { token: alice, other_username: "charlie".into() }) {
        ServerMsg::PrivateChatStarted { chat_id } => chat_id,
        other => panic!("PrivChat Started: {:?}", other),
    };
    assert!(store.pushes_to(charlie_id).iter().any(|m| matches!(m, ServerMsg::PushPrivateChatListUpdated)));

    match store.serve(ClientMsg::SendPrivateMessage { token: alice, chat_id, content: "Psst Charlie".into() }) {
        ServerMsg::PrivateMessageSent { .. } => {}
        other => panic!("{:?}", other),
    }
    assert!(
        store.pushes_to(charlie_id).iter().any(|m| matches!(m,
            ServerMsg::PushNewMessage { message, chat_id: cid, .. }
                if *cid == Some(chat_id) && message.content == "Psst Charlie" && message.sender_username == "alice")),
        "Charlie receives priv msg"
    );
    let bob_new = store.pushes_to(bob_id).iter().filter(|m| matches!(m, ServerMsg::PushNewMessage { .. })).count();
    assert_eq!(bob_new, 1, "Bob spying private");
}

#[test]
fn e2e_offline_messaging_and_history() {
    let mut store = MemoryStore::new();
    let (alice, _) = join(&mut store, "alice_h", "pw", true).unwrap();
    let (_, bob_first) = join(&mut store, "bob_h", "pw", true).unwrap();
    store.online.remove(&bob_first);

    let chat_id = match store.serve(ClientMsg::StartPrivateChat { token: alice, other_username: "bob_h".into() }) {
        ServerMsg::PrivateChatStarted { chat_id } => chat_id,
        other => panic!("PrivChat Started: {:?}", other),
    };
    match store.serve(ClientMsg::SendPrivateMessage { token: alice, chat_id, content: "Sei offline?".into() }) {
        ServerMsg::PrivateMessageSent { .. } => {}
        other => panic!("Msg Sent Ack: {:?}", other),
    }
    let gid = match store.serve(ClientMsg::CreateGroup { token: alice, name: "OfflineGroup".into() }) {
        ServerMsg::GroupCreated { group_id } => group_id,
        other => panic!("Group Created: {:?}", other),
    };
    match store.serve(ClientMsg::AddGroupMember { token: alice, group_id: gid, username: "bob_h".into() }) {
        ServerMsg::GroupMemberAdded => {}
        other => panic!("Member Added: {:?}", other),
    }
    match store.serve(ClientMsg::SendGroupMessage {
        token: alice,
        group_id: gid,
        content: "Messaggio di gruppo offline".into(),
    }) {
        ServerMsg::GroupMessageSent { .. } => {}
        other => panic!("Group Msg Ack: {:?}", other),
    }
    // Nothing was delivered while bob was away.
    assert!(store.pushes_to(bob_first).is_empty());

    let (bob, _) = join(&mut store, "bob_h", "pw", false).unwrap();
    let chats = match store.serve(ClientMsg::GetPrivateChats { token: bob }) {
        ServerMsg::PrivateChats { chats } => chats,
        other => panic!("Get Chats: {:?}", other),
    };
    assert!(!chats.is_empty(), "Bob dovrebbe avere almeno una chat privata");
    assert_eq!(chats[0].chat_id, chat_id);
    let msgs = match store.serve(ClientMsg::GetPrivateChatMessages { token: bob, chat_id, limit: 10 }) {
        ServerMsg::PrivateChatMessages { messages } => messages,
        other => panic!("Get Priv Msgs: {:?}", other),
    };
    assert!(msgs.iter().any(|m| m.content == "Sei offline?"), "Bob non ha trovato il messaggio offline privato");

    let groups = match store.serve(ClientMsg::GetGroups { token: bob }) {
        ServerMsg::Groups { groups } => groups,
        other => panic!("Get Groups: {:?}", other),
    };
    assert!(!groups.is_empty());
    assert_eq!(groups[0].group_id, gid);
    let g_msgs = match store.serve(ClientMsg::GetGroupMessages { token: bob, group_id: gid, limit: 10 }) {
        ServerMsg::GroupMessages { messages } => messages,
        other => panic!("Get Group Msgs: {:?}", other),
    };
    assert!(
        g_msgs.iter().any(|m| m.content == "Messaggio di gruppo offline"),
        "Bob non ha trovato il messaggio offline di gruppo"
    );
}

#[test]
fn e2e_search_and_lists() {
    let mut store = MemoryStore::new();
    let (alice, _) = join(&mut store, "alice_s", "pw", true).unwrap();
    join(&mut store, "bob_s", "pw", true).unwrap();
    join(&mut store, "charlie_s", "pw", true).unwrap();

    let search = |store: &mut MemoryStore, q: &str| match store.serve(ClientMsg::SearchUsers { token: alice, query: q.into() }) {
        ServerMsg::UsersFound { users } => users,
        other => panic!("Search: {:?}", other),
    };
    let results = search(&mut store, "bob");
    assert!(results.iter().any(|u| u.username == "bob_s"));
    assert!(!results.iter().any(|u| u.username == "charlie_s"));
    let results2 = search(&mut store, "char");
    assert!(results2.iter().any(|u| u.username == "charlie_s"));
    let results3 = search(&mut store, "non_esiste");
    assert!(results3.is_empty());

    match store.serve(ClientMsg::GetPrivateChats { token: alice }) {
        ServerMsg::PrivateChats { chats } => assert!(chats.is_empty()),
        other => panic!("Empty Chats: {:?}", other),
    }
    match store.serve(ClientMsg::StartPrivateChat { token: alice, other_username: "bob_s".into() }) {
        ServerMsg::PrivateChatStarted { .. } => {}
        other => panic!("Chat Started: {:?}", other),
    }
    match store.serve(ClientMsg::GetPrivateChats { token: alice }) {
        ServerMsg::PrivateChats { chats } => {
            assert_eq!(chats.len(), 1);
            assert_eq!(chats[0].other_username, "bob_s");
        }
        other => panic!("1 Chat: {:?}", other),
    }
}
