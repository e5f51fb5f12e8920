use ruggine::connection::{handle_listen, session_refused, Connection, ListenReply};
use ruggine::dispatch::{handle_client_msg, map_error};
use ruggine::effects::{Effect, Outcome, Step};
use ruggine::errors::AppError;
use ruggine::handlers::{handle_add_group_member, handle_register, handle_send_group_message};
use ruggine::protocol::{ClientMsg, MessageInfo, ServerMsg, UserInfo};

fn error_text(m: ServerMsg) -> String {
    match m {
        ServerMsg::Error { message } => message,
        other => panic!("{:?}", other),
    }
}

#[test]
fn error_messages() {
    assert_eq!(error_text(map_error(AppError::UserExists)), "Username già in uso");
    assert_eq!(error_text(map_error(AppError::BadCredentials)), "Credenziali errate");
    assert_eq!(error_text(map_error(AppError::Validation("Nome vuoto".into()))), "Nome vuoto");
    assert_eq!(error_text(map_error(AppError::Db("disk I/O error".into()))), "db error: disk I/O error");
    assert_eq!(error_text(map_error(AppError::Crypto("invalid".into()))), "crypto error: invalid");
    assert_eq!(error_text(map_error(AppError::Serde("eof".into()))), "serde error: eof");
    assert_eq!(error_text(map_error(AppError::Io("broken pipe".into()))), "io error: broken pipe");
    assert_eq!(AppError::Validation("x".into()).to_text(), "dati non validi: x");
    assert_eq!(AppError::UserExists.to_text(), "utente già esistente");
    assert_eq!(AppError::BadCredentials.to_text(), "credenziali errate");
}

#[test]
fn sessions_are_checked_first() {
    let msg = ClientMsg::GetGroups { token: 42 };
    assert_eq!(handle_client_msg(&msg, &vec![], 0), Step::Perform(Effect::ValidateSession { token: 42 }));
    let reply = handle_client_msg(&msg, &vec![Outcome::MaybeId(None)], 0);
    assert_eq!(reply, Step::Finish(Ok(ServerMsg::Error { message: "Credenziali errate".into() })));
    let failed = handle_client_msg(&msg, &vec![Outcome::Failed(AppError::Db("locked".into()))], 0);
    assert_eq!(failed, Step::Finish(Ok(ServerMsg::Error { message: "db error: locked".into() })));
}

#[test]
fn registration_validates_first() {
    let r = handle_register(&"  ".to_string(), &"pw".to_string(), &vec![]);
    assert_eq!(r, Step::Finish(Err(AppError::Validation("Input vuoti".into()))));
    let r = handle_register(&"bob".to_string(), &"\t".to_string(), &vec![]);
    assert_eq!(r, Step::Finish(Err(AppError::Validation("Input vuoti".into()))));
    let r = handle_register(&"bob".to_string(), &"pw".to_string(), &vec![]);
    assert_eq!(r, Step::Perform(Effect::HashPassword { password: "pw".into() }));
    let r = handle_register(&"bob".to_string(), &"pw".to_string(), &vec![Outcome::Text("$h".into())]);
    assert_eq!(r, Step::Perform(Effect::InsertUser { username: "bob".into(), pwd_hash: "$h".into() }));
    let r = handle_register(
        &"bob".to_string(),
        &"pw".to_string(),
        &vec![Outcome::Text("$h".into()), Outcome::Failed(AppError::UserExists)],
    );
    assert_eq!(r, Step::Finish(Err(AppError::UserExists)));
}

#[test]
fn adding_members_is_checked() {
    let name = "bob".to_string();
    let me = Outcome::MaybeId(Some(1));
    let step = |done: Vec<Outcome>| handle_add_group_member(9, 77, &name, &done);
    assert_eq!(step(vec![me.clone_outcome(), Outcome::Flag(false)]), Step::Finish(Err(AppError::Validation("Non membro".into()))));
    assert_eq!(step(vec![me.clone_outcome(), Outcome::Flag(true)]), Step::Perform(Effect::GetUserId { username: "bob".into() }));
    assert_eq!(
        step(vec![me.clone_outcome(), Outcome::Flag(true), Outcome::MaybeId(Some(1))]),
        Step::Finish(Err(AppError::Validation("Auto-aggiunta vietata".into())))
    );
    assert_eq!(
        step(vec![me.clone_outcome(), Outcome::Flag(true), Outcome::MaybeId(Some(2)), Outcome::Flag(true)]),
        Step::Finish(Err(AppError::Validation("Già membro".into())))
    );
    assert_eq!(
        step(vec![me.clone_outcome(), Outcome::Flag(true), Outcome::MaybeId(Some(2)), Outcome::Flag(false)]),
        Step::Perform(Effect::AddGroupMember { group_id: 77, user_id: 2 })
    );
    assert_eq!(
        step(vec![me.clone_outcome(), Outcome::Flag(true), Outcome::MaybeId(Some(2)), Outcome::Flag(false), Outcome::Done]),
        Step::Perform(Effect::Push { recipients: vec![2], msg: ServerMsg::PushGroupUpdated })
    );
    // An answer of the wrong kind stops the handler with a storage error.
    assert_eq!(
        step(vec![me.clone_outcome(), Outcome::Done]),
        Step::Finish(Err(AppError::Db("risposta inattesa dallo storage".into())))
    );
}

trait CloneOutcome {
    fn clone_outcome(&self) -> Outcome;
}

impl CloneOutcome for Outcome {
    fn clone_outcome(&self) -> Outcome {
        match self {
            Outcome::MaybeId(x) => Outcome::MaybeId(*x),
            Outcome::Flag(b) => Outcome::Flag(*b),
            Outcome::Done => Outcome::Done,
            Outcome::Id(x) => Outcome::Id(*x),
            other => panic!("{:?}", other),
        }
    }
}

#[test]
fn group_messages_reach_the_other_members() {
    let content = "ciao a tutti".to_string();
    let members = vec![
        UserInfo { user_id: 1, username: "alice".into() },
        UserInfo { user_id: 2, username: "bob".into() },
        UserInfo { user_id: 3, username: "carla".into() },
    ];
    let done = vec![
        Outcome::MaybeId(Some(2)),
        Outcome::Flag(true),
        Outcome::Id(500),
        Outcome::MaybeText(None),
        Outcome::Users(members),
    ];
    let step = handle_send_group_message(9, 77, &content, 1234, &done);
    let expected = Effect::Push {
        recipients: vec![1, 3],
        msg: ServerMsg::PushNewMessage {
            message: MessageInfo {
                message_id: 500,
                sender_id: 2,
                sender_username: "?".into(),
                content: "ciao a tutti".into(),
                sent_at: 1234,
            },
            chat_id: None,
            group_id: Some(77),
        },
    };
    assert_eq!(step, Step::Perform(expected));
    // Blank content is refused once the session is known.
    let blank = handle_send_group_message(9, 77, &"  ".to_string(), 0, &vec![Outcome::MaybeId(Some(2))]);
    assert_eq!(blank, Step::Finish(Err(AppError::Validation("Messaggio vuoto".into()))));
}

#[test]
fn listening_and_closing() {
    assert_eq!(handle_listen(5, &vec![]), Step::Perform(Effect::ValidateSession { token: 5 }));
    assert_eq!(handle_listen(5, &vec![Outcome::MaybeId(Some(8))]), Step::Finish(Ok(8)));
    assert_eq!(handle_listen(5, &vec![Outcome::MaybeId(None)]), Step::Finish(Err(AppError::BadCredentials)));
    assert_eq!(session_refused(), ServerMsg::Error { message: "Sessione non valida".into() });
    let mut c = Connection::new();
    assert_eq!(c.peer_to_remove(Some(true)), None);
    c.listening(8);
    assert_eq!(c.peer_to_remove(Some(true)), Some(8));
    assert_eq!(c.peer_to_remove(Some(false)), None);
    assert_eq!(c.peer_to_remove(None), None);
}

#[test]
fn listen_is_not_served_as_a_request() {
    let r = handle_client_msg(&ClientMsg::Listen { token: 1 }, &vec![], 0);
    assert_eq!(r, Step::Finish(Ok(ServerMsg::Error { message: "Messaggio non gestito".into() })));
}

#[test]
fn decided_listen_requests() {
    let mut conn = Connection::new();
    let refused = conn.after_listen(Err(AppError::BadCredentials));
    assert_eq!(refused, ListenReply::RefuseAndClose { reply: ServerMsg::Error { message: "Sessione non valida".into() } });
    assert_eq!(conn.user_id, None);
    assert_eq!(conn.after_listen(Ok(7)), ListenReply::Listening { user_id: 7 });
    assert_eq!(conn.user_id, Some(7));
}
