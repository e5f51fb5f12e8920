//! The decisions a server connection makes besides serving requests: a
//! client that asks to listen for notifications, and cleaning up when the
//! connection closes.

use vstd::prelude::*;
use crate::effects::{EffectV, Outcome, Step, StepV, session_answer, session_of};
use crate::effects::Effect;
use crate::errors::AppError;
use crate::protocol::{ServerMsg, ServerMsgV};

verus! {

/// A listen request first has its token validated; it is accepted for the
/// user the session names and refused otherwise.
pub open spec fn listen_plan(token: u128, done: Seq<Outcome>) -> StepV<u128> {
    if done.len() == 0 {
        StepV::Perform(EffectV::ValidateSession { token })
    } else {
        match session_of(done[0]) {
            Ok(user) => StepV::Finish(Ok(user)),
            Err(e) => StepV::Finish(Err(e)),
        }
    }
}

pub fn handle_listen(token: u128, done: &Vec<Outcome>) -> (step: Step<u128>)
    ensures
        step@ == listen_plan(token, done@),
{
    if done.len() == 0 {
        return Step::Perform(Effect::ValidateSession { token });
    }
    Step::Finish(session_answer(&done[0]))
}

/// The reply to a refused listen request, after which the connection closes.
pub fn session_refused() -> (m: ServerMsg)
    ensures
        m@ == (ServerMsgV::Error { message: "Sessione non valida"@ }),
{
    ServerMsg::Error { message: String::from_str("Sessione non valida") }
}

/// What a connection remembers: the user it delivers notifications to,
/// once it listens.
#[derive(Debug, PartialEq)]
pub struct Connection {
    pub user_id: Option<u128>,
}

/// The user whose notification channel a closing connection removes: its
/// own listener, and only while the registered channel is still this
/// connection's (`Some(true)`); a newer connection of the same user keeps
/// its channel.
pub open spec fn removal_on_close(user_id: Option<u128>, registered_is_ours: Option<bool>) -> Option<u128> {
    match (user_id, registered_is_ours) {
        (Some(u), Some(true)) => Some(u),
        _ => None,
    }
}

impl Connection {
    pub fn new() -> (c: Connection)
        ensures
            c.user_id is None,
    {
        Connection { user_id: None }
    }

    /// The connection now listens for `user`.
    pub fn listening(&mut self, user: u128)
        ensures
            final(self).user_id == Some(user),
    {
        self.user_id = Some(user);
    }

    /// On close: which user's channel to remove, given whether the channel
    /// registered for this connection's user is this connection's own
    /// (`None` when none is registered).
    pub fn peer_to_remove(&self, registered_is_ours: Option<bool>) -> (r: Option<u128>)
        ensures
            r == removal_on_close(self.user_id, registered_is_ours),
    {
        match (self.user_id, registered_is_ours) {
            (Some(u), Some(true)) => Some(u),
            _ => None,
        }
    }
}

/// What a connection does once a listen request has been decided: start
/// delivering notifications for the user, or send the refusal and close.
#[derive(Debug, PartialEq)]
pub enum ListenReply {
    Listening { user_id: u128 },
    RefuseAndClose { reply: ServerMsg },
}

impl Connection {
    /// Takes in how a listen request was decided (see `handle_listen`): an
    /// accepted request makes the connection listen for its user; a refused
    /// one leaves it as it was and is answered "Sessione non valida" before
    /// the connection closes.
    pub fn after_listen(&mut self, decided: Result<u128, AppError>) -> (a: ListenReply)
        ensures
            match decided {
                Ok(u) => final(self).user_id == Some(u) && a == (ListenReply::Listening { user_id: u }),
                Err(_) => *final(self) == *old(self) && (a matches ListenReply::RefuseAndClose { reply }
                    && reply@ == (ServerMsgV::Error { message: "Sessione non valida"@ })),
            },
    {
        match decided {
            Ok(u) => {
                self.listening(u);
                ListenReply::Listening { user_id: u }
            },
            Err(_) => ListenReply::RefuseAndClose { reply: session_refused() },
        }
    }
}

/// Closing a connection never removes the channel of another connection,
/// nor of a user it was not listening for.
pub proof fn closing_keeps_other_listeners(user_id: Option<u128>, registered_is_ours: Option<bool>)
    ensures
        removal_on_close(user_id, registered_is_ours) is Some ==> registered_is_ours == Some(true)
            && user_id == removal_on_close(user_id, registered_is_ours),
{
}

} // verus!
