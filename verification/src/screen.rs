//! The screens of the chat client.

use vstd::prelude::*;

verus! {

/// The screen the client shows.
#[derive(Clone, Copy, Debug, PartialEq, Eq, Structural)]
pub enum View {
    Home,
    Login,
    Register,
    ChatList,
    PrivateChat(usize),
    GroupChat(usize),
}

impl Default for View {
    fn default() -> (v: View)
        ensures
            v == View::Home,
    {
        View::Home
    }
}

/// The screens that show conversations.
pub open spec fn shows_chats(v: View) -> bool {
    v is PrivateChat || v is GroupChat || v is ChatList
}

} // verus!
