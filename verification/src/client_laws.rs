//! Properties of the chat client's state machine.

use vstd::prelude::*;
use crate::client::{
    AppResultV, AppV, CommandV, apply_of, belongs_on_screen, chat_position, has_message, logout_of,
    nav_of, receive_of,
};
use crate::protocol::PrivateChatInfoV;
use crate::protocol::MessageInfoV;
use crate::screen;
use crate::screen::shows_chats;

verus! {

/// After logging out no session remains, nothing loaded under the old
/// session is kept, and the home screen is shown.
pub proof fn logout_forgets_the_session(s: AppV)
    ensures
        logout_of(s).session_token is None,
        logout_of(s).user_id is None,
        logout_of(s).username is None,
        logout_of(s).private_chats.len() == 0,
        logout_of(s).groups.len() == 0,
        logout_of(s).current_messages.len() == 0,
        logout_of(s).current_group_members.len() == 0,
        logout_of(s).search_results.len() == 0,
        !logout_of(s).chats_loaded,
        !logout_of(s).last_search_completed,
        logout_of(s).pending_chat is None,
        logout_of(s).view == screen::View::Home,
        logout_of(s).status.len() == 0,
        !logout_of(s).is_loading,
        logout_of(s).epoch != s.epoch,
{
}

/// A result of a request made before logging out is never taken in after
/// it: the state stays as logging out left it, and nothing is started.
pub proof fn results_from_before_logout_are_dropped(s: AppV, r: AppResultV)
    ensures
        receive_of(logout_of(s), s.epoch, r) == (logout_of(s), Seq::<CommandV>::empty()),
{
}

/// After registering, the login screen is shown with a note to log in.
pub proof fn registration_leads_to_login(s: AppV)
    ensures
        apply_of(s, AppResultV::RegisterSuccess).0.view == screen::View::Login,
        apply_of(s, AppResultV::RegisterSuccess).0.status == "Registrato! Fai login."@,
        !apply_of(s, AppResultV::RegisterSuccess).0.is_loading,
{
}

/// A sent message clears the text the user typed.
pub proof fn sent_messages_clear_the_input(s: AppV)
    ensures
        apply_of(s, AppResultV::MessageSent).0.message_input.len() == 0,
{
}

/// A started private chat is opened once the reloaded chat list holds it:
/// starting it reloads the list, and the list that comes back shows the
/// chat at the first position where it is listed.
pub proof fn started_chats_are_opened(s: AppV, chat_id: u128, chats: Seq<PrivateChatInfoV>, i: int)
    requires
        s.session_token is Some,
        0 <= i < chats.len(),
        chats[i].chat_id == chat_id,
    ensures
        apply_of(s, AppResultV::PrivateChatStarted { chat_id }).1 == seq![
            CommandV::LoadPrivateChats { token: s.session_token->0 },
        ],
        ({
            let s1 = apply_of(s, AppResultV::PrivateChatStarted { chat_id }).0;
            let s2 = apply_of(s1, AppResultV::PrivateChatsLoaded { chats }).0;
            let k = chat_position(chats, chat_id)->0;
            &&& chat_position(chats, chat_id) is Some
            &&& s2.view == screen::View::PrivateChat(k as usize)
            &&& 0 <= k < s2.private_chats.len()
            &&& s2.private_chats[k].chat_id == chat_id
            &&& s2.pending_chat is None
        }),
{
    assert(exists|j: int| 0 <= j < chats.len() && (#[trigger] chats[j]).chat_id == chat_id);
    first_listing_exists(chats, chat_id, i);
}

/// When `chat_id` is listed at `i`, a first listing exists at or before `i`.
proof fn first_listing_exists(chats: Seq<PrivateChatInfoV>, chat_id: u128, i: int)
    requires
        0 <= i < chats.len(),
        chats[i].chat_id == chat_id,
    ensures
        exists|k: int| crate::client::first_position_of(chats, chat_id, k),
    decreases i,
{
    if exists|j: int| 0 <= j < i && (#[trigger] chats[j]).chat_id == chat_id {
        let j = choose|j: int| 0 <= j < i && (#[trigger] chats[j]).chat_id == chat_id;
        first_listing_exists(chats, chat_id, j);
    } else {
        assert(crate::client::first_position_of(chats, chat_id, i));
    }
}

/// Moving to a screen that shows no conversation drops the conversation's
/// messages and members; any move clears the status line and the search.
pub proof fn leaving_conversations_drops_them(s: AppV, v: screen::View)
    ensures
        nav_of(s, v).view == v,
        nav_of(s, v).status.len() == 0,
        !nav_of(s, v).is_loading,
        nav_of(s, v).search_results.len() == 0,
        !shows_chats(v) ==> nav_of(s, v).current_messages.len() == 0
            && nav_of(s, v).current_group_members.len() == 0,
        shows_chats(v) ==> nav_of(s, v).current_messages == s.current_messages,
{
}

/// No two messages on screen share an identifier.
pub open spec fn distinct_messages(msgs: Seq<MessageInfoV>) -> bool {
    forall|i: int, j: int|
        0 <= i < msgs.len() && 0 <= j < msgs.len() && i != j ==> (#[trigger] msgs[i]).message_id
            != (#[trigger] msgs[j]).message_id
}

/// A pushed message is shown at most once: pushing a message already on
/// screen changes nothing, and pushes keep the messages on screen free of
/// repeated identifiers.
pub proof fn pushed_messages_are_not_repeated(s: AppV, m: MessageInfoV, chat_id: Option<u128>, group_id: Option<u128>)
    ensures
        has_message(s.current_messages, m.message_id) ==> apply_of(
            s,
            AppResultV::PushNewMessage { message: m, chat_id, group_id },
        ) == (s, Seq::<CommandV>::empty()),
        distinct_messages(s.current_messages) ==> distinct_messages(
            apply_of(s, AppResultV::PushNewMessage { message: m, chat_id, group_id }).0.current_messages,
        ),
{
    let r = apply_of(s, AppResultV::PushNewMessage { message: m, chat_id, group_id }).0.current_messages;
    if distinct_messages(s.current_messages) && belongs_on_screen(s, m, chat_id, group_id)
        && !has_message(s.current_messages, m.message_id) {
        let n = s.current_messages.len();
        assert forall|i: int, j: int|
            0 <= i < r.len() && 0 <= j < r.len() && i != j implies (#[trigger] r[i]).message_id
                != (#[trigger] r[j]).message_id by {
            if i == n {
                assert(r[j] == s.current_messages[j]);
            } else if j == n {
                assert(r[i] == s.current_messages[i]);
            } else {
                assert(r[i] == s.current_messages[i]);
                assert(r[j] == s.current_messages[j]);
            }
        }
    }
}

/// A pushed message that belongs to another conversation leaves the
/// state as it was.
pub proof fn other_conversations_are_untouched(s: AppV, m: MessageInfoV, chat_id: Option<u128>, group_id: Option<u128>)
    requires
        !belongs_on_screen(s, m, chat_id, group_id),
    ensures
        apply_of(s, AppResultV::PushNewMessage { message: m, chat_id, group_id }).0 == s,
{
}

/// A loaded history, which arrives newest first, is shown oldest first.
pub proof fn history_is_shown_oldest_first(s: AppV, messages: Seq<MessageInfoV>)
    ensures
        apply_of(s, AppResultV::MessagesLoaded { messages }).0.current_messages == messages.reverse(),
        !apply_of(s, AppResultV::MessagesLoaded { messages }).0.is_loading,
{
}

/// A failed request ends the loading mark and shows its message.
pub proof fn errors_are_reported(s: AppV, message: Seq<char>)
    ensures
        apply_of(s, AppResultV::Error { message }).0.status == "Errore: "@ + message,
        !apply_of(s, AppResultV::Error { message }).0.is_loading,
{
}

/// A pushed message not yet shown is appended to the conversation on
/// screen when it belongs there: on a group's screen, a message for that
/// group; on a private chat's screen, a message for that chat or from the
/// user it is with. Nothing else changes and nothing is started. A message
/// for another group, or any push while no conversation is shown, leaves
/// the state as it was.
pub proof fn pushed_messages_show_in_the_open_conversation(
    s: AppV,
    m: MessageInfoV,
    chat_id: Option<u128>,
    group_id: Option<u128>,
)
    requires
        forall|k: int| 0 <= k < s.current_messages.len() ==> (#[trigger] s.current_messages[k]).message_id
            != m.message_id,
    ensures
        s.view matches screen::View::GroupChat(i) ==> (
            i < s.groups.len() && group_id == Some(s.groups[i as int].group_id) ==> apply_of(
                s,
                AppResultV::PushNewMessage { message: m, chat_id, group_id },
            ) == (AppV { current_messages: s.current_messages.push(m), ..s }, Seq::<CommandV>::empty())),
        s.view matches screen::View::GroupChat(i) ==> (
            !(i < s.groups.len() && group_id == Some(s.groups[i as int].group_id)) ==> apply_of(
                s,
                AppResultV::PushNewMessage { message: m, chat_id, group_id },
            ) == (s, Seq::<CommandV>::empty())),
        s.view matches screen::View::PrivateChat(i) ==> (
            i < s.private_chats.len() && (chat_id == Some(s.private_chats[i as int].chat_id)
                || m.sender_id == s.private_chats[i as int].other_user_id) ==> apply_of(
                s,
                AppResultV::PushNewMessage { message: m, chat_id, group_id },
            ) == (AppV { current_messages: s.current_messages.push(m), ..s }, Seq::<CommandV>::empty())),
        !(s.view is GroupChat) && !(s.view is PrivateChat) ==> apply_of(
            s,
            AppResultV::PushNewMessage { message: m, chat_id, group_id },
        ) == (s, Seq::<CommandV>::empty()),
{
}

} // verus!
