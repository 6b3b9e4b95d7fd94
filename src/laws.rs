use vstd::prelude::*;
use crate::identity::Identity;
use crate::reducers::{
    connect_users, disconnect_users, send_message_messages, set_name_users, ReducerContext,
};
use crate::tables::{rows_keyed, MessageView, UserView};
use crate::validation::ChatError;

verus! {

/// `set_name` with a non-empty name by an identity that has no row fails
/// with `UnknownUser`; the procedure then leaves the User table as it was,
/// so no row is created.
pub proof fn lemma_set_name_unknown_user(users: Map<Identity, UserView>, caller: Identity, name: Seq<char>)
    requires
        !users.contains_key(caller),
        name.len() > 0,
    ensures
        set_name_users(users, caller, name) == Err::<Map<Identity, UserView>, ChatError>(
            ChatError::UnknownUser,
        ),
{
}

/// A connect followed by a disconnect leaves the caller's row offline,
/// under the caller's identity, with the name it had before the connect
/// (none for a first connection); no other row changes.
pub proof fn lemma_connect_then_disconnect(users: Map<Identity, UserView>, caller: Identity)
    requires
        rows_keyed(users),
    ensures
        ({
            let after = disconnect_users(connect_users(users, caller), caller);
            &&& after.contains_key(caller)
            &&& after[caller].online == false
            &&& after[caller].identity == caller
            &&& after[caller].name == if users.contains_key(caller) {
                users[caller].name
            } else {
                None
            }
            &&& after.remove(caller) == users.remove(caller)
        }),
{
    let after = disconnect_users(connect_users(users, caller), caller);
    assert(after.remove(caller) =~= users.remove(caller));
}

/// Connecting twice in a row has the effect of connecting once: the
/// caller's identity and name stay, and it remains online.
pub proof fn lemma_connect_idempotent(users: Map<Identity, UserView>, caller: Identity)
    requires
        rows_keyed(users),
    ensures
        connect_users(connect_users(users, caller), caller) == connect_users(users, caller),
        connect_users(users, caller)[caller].online,
        connect_users(users, caller)[caller].identity == caller,
{
    assert(connect_users(connect_users(users, caller), caller) =~= connect_users(users, caller));
}

/// An empty message is rejected with `EmptyMessage` and appends nothing.
pub proof fn lemma_empty_message_rejected(messages: Seq<MessageView>, ctx: ReducerContext)
    ensures
        send_message_messages(messages, ctx, Seq::<char>::empty()) == Err::<Seq<MessageView>, ChatError>(
            ChatError::EmptyMessage,
        ),
{
}

/// Two accepted messages are appended one row each, in call order, each
/// carrying its caller, its text and its invocation's time; with a clock
/// that moves forward the second row's time is after the first's.
pub proof fn lemma_messages_appended_in_order(
    messages: Seq<MessageView>,
    first: ReducerContext,
    first_text: Seq<char>,
    second: ReducerContext,
    second_text: Seq<char>,
)
    requires
        first_text.len() > 0,
        second_text.len() > 0,
        first.timestamp.micros_since_unix_epoch < second.timestamp.micros_since_unix_epoch,
    ensures
        send_message_messages(messages, first, first_text) matches Ok(once)
            && send_message_messages(once, second, second_text) matches Ok(twice)
            && once == messages.push(
            MessageView { sender: first.sender, sent: first.timestamp, text: first_text },
        ) && twice == once.push(
            MessageView { sender: second.sender, sent: second.timestamp, text: second_text },
        ) && twice[messages.len() as int].sent.micros_since_unix_epoch < twice[messages.len() + 1int].sent.micros_since_unix_epoch,
{
}

} // verus!
