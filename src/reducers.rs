use vstd::prelude::*;
use crate::identity::{Identity, Timestamp};
use crate::tables::{
    lookup, opt_row_view, opt_user_view, Database, Message, MessageView, StoreError, User, UserView,
};
use crate::validation::{validate_message, validate_name, ChatError};

verus! {

/// What the environment hands each invocation: the authenticated caller
/// and the authoritative time of the invocation.
#[derive(PartialEq, Eq, Structural, Clone, Copy, Debug)]
pub struct ReducerContext {
    pub sender: Identity,
    pub timestamp: Timestamp,
}

impl ReducerContext {
    pub fn new(sender: Identity, timestamp: Timestamp) -> (r: ReducerContext)
        ensures
            r.sender == sender,
            r.timestamp == timestamp,
    {
        ReducerContext { sender, timestamp }
    }
}

/// The row `set_name` writes, given the caller's current row.
pub open spec fn named_row(existing: Option<UserView>, name: Seq<char>) -> Result<UserView, ChatError> {
    if name.len() == 0 {
        Err(ChatError::EmptyName)
    } else {
        match existing {
            Some(u) => Ok(UserView { name: Some(name), ..u }),
            None => Err(ChatError::UnknownUser),
        }
    }
}

/// The row a connect writes, given the caller's current row.
pub open spec fn connected_row(existing: Option<UserView>, caller: Identity) -> UserView {
    match existing {
        Some(u) => UserView { online: true, ..u },
        None => UserView { identity: caller, name: None, online: true },
    }
}

/// The row a disconnect writes, given the caller's current row; none when
/// the caller has no row.
pub open spec fn disconnected_row(existing: Option<UserView>) -> Option<UserView> {
    match existing {
        Some(u) => Some(UserView { online: false, ..u }),
        None => None,
    }
}

/// The row `send_message` appends.
pub open spec fn message_row(ctx: ReducerContext, text: Seq<char>) -> Result<MessageView, ChatError> {
    if text.len() == 0 {
        Err(ChatError::EmptyMessage)
    } else {
        Ok(MessageView { sender: ctx.sender, sent: ctx.timestamp, text })
    }
}

/// The User table after `set_name`, or the error that discards the call.
pub open spec fn set_name_users(
    users: Map<Identity, UserView>,
    caller: Identity,
    name: Seq<char>,
) -> Result<Map<Identity, UserView>, ChatError> {
    match named_row(lookup(users, caller), name) {
        Ok(u) => Ok(users.insert(caller, u)),
        Err(e) => Err(e),
    }
}

/// The User table after a connect.
pub open spec fn connect_users(users: Map<Identity, UserView>, caller: Identity) -> Map<Identity, UserView> {
    users.insert(caller, connected_row(lookup(users, caller), caller))
}

/// The User table after a disconnect.
pub open spec fn disconnect_users(users: Map<Identity, UserView>, caller: Identity) -> Map<Identity, UserView> {
    match disconnected_row(lookup(users, caller)) {
        Some(u) => users.insert(caller, u),
        None => users,
    }
}

/// The Message table after `send_message`, or the error that discards the call.
pub open spec fn send_message_messages(
    messages: Seq<MessageView>,
    ctx: ReducerContext,
    text: Seq<char>,
) -> Result<Seq<MessageView>, ChatError> {
    match message_row(ctx, text) {
        Ok(m) => Ok(messages.push(m)),
        Err(e) => Err(e),
    }
}

pub open spec fn unit_result<T>(r: Result<T, ChatError>) -> Result<(), ChatError> {
    match r {
        Ok(_) => Ok(()),
        Err(e) => Err(e),
    }
}

/// Decides the row that `set_name` writes over the caller's current row.
pub fn named_user(existing: Option<&User>, name: String) -> (r: Result<User, ChatError>)
    ensures
        match r {
            Ok(u) => named_row(opt_user_view(existing), name@) == Ok::<UserView, ChatError>(u@),
            Err(e) => named_row(opt_user_view(existing), name@) == Err::<UserView, ChatError>(e),
        },
{
    let name = match validate_name(name) {
        Ok(n) => n,
        Err(e) => {
            return Err(e);
        },
    };
    match existing {
        Some(user) => Ok(User { identity: user.identity, name: Some(name), online: user.online }),
        None => Err(ChatError::UnknownUser),
    }
}

/// Decides the row that a connect writes over the caller's current row.
pub fn connected_user(existing: Option<&User>, caller: Identity) -> (r: User)
    ensures
        r@ == connected_row(opt_user_view(existing), caller),
{
    match existing {
        Some(user) => {
            let mut row = user.duplicate();
            row.online = true;
            row
        },
        None => User { identity: caller, name: None, online: true },
    }
}

/// Decides the row that a disconnect writes over the caller's current row;
/// none when the caller has no row, which the caller reports as a warning.
pub fn disconnected_user(existing: Option<&User>) -> (r: Option<User>)
    ensures
        opt_row_view(r) == disconnected_row(opt_user_view(existing)),
{
    match existing {
        Some(user) => {
            let mut row = user.duplicate();
            row.online = false;
            Some(row)
        },
        None => None,
    }
}

/// Decides the row that `send_message` appends.
pub fn new_message(ctx: &ReducerContext, text: String) -> (r: Result<Message, ChatError>)
    ensures
        match r {
            Ok(m) => message_row(*ctx, text@) == Ok::<MessageView, ChatError>(m@),
            Err(e) => message_row(*ctx, text@) == Err::<MessageView, ChatError>(e),
        },
{
    match validate_message(text) {
        Ok(text) => Ok(Message { sender: ctx.sender, sent: ctx.timestamp, text }),
        Err(e) => Err(e),
    }
}

/// Sets the caller's display name. Fails with `EmptyName` on an empty name
/// and with `UnknownUser` when the caller has no row; on failure nothing
/// changes.
pub fn set_name(db: &mut Database, ctx: &ReducerContext, name: String) -> (r: Result<(), ChatError>)
    requires
        old(db).wf(),
    ensures
        final(db).wf(),
        r == unit_result(set_name_users(old(db).user@, ctx.sender, name@)),
        match set_name_users(old(db).user@, ctx.sender, name@) {
            Ok(users) => final(db).user@ == users,
            Err(_) => final(db).user@ == old(db).user@,
        },
        final(db).message@ == old(db).message@,
{
    let row = match named_user(db.user.find(ctx.sender), name) {
        Ok(row) => row,
        Err(e) => {
            return Err(e);
        },
    };
    let written = db.user.update(row);
    assert(written == Ok::<(), StoreError>(()));
    Ok(())
}

/// Appends the caller's message, stamped with the invocation's time. Fails
/// with `EmptyMessage` on an empty body, appending nothing.
pub fn send_message(db: &mut Database, ctx: &ReducerContext, text: String) -> (r: Result<(), ChatError>)
    requires
        old(db).wf(),
    ensures
        final(db).wf(),
        r == unit_result(send_message_messages(old(db).message@, *ctx, text@)),
        match send_message_messages(old(db).message@, *ctx, text@) {
            Ok(messages) => final(db).message@ == messages,
            Err(_) => final(db).message@ == old(db).message@,
        },
        final(db).user@ == old(db).user@,
{
    match new_message(ctx, text) {
        Ok(row) => {
            db.message.insert(row);
            Ok(())
        },
        Err(e) => Err(e),
    }
}

/// Marks the caller online, creating its row (with no name) on first
/// connection.
pub fn client_connected(db: &mut Database, ctx: &ReducerContext)
    requires
        old(db).wf(),
    ensures
        final(db).wf(),
        final(db).user@ == connect_users(old(db).user@, ctx.sender),
        final(db).message@ == old(db).message@,
{
    let existing = db.user.find(ctx.sender);
    let known = existing.is_some();
    let row = connected_user(existing, ctx.sender);
    if known {
        let written = db.user.update(row);
        assert(written == Ok::<(), StoreError>(()));
    } else {
        let written = db.user.insert(row);
        assert(written == Ok::<(), StoreError>(()));
    }
}

/// Marks the caller offline. Returns whether the caller had a row; when it
/// had none nothing changes, and the anomaly is the caller's to report.
pub fn client_disconnected(db: &mut Database, ctx: &ReducerContext) -> (known: bool)
    requires
        old(db).wf(),
    ensures
        final(db).wf(),
        known == old(db).user@.contains_key(ctx.sender),
        final(db).user@ == disconnect_users(old(db).user@, ctx.sender),
        final(db).message@ == old(db).message@,
{
    match disconnected_user(db.user.find(ctx.sender)) {
        Some(row) => {
            let written = db.user.update(row);
            assert(written == Ok::<(), StoreError>(()));
            true
        },
        None => false,
    }
}

} // verus!
