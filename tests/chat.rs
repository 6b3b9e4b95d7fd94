use chat_server::identity::{Identity, Timestamp};
use chat_server::reducers::{
    client_connected, client_disconnected, connected_user, disconnected_user, named_user,
    new_message, send_message, set_name, ReducerContext,
};
use chat_server::tables::{Database, Message, MessageTable, StoreError, User, UserTable};
use chat_server::validation::{validate_message, validate_name, ChatError};

fn id(n: u128) -> Identity {
    Identity::from_halves(n, 0)
}

fn ctx(n: u128, micros: i64) -> ReducerContext {
    ReducerContext::new(id(n), Timestamp::from_micros_since_unix_epoch(micros))
}

fn user_row(db: &Database, n: u128) -> Option<(Identity, Option<String>, bool)> {
    db.user.find(id(n)).map(|u| (u.identity, u.name.clone(), u.online))
}

#[test]
fn validate_name_rejects_empty() {
    assert_eq!(validate_name(String::new()), Err(ChatError::EmptyName));
}

#[test]
fn validate_name_returns_input_unchanged() {
    assert_eq!(validate_name("alice".to_string()), Ok("alice".to_string()));
    assert_eq!(validate_name(" ".to_string()), Ok(" ".to_string()));
}

#[test]
fn validate_message_rejects_empty() {
    assert_eq!(validate_message(String::new()), Err(ChatError::EmptyMessage));
}

#[test]
fn validate_message_returns_input_unchanged() {
    assert_eq!(validate_message("hi there ".to_string()), Ok("hi there ".to_string()));
}

#[test]
fn error_messages() {
    assert_eq!(ChatError::EmptyName.message(), "Name must not be empty");
    assert_eq!(ChatError::EmptyMessage.message(), "Message can't be empty!");
    assert_eq!(ChatError::UnknownUser.message(), "Cannot set name for unknown user");
}

#[test]
fn set_name_unknown_user_fails_and_creates_no_row() {
    let mut db = Database::new();
    assert_eq!(set_name(&mut db, &ctx(2, 10), "bob".to_string()), Err(ChatError::UnknownUser));
    assert!(db.user.find(id(2)).is_none());
    assert!(db.user.scan().is_empty());
}

#[test]
fn set_name_empty_name_is_checked_first() {
    let mut db = Database::new();
    assert_eq!(set_name(&mut db, &ctx(2, 10), String::new()), Err(ChatError::EmptyName));
    client_connected(&mut db, &ctx(2, 11));
    assert_eq!(set_name(&mut db, &ctx(2, 12), String::new()), Err(ChatError::EmptyName));
    assert_eq!(user_row(&db, 2), Some((id(2), None, true)));
}

#[test]
fn connect_then_disconnect() {
    let mut db = Database::new();
    client_connected(&mut db, &ctx(1, 1));
    assert_eq!(user_row(&db, 1), Some((id(1), None, true)));
    assert!(client_disconnected(&mut db, &ctx(1, 2)));
    assert_eq!(user_row(&db, 1), Some((id(1), None, false)));
}

#[test]
fn connect_twice_is_idempotent() {
    let mut db = Database::new();
    client_connected(&mut db, &ctx(1, 1));
    set_name(&mut db, &ctx(1, 2), "ann".to_string()).unwrap();
    client_connected(&mut db, &ctx(1, 3));
    client_connected(&mut db, &ctx(1, 4));
    assert_eq!(user_row(&db, 1), Some((id(1), Some("ann".to_string()), true)));
    assert_eq!(db.user.scan().len(), 1);
}

#[test]
fn disconnect_of_unknown_identity_changes_nothing() {
    let mut db = Database::new();
    client_connected(&mut db, &ctx(1, 1));
    assert!(!client_disconnected(&mut db, &ctx(9, 2)));
    assert!(db.user.find(id(9)).is_none());
    assert_eq!(user_row(&db, 1), Some((id(1), None, true)));
}

#[test]
fn send_empty_message_inserts_nothing() {
    let mut db = Database::new();
    assert_eq!(send_message(&mut db, &ctx(1, 5), String::new()), Err(ChatError::EmptyMessage));
    assert!(db.message.scan().is_empty());
}

#[test]
fn send_messages_in_order() {
    let mut db = Database::new();
    assert_eq!(send_message(&mut db, &ctx(1, 100), "hi".to_string()), Ok(()));
    let rows = db.message.scan();
    assert_eq!(rows.len(), 1);
    assert_eq!(rows[0].sender, id(1));
    assert_eq!(rows[0].text, "hi");
    assert_eq!(rows[0].sent, Timestamp::from_micros_since_unix_epoch(100));
    assert_eq!(send_message(&mut db, &ctx(1, 200), "there".to_string()), Ok(()));
    let rows = db.message.scan();
    assert_eq!(rows.len(), 2);
    assert_eq!(rows[1].text, "there");
    assert!(rows[0].sent.to_micros_since_unix_epoch() < rows[1].sent.to_micros_since_unix_epoch());
}

#[test]
fn end_to_end_session() {
    let mut db = Database::new();
    let a = 0xA;
    let b = 0xB;
    client_connected(&mut db, &ctx(a, 1));
    assert_eq!(user_row(&db, a), Some((id(a), None, true)));
    assert_eq!(set_name(&mut db, &ctx(a, 2), "alice".to_string()), Ok(()));
    assert_eq!(user_row(&db, a), Some((id(a), Some("alice".to_string()), true)));
    assert_eq!(send_message(&mut db, &ctx(a, 3), "hello".to_string()), Ok(()));
    assert_eq!(db.message.scan().len(), 1);
    assert_eq!(db.message.scan()[0].text, "hello");
    assert_eq!(db.message.scan()[0].sender, id(a));
    assert!(client_disconnected(&mut db, &ctx(a, 4)));
    assert_eq!(user_row(&db, a), Some((id(a), Some("alice".to_string()), false)));
    assert_eq!(set_name(&mut db, &ctx(b, 5), "bob".to_string()), Err(ChatError::UnknownUser));
    assert!(db.user.find(id(b)).is_none());
    assert_eq!(db.user.scan().len(), 1);
}

#[test]
fn rename_overwrites_and_allows_duplicates() {
    let mut db = Database::new();
    client_connected(&mut db, &ctx(1, 1));
    client_connected(&mut db, &ctx(2, 2));
    set_name(&mut db, &ctx(1, 3), "x".to_string()).unwrap();
    set_name(&mut db, &ctx(1, 4), "y".to_string()).unwrap();
    set_name(&mut db, &ctx(2, 5), "y".to_string()).unwrap();
    assert_eq!(user_row(&db, 1), Some((id(1), Some("y".to_string()), true)));
    assert_eq!(user_row(&db, 2), Some((id(2), Some("y".to_string()), true)));
}

#[test]
fn user_table_key_errors() {
    let mut t = UserTable::new();
    let row = User { identity: id(3), name: None, online: true };
    assert_eq!(t.update(row), Err(StoreError::MissingKey));
    assert!(t.find(id(3)).is_none());
    let row = User { identity: id(3), name: None, online: true };
    assert_eq!(t.insert(row), Ok(()));
    let again = User { identity: id(3), name: Some("z".to_string()), online: false };
    assert_eq!(t.insert(again), Err(StoreError::DuplicateKey));
    assert_eq!(t.find(id(3)).unwrap().name, None);
    let changed = User { identity: id(3), name: Some("z".to_string()), online: false };
    assert_eq!(t.update(changed), Ok(()));
    assert_eq!(t.find(id(3)).unwrap().name, Some("z".to_string()));
    assert_eq!(t.scan().len(), 1);
}

#[test]
fn message_table_appends() {
    let mut t = MessageTable::new();
    t.insert(Message { sender: id(1), sent: Timestamp::from_micros_since_unix_epoch(7), text: "a".to_string() });
    t.insert(Message { sender: id(2), sent: Timestamp::from_micros_since_unix_epoch(8), text: "b".to_string() });
    let rows = t.scan();
    assert_eq!(rows.len(), 2);
    assert_eq!(rows[0].text, "a");
    assert_eq!(rows[1].sender, id(2));
}

#[test]
fn row_decisions() {
    let existing = User { identity: id(4), name: Some("old".to_string()), online: false };
    let named = named_user(Some(&existing), "new".to_string()).unwrap();
    assert_eq!((named.identity, named.name, named.online), (id(4), Some("new".to_string()), false));
    assert_eq!(named_user(None, "new".to_string()).unwrap_err(), ChatError::UnknownUser);
    assert_eq!(named_user(Some(&existing), String::new()).unwrap_err(), ChatError::EmptyName);

    let back = connected_user(Some(&existing), id(4));
    assert_eq!((back.identity, back.name, back.online), (id(4), Some("old".to_string()), true));
    let fresh = connected_user(None, id(5));
    assert_eq!((fresh.identity, fresh.name, fresh.online), (id(5), None, true));

    let online = User { identity: id(4), name: None, online: true };
    let off = disconnected_user(Some(&online)).unwrap();
    assert_eq!((off.identity, off.name, off.online), (id(4), None, false));
    assert!(disconnected_user(None).is_none());

    let m = new_message(&ctx(6, 42), "yo".to_string()).unwrap();
    assert_eq!((m.sender, m.sent.to_micros_since_unix_epoch(), m.text), (id(6), 42, "yo".to_string()));
    assert_eq!(new_message(&ctx(6, 42), String::new()).unwrap_err(), ChatError::EmptyMessage);
}

#[test]
fn duplicate_copies_fields() {
    let u = User { identity: id(8), name: Some("q".to_string()), online: true };
    let d = u.duplicate();
    assert_eq!((d.identity, d.name, d.online), (id(8), Some("q".to_string()), true));
}
