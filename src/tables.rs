use vstd::prelude::*;
use crate::identity::{Identity, Timestamp};

verus! {

/// One row per identity ever seen.
#[derive(Debug)]
pub struct User {
    pub identity: Identity,
    pub name: Option<String>,
    pub online: bool,
}

/// One accepted chat message.
#[derive(Debug)]
pub struct Message {
    pub sender: Identity,
    pub sent: Timestamp,
    pub text: String,
}

pub ghost struct UserView {
    pub identity: Identity,
    pub name: Option<Seq<char>>,
    pub online: bool,
}

pub ghost struct MessageView {
    pub sender: Identity,
    pub sent: Timestamp,
    pub text: Seq<char>,
}

pub open spec fn name_view(name: Option<String>) -> Option<Seq<char>> {
    match name {
        Some(s) => Some(s@),
        None => None,
    }
}

impl View for User {
    type V = UserView;

    open spec fn view(&self) -> UserView {
        UserView { identity: self.identity, name: name_view(self.name), online: self.online }
    }
}

impl View for Message {
    type V = MessageView;

    open spec fn view(&self) -> MessageView {
        MessageView { sender: self.sender, sent: self.sent, text: self.text@ }
    }
}

impl User {
    /// A copy of this row with equal fields.
    pub fn duplicate(&self) -> (r: User)
        ensures
            r@ == self@,
    {
        let name = match &self.name {
            Some(s) => Some(s.clone()),
            None => None,
        };
        User { identity: self.identity, name, online: self.online }
    }
}

/// What a lookup of `id` in a table with contents `m` yields, as a view.
pub open spec fn lookup(m: Map<Identity, UserView>, id: Identity) -> Option<UserView> {
    if m.contains_key(id) {
        Some(m[id])
    } else {
        None
    }
}

/// Every row is stored under its own identity.
pub open spec fn rows_keyed(m: Map<Identity, UserView>) -> bool {
    forall|id: Identity| #[trigger] m.contains_key(id) ==> m[id].identity == id
}

pub open spec fn opt_row_view(r: Option<User>) -> Option<UserView> {
    match r {
        Some(u) => Some(u@),
        None => None,
    }
}

pub open spec fn opt_user_view(r: Option<&User>) -> Option<UserView> {
    match r {
        Some(u) => Some(u@),
        None => None,
    }
}

/// The reasons a table operation can be refused.
#[derive(PartialEq, Eq, Structural, Clone, Copy, Debug)]
pub enum StoreError {
    /// An insert found a row with the same primary key.
    DuplicateKey,
    /// An update found no row with the given primary key.
    MissingKey,
}

/// The User table, keyed by `identity`.
pub struct UserTable {
    rows: Vec<User>,
}

impl View for UserTable {
    type V = Map<Identity, UserView>;

    /// The table's contents, by primary key.
    closed spec fn view(&self) -> Map<Identity, UserView> {
        Map::new(
            |id: Identity| exists|i: int| self.has_row_at(id, i),
            |id: Identity| self.rows@[choose|i: int| self.has_row_at(id, i)]@,
        )
    }
}

impl UserTable {
    /// No two rows share an identity.
    pub closed spec fn wf(&self) -> bool {
        forall|i: int, j: int|
            0 <= i < self.rows.len() && 0 <= j < self.rows.len() && i != j
                ==> #[trigger] self.rows@[i].identity != #[trigger] self.rows@[j].identity
    }

    spec fn has_row_at(&self, id: Identity, i: int) -> bool {
        0 <= i < self.rows.len() && self.rows@[i].identity == id
    }

    proof fn lemma_row_at(&self, i: int)
        requires
            self.wf(),
            0 <= i < self.rows.len(),
        ensures
            self@.contains_key(self.rows@[i].identity),
            self@[self.rows@[i].identity] == self.rows@[i]@,
    {
        let id = self.rows@[i].identity;
        assert(self.has_row_at(id, i));
        let j = choose|j: int| self.has_row_at(id, j);
        assert(self.rows@[j].identity == self.rows@[i].identity);
    }

    /// A well-formed table stores each row under its own identity.
    pub proof fn lemma_rows_keyed(&self)
        requires
            self.wf(),
        ensures
            rows_keyed(self@),
    {
        assert forall|id: Identity| #[trigger] self@.contains_key(id) implies self@[id].identity == id by {
            let i = choose|i: int| self.has_row_at(id, i);
            self.lemma_row_at(i);
        }
    }

    pub fn new() -> (r: UserTable)
        ensures
            r.wf(),
            r@ == Map::<Identity, UserView>::empty(),
    {
        let r = UserTable { rows: Vec::new() };
        assert(r@ =~= Map::<Identity, UserView>::empty());
        r
    }

    fn position(&self, id: Identity) -> (r: Option<usize>)
        ensures
            match r {
                Some(i) => self.has_row_at(id, i as int),
                None => forall|i: int| !self.has_row_at(id, i),
            },
    {
        let mut k: usize = 0;
        while k < self.rows.len()
            invariant
                k <= self.rows.len(),
                forall|i: int| 0 <= i < k ==> !self.has_row_at(id, i),
            decreases self.rows.len() - k,
        {
            if self.rows[k].identity == id {
                return Some(k);
            }
            k = k + 1;
        }
        None
    }

    /// Looks a row up by its primary key.
    pub fn find(&self, id: Identity) -> (r: Option<&User>)
        requires
            self.wf(),
        ensures
            opt_user_view(r) == lookup(self@, id),
            r matches Some(u) ==> u.identity == id,
    {
        match self.position(id) {
            Some(i) => {
                proof {
                    self.lemma_row_at(i as int);
                }
                Some(&self.rows[i])
            },
            None => None,
        }
    }

    /// Adds a row whose primary key is not yet present.
    pub fn insert(&mut self, row: User) -> (r: Result<(), StoreError>)
        requires
            old(self).wf(),
        ensures
            final(self).wf(),
            r == if old(self)@.contains_key(row.identity) {
                Err::<(), StoreError>(StoreError::DuplicateKey)
            } else {
                Ok::<(), StoreError>(())
            },
            r is Ok ==> final(self)@ == old(self)@.insert(row.identity, row@),
            r is Err ==> final(self)@ == old(self)@,
    {
        match self.position(row.identity) {
            Some(i) => {
                proof {
                    self.lemma_row_at(i as int);
                }
                Err(StoreError::DuplicateKey)
            },
            None => {
                let ghost prev = *self;
                let id = row.identity;
                let ghost rv = row@;
                self.rows.push(row);
                let n = self.rows.len() - 1;
                assert(self.rows@[n as int]@ == rv);
                assert forall|i: int| 0 <= i < prev.rows.len() implies self.rows@[i] == prev.rows@[i] by {}
                assert forall|i: int| 0 <= i < prev.rows.len() implies self.rows@[i].identity != id by {
                    assert(!prev.has_row_at(id, i));
                }
                assert(self.wf());
                proof {
                    self.lemma_row_at(n as int);
                }
                assert forall|k: Identity| #[trigger] self@.contains_key(k) == prev@.insert(id, rv).contains_key(k) by {
                    if k != id {
                        if self@.contains_key(k) {
                            let j = choose|j: int| self.has_row_at(k, j);
                            assert(prev.has_row_at(k, j));
                        }
                        if prev@.contains_key(k) {
                            let j = choose|j: int| prev.has_row_at(k, j);
                            assert(self.has_row_at(k, j));
                        }
                    }
                }
                assert forall|k: Identity| #[trigger] self@.contains_key(k) && k != id implies self@[k] == prev@[k] by {
                    let j = choose|j: int| self.has_row_at(k, j);
                    assert(prev.has_row_at(k, j));
                    self.lemma_row_at(j);
                    prev.lemma_row_at(j);
                }
                assert(self@ =~= prev@.insert(id, rv));
                Ok(())
            },
        }
    }

    /// Replaces the row whose primary key is `row.identity`.
    pub fn update(&mut self, row: User) -> (r: Result<(), StoreError>)
        requires
            old(self).wf(),
        ensures
            final(self).wf(),
            r == if old(self)@.contains_key(row.identity) {
                Ok::<(), StoreError>(())
            } else {
                Err::<(), StoreError>(StoreError::MissingKey)
            },
            r is Ok ==> final(self)@ == old(self)@.insert(row.identity, row@),
            r is Err ==> final(self)@ == old(self)@,
    {
        match self.position(row.identity) {
            None => Err(StoreError::MissingKey),
            Some(i) => {
                let ghost prev = *self;
                let id = row.identity;
                let ghost rv = row@;
                self.rows.set(i, row);
                assert forall|j: int| 0 <= j < prev.rows.len() && j != i implies self.rows@[j] == prev.rows@[j] by {}
                proof {
                    self.lemma_row_at(i as int);
                }
                assert forall|k: Identity| #[trigger] self@.contains_key(k) == prev@.insert(id, rv).contains_key(k) by {
                    if k != id {
                        if self@.contains_key(k) {
                            let j = choose|j: int| self.has_row_at(k, j);
                            assert(prev.has_row_at(k, j));
                        }
                        if prev@.contains_key(k) {
                            let j = choose|j: int| prev.has_row_at(k, j);
                            assert(self.has_row_at(k, j));
                        }
                    }
                }
                assert forall|k: Identity| #[trigger] self@.contains_key(k) && k != id implies self@[k] == prev@[k] by {
                    let j = choose|j: int| self.has_row_at(k, j);
                    assert(prev.has_row_at(k, j));
                    self.lemma_row_at(j);
                    prev.lemma_row_at(j);
                }
                assert(self@ =~= prev@.insert(id, rv));
                Ok(())
            },
        }
    }

    /// All rows, for observers.
    pub fn scan(&self) -> (r: &Vec<User>)
        requires
            self.wf(),
        ensures
            forall|i: int, j: int|
                0 <= i < r@.len() && 0 <= j < r@.len() && i != j
                    ==> #[trigger] r@[i].identity != #[trigger] r@[j].identity,
            forall|i: int| 0 <= i < r@.len() ==> self@.contains_key(#[trigger] r@[i].identity)
                && self@[r@[i].identity] == r@[i]@,
            forall|id: Identity| self@.contains_key(id) ==> exists|i: int| 0 <= i < r@.len() && #[trigger] r@[i].identity == id,
    {
        assert forall|i: int| 0 <= i < self.rows@.len() implies self@.contains_key(
            #[trigger] self.rows@[i].identity,
        ) && self@[self.rows@[i].identity] == self.rows@[i]@ by {
            self.lemma_row_at(i);
        }
        &self.rows
    }
}

/// The Message table, in insertion order.
pub struct MessageTable {
    rows: Vec<Message>,
}

impl View for MessageTable {
    type V = Seq<MessageView>;

    closed spec fn view(&self) -> Seq<MessageView> {
        self.rows@.map_values(|m: Message| m@)
    }
}

impl MessageTable {
    pub fn new() -> (r: MessageTable)
        ensures
            r@ == Seq::<MessageView>::empty(),
    {
        let r = MessageTable { rows: Vec::new() };
        assert(r@ =~= Seq::<MessageView>::empty());
        r
    }

    /// Appends a row; the table has no primary key, so this never fails.
    pub fn insert(&mut self, row: Message)
        ensures
            final(self)@ == old(self)@.push(row@),
    {
        let ghost rv = row@;
        self.rows.push(row);
        assert(self@ =~= old(self)@.push(rv));
    }

    /// All rows in insertion order, for observers.
    pub fn scan(&self) -> (r: &Vec<Message>)
        ensures
            r@.len() == self@.len(),
            forall|i: int| 0 <= i < r@.len() ==> #[trigger] r@[i]@ == self@[i],
    {
        &self.rows
    }
}

/// The whole store: both tables, changed only through the procedures. Each
/// procedure is one atomic step: on success all of its writes are made, and
/// on failure none are, as each procedure's contract states.
pub struct Database {
    pub user: UserTable,
    pub message: MessageTable,
}

impl Database {
    pub open spec fn wf(&self) -> bool {
        self.user.wf()
    }

    /// A store with both tables empty.
    pub fn new() -> (r: Database)
        ensures
            r.wf(),
            r.user@ == Map::<Identity, UserView>::empty(),
            r.message@ == Seq::<MessageView>::empty(),
    {
        Database { user: UserTable::new(), message: MessageTable::new() }
    }
}

} // verus!
