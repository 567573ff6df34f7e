//! The credential store.
//!
//! Holds one record per account: a numeric id handed out in insertion order,
//! a unique e-mail address, the password hash, and optional name fields.
//! The store stands in for the persistence collaborator; it enforces the two
//! invariants the service relies on — ids are unique and e-mail addresses
//! are unique — and its lookups are exact, case-sensitive matches.

use vstd::prelude::*;

verus! {

/// One stored credential record.  The password field holds the salted hash
/// string, never a plaintext.
pub struct UserRecord {
    pub id: i32,
    pub email: String,
    pub password: String,
    pub firstname: Option<String>,
    pub lastname: Option<String>,
}

/// The first record in `users` whose e-mail equals `email`, if any.
pub open spec fn spec_find_email(users: Seq<UserRecord>, email: Seq<char>) -> Option<UserRecord>
    decreases users.len(),
{
    if users.len() == 0 {
        None
    } else if users[0].email@ == email {
        Some(users[0])
    } else {
        spec_find_email(users.drop_first(), email)
    }
}

/// The first record in `users` whose id equals `id`, if any.
pub open spec fn spec_find_id(users: Seq<UserRecord>, id: int) -> Option<UserRecord>
    decreases users.len(),
{
    if users.len() == 0 {
        None
    } else if users[0].id == id {
        Some(users[0])
    } else {
        spec_find_id(users.drop_first(), id)
    }
}

/// An in-memory credential store with auto-incremented ids.
pub struct UserStore {
    users: Vec<UserRecord>,
    next_id: i32,
}

impl View for UserStore {
    type V = Seq<UserRecord>;

    closed spec fn view(&self) -> Seq<UserRecord> {
        self.users@
    }
}

impl UserStore {
    /// The id the next inserted record receives.
    pub closed spec fn spec_next_id(&self) -> int {
        self.next_id as int
    }

    /// Well-formedness: ids are positive, below the next free id, and strictly
    /// increasing in insertion order (hence unique), and no two records share
    /// an e-mail address.
    pub open spec fn wf(&self) -> bool {
        &&& 1 <= self.spec_next_id() <= i32::MAX
        &&& (forall|i: int|
            0 <= i < self@.len() ==> 0 < #[trigger] self@[i].id < self.spec_next_id())
        &&& (forall|i: int, j: int|
            0 <= i < j < self@.len() ==> #[trigger] self@[i].id < #[trigger] self@[j].id)
        &&& (forall|i: int, j: int|
            0 <= i < j < self@.len() ==> #[trigger] self@[i].email@ != #[trigger] self@[j].email@)
    }

    /// An empty store; the first record will receive id 1.
    pub fn new() -> (s: UserStore)
        ensures
            s.wf(),
            s@ == Seq::<UserRecord>::empty(),
            s.spec_next_id() == 1,
    {
        UserStore { users: Vec::new(), next_id: 1 }
    }

    /// How many records the store holds.
    pub fn len(&self) -> (n: usize)
        ensures
            n == self@.len(),
    {
        self.users.len()
    }

    /// Exact, case-sensitive lookup by e-mail address.
    pub fn find_by_email(&self, email: &String) -> (r: Option<&UserRecord>)
        ensures
            (match r {
                Some(rec) => spec_find_email(self@, email@) == Some(*rec),
                None => spec_find_email(self@, email@) is None,
            }),
    {
        let n = self.users.len();
        for i in 0..n
            invariant
                n == self.users.len(),
                forall|k: int| 0 <= k < i ==> #[trigger] self.users@[k].email@ != email@,
        {
            if self.users[i].email == *email {
                proof {
                    lemma_find_email_at(self@, email@, i as int);
                }
                return Some(&self.users[i]);
            }
        }
        proof {
            lemma_find_email_none(self@, email@);
        }
        None
    }

    /// Lookup by record id.
    pub fn find_by_id(&self, id: i32) -> (r: Option<&UserRecord>)
        ensures
            (match r {
                Some(rec) => spec_find_id(self@, id as int) == Some(*rec),
                None => spec_find_id(self@, id as int) is None,
            }),
    {
        let n = self.users.len();
        for i in 0..n
            invariant
                n == self.users.len(),
                forall|k: int| 0 <= k < i ==> #[trigger] self.users@[k].id != id,
        {
            if self.users[i].id == id {
                proof {
                    lemma_find_id_at(self@, id as int, i as int);
                }
                return Some(&self.users[i]);
            }
        }
        proof {
            lemma_find_id_none(self@, id as int);
        }
        None
    }

    /// Appends a fresh record under the next free id.  The caller must have
    /// ruled the e-mail out beforehand; this mirrors the uniqueness
    /// constraint the persistence layer enforces.  Fails only when the id
    /// space is exhausted, and then leaves the store unchanged.
    pub fn insert(
        &mut self,
        email: String,
        password: String,
        firstname: Option<String>,
        lastname: Option<String>,
    ) -> (r: Result<i32, ()>)
        requires
            old(self).wf(),
            spec_find_email(old(self)@, email@) is None,
        ensures
            final(self).wf(),
            (match r {
                Ok(id) => {
                    &&& id == old(self).spec_next_id()
                    &&& final(self).spec_next_id() == old(self).spec_next_id() + 1
                    &&& final(self)@ == old(self)@.push(
                        (UserRecord { id, email, password, firstname, lastname }),
                    )
                },
                Err(_) => {
                    &&& old(self).spec_next_id() == i32::MAX
                    &&& final(self)@ == old(self)@
                    &&& final(self).spec_next_id() == old(self).spec_next_id()
                },
            }),
    {
        if self.next_id == i32::MAX {
            return Err(());
        }
        let id = self.next_id;
        proof {
            lemma_find_email_none_no_match(self@, email@);
        }
        self.users.push(UserRecord { id, email, password, firstname, lastname });
        self.next_id = id + 1;
        Ok(id)
    }
}

/// If a record at index `i` is the first e-mail match, the recursive lookup
/// returns it.
proof fn lemma_find_email_at(users: Seq<UserRecord>, email: Seq<char>, i: int)
    requires
        0 <= i < users.len(),
        users[i].email@ == email,
        forall|k: int| 0 <= k < i ==> #[trigger] users[k].email@ != email,
    ensures
        spec_find_email(users, email) == Some(users[i]),
    decreases users.len(),
{
    if i > 0 {
        lemma_find_email_at(users.drop_first(), email, i - 1);
    }
}

/// If no record matches the e-mail, the recursive lookup returns nothing.
proof fn lemma_find_email_none(users: Seq<UserRecord>, email: Seq<char>)
    requires
        forall|k: int| 0 <= k < users.len() ==> #[trigger] users[k].email@ != email,
    ensures
        spec_find_email(users, email) is None,
    decreases users.len(),
{
    if users.len() > 0 {
        lemma_find_email_none(users.drop_first(), email);
    }
}

/// Conversely, an empty lookup result means no record matches the e-mail.
pub proof fn lemma_find_email_none_no_match(users: Seq<UserRecord>, email: Seq<char>)
    requires
        spec_find_email(users, email) is None,
    ensures
        forall|k: int| 0 <= k < users.len() ==> #[trigger] users[k].email@ != email,
    decreases users.len(),
{
    if users.len() > 0 {
        lemma_find_email_none_no_match(users.drop_first(), email);
        assert forall|k: int| 0 <= k < users.len() implies #[trigger] users[k].email@ != email by {
            if k > 0 {
                assert(users[k] == users.drop_first()[k - 1]);
            }
        }
    }
}

/// If a record at index `i` is the first id match, the recursive lookup
/// returns it.
proof fn lemma_find_id_at(users: Seq<UserRecord>, id: int, i: int)
    requires
        0 <= i < users.len(),
        users[i].id == id,
        forall|k: int| 0 <= k < i ==> #[trigger] users[k].id != id,
    ensures
        spec_find_id(users, id) == Some(users[i]),
    decreases users.len(),
{
    if i > 0 {
        lemma_find_id_at(users.drop_first(), id, i - 1);
    }
}

/// If no record carries the id, the recursive lookup returns nothing.
proof fn lemma_find_id_none(users: Seq<UserRecord>, id: int)
    requires
        forall|k: int| 0 <= k < users.len() ==> #[trigger] users[k].id != id,
    ensures
        spec_find_id(users, id) is None,
    decreases users.len(),
{
    if users.len() > 0 {
        lemma_find_id_none(users.drop_first(), id);
    }
}

} // verus!
