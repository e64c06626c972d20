//! In-memory adapter: a concrete implementation of the repository port
//! backed by a plain vector of entities. It serves as the verified witness
//! that the port contract is satisfiable, and as a test double that can be
//! substituted for the relational adapter without changing call sites.

use vstd::prelude::*;

use crate::domain::{CreateUser, UpdateUser, User, UserDomainError};
use crate::ids::generate_user_id;
use crate::model::{record_of_user, store_has_email, UserRecord};
use crate::repository::UserRepositoryPort;
use crate::sql::merge_update;
use crate::text::str_eq;

verus! {

/// No two stored entities share an identifier.
pub open spec fn ids_distinct(s: Seq<User>) -> bool {
    forall|i: int, j: int| 0 <= i < j < s.len() ==> (#[trigger] s[i])@.id != (#[trigger] s[j])@.id
}

/// Some stored entity carries the given identifier.
pub open spec fn has_id(s: Seq<User>, id: Seq<char>) -> bool {
    exists|i: int| 0 <= i < s.len() && (#[trigger] s[i])@.id == id
}

/// Some stored entity carries the given email address.
pub open spec fn has_email(s: Seq<User>, email: Seq<char>) -> bool {
    exists|i: int| 0 <= i < s.len() && (#[trigger] s[i])@.email == email
}

/// The abstract store held by a vector of entities: each entity's mutable
/// fields, keyed by its identifier. A later entity shadows an earlier one
/// with the same identifier, which the adapter's invariant rules out.
pub open spec fn store_of(s: Seq<User>) -> Map<Seq<char>, UserRecord>
    decreases s.len(),
{
    if s.len() == 0 {
        Map::empty()
    } else {
        store_of(s.drop_last()).insert(s.last()@.id, record_of_user(s.last()@))
    }
}

/// An identifier is in the store exactly when some stored entity carries it.
pub proof fn lemma_store_of_dom(s: Seq<User>)
    ensures
        forall|id: Seq<char>| #[trigger] store_of(s).contains_key(id) <==> has_id(s, id),
    decreases s.len(),
{
    if s.len() == 0 {
        assert(forall|id: Seq<char>| !has_id(s, id));
    } else {
        let prefix = s.drop_last();
        lemma_store_of_dom(prefix);
        assert forall|id: Seq<char>| #[trigger] store_of(s).contains_key(id) implies has_id(
            s,
            id,
        ) by {
            if id == s.last()@.id {
                assert(s[s.len() - 1]@.id == id);
            } else {
                assert(store_of(prefix).contains_key(id));
                assert(has_id(prefix, id));
                let i = choose|i: int| 0 <= i < prefix.len() && (#[trigger] prefix[i])@.id == id;
                assert(s[i] == prefix[i]);
                assert(s[i]@.id == id);
            }
        }
        assert forall|id: Seq<char>| has_id(s, id) implies #[trigger] store_of(s).contains_key(
            id,
        ) by {
            let i = choose|i: int| 0 <= i < s.len() && (#[trigger] s[i])@.id == id;
            if i < s.len() - 1 {
                assert(prefix[i]@.id == id);
                assert(has_id(prefix, id));
            }
        }
    }
}

/// Under distinct identifiers, the store maps each stored entity's
/// identifier to exactly that entity's record.
pub proof fn lemma_store_of_index(s: Seq<User>, i: int)
    requires
        ids_distinct(s),
        0 <= i < s.len(),
    ensures
        store_of(s).contains_key(s[i]@.id),
        store_of(s)[s[i]@.id] == record_of_user(s[i]@),
    decreases s.len(),
{
    if i == s.len() - 1 {
    } else {
        let prefix = s.drop_last();
        assert(ids_distinct(prefix));
        assert(prefix[i] == s[i]);
        lemma_store_of_index(prefix, i);
        assert(s[i]@.id != s.last()@.id);
    }
}

/// Appending an entity inserts its row into the store.
pub proof fn lemma_store_of_push(s: Seq<User>, u: User)
    ensures
        store_of(s.push(u)) == store_of(s).insert(u@.id, record_of_user(u@)),
{
    assert(s.push(u).drop_last() =~= s);
    assert(s.push(u).last() == u);
}

/// Under distinct identifiers, removing the entity at an index removes
/// exactly its row from the store.
pub proof fn lemma_store_of_remove(s: Seq<User>, i: int)
    requires
        ids_distinct(s),
        0 <= i < s.len(),
    ensures
        store_of(s.remove(i)) == store_of(s).remove(s[i]@.id),
    decreases s.len(),
{
    let prefix = s.drop_last();
    assert(ids_distinct(prefix));
    if i == s.len() - 1 {
        assert(s.remove(i) =~= prefix);
        lemma_store_of_dom(prefix);
        assert(!has_id(prefix, s[i]@.id));
        assert(store_of(prefix).remove(s[i]@.id) =~= store_of(prefix));
        assert(store_of(s).remove(s[i]@.id) =~= store_of(prefix).remove(s[i]@.id));
    } else {
        assert(prefix[i] == s[i]);
        lemma_store_of_remove(prefix, i);
        let r = s.remove(i);
        assert(r.drop_last() =~= prefix.remove(i));
        assert(r.last() == s.last());
        assert(store_of(r) == store_of(prefix.remove(i)).insert(
            s.last()@.id,
            record_of_user(s.last()@),
        ));
        assert(s[i]@.id != s.last()@.id);
        assert(store_of(prefix).remove(s[i]@.id).insert(s.last()@.id, record_of_user(s.last()@))
            =~= store_of(prefix).insert(s.last()@.id, record_of_user(s.last()@)).remove(
            s[i]@.id,
        ));
    }
}

/// Under distinct identifiers, the store carries an email exactly when some
/// stored entity does.
pub proof fn lemma_store_of_email(s: Seq<User>, email: Seq<char>)
    requires
        ids_distinct(s),
    ensures
        store_has_email(store_of(s), email) <==> has_email(s, email),
{
    lemma_store_of_dom(s);
    if store_has_email(store_of(s), email) {
        let id = choose|id: Seq<char>|
            #[trigger] store_of(s).contains_key(id) && store_of(s)[id].email == email;
        let i = choose|i: int| 0 <= i < s.len() && (#[trigger] s[i])@.id == id;
        lemma_store_of_index(s, i);
        assert(s[i]@.email == email);
    }
    if has_email(s, email) {
        let i = choose|i: int| 0 <= i < s.len() && (#[trigger] s[i])@.email == email;
        lemma_store_of_index(s, i);
        assert(store_of(s).contains_key(s[i]@.id) && store_of(s)[s[i]@.id].email == email);
    }
}

/// Repository adapter keeping all entities in process memory.
pub struct InMemoryUserRepository {
    users: Vec<User>,
}

impl InMemoryUserRepository {
    #[verifier::type_invariant]
    spec fn wf(self) -> bool {
        ids_distinct(self.users@)
    }

    /// Creates an adapter with an empty store.
    pub fn new() -> (r: Self)
        ensures
            r.store() == Map::<Seq<char>, UserRecord>::empty(),
    {
        InMemoryUserRepository { users: Vec::new() }
    }

    /// The index of the entity carrying the identifier, if any.
    fn find_index(users: &Vec<User>, id: &str) -> (r: Option<usize>)
        ensures
            match r {
                Some(i) => i < users@.len() && users@[i as int]@.id == id@,
                None => !has_id(users@, id@),
            },
    {
        let mut i: usize = 0;
        while i < users.len()
            invariant
                i <= users@.len(),
                forall|j: int| 0 <= j < i ==> (#[trigger] users@[j])@.id != id@,
            decreases users@.len() - i,
        {
            if str_eq(users[i].id(), id) {
                return Some(i);
            }
            i += 1;
        }
        None
    }

    /// Whether some stored entity already carries the email.
    fn email_taken(users: &Vec<User>, email: &str) -> (r: bool)
        ensures
            r == has_email(users@, email@),
    {
        let mut i: usize = 0;
        while i < users.len()
            invariant
                i <= users@.len(),
                forall|j: int| 0 <= j < i ==> (#[trigger] users@[j])@.email != email@,
            decreases users@.len() - i,
        {
            if str_eq(users[i].email(), email) {
                proof {
                    assert(has_email(users@, email@));
                }
                return true;
            }
            i += 1;
        }
        false
    }
}

impl UserRepositoryPort for InMemoryUserRepository {
    closed spec fn store(&self) -> Map<Seq<char>, UserRecord> {
        store_of(self.users@)
    }

    fn create_user(&mut self, user: CreateUser) -> (r: Result<User, UserDomainError>) {
        proof {
            use_type_invariant(&*self);
        }
        let ghost s0 = self.users@;
        let CreateUser { name, email, age } = user;
        if Self::email_taken(&self.users, email.as_str()) {
            proof {
                lemma_store_of_email(s0, email@);
            }
            return Err(UserDomainError::UserAlreadyExists);
        }
        let id = generate_user_id();
        match Self::find_index(&self.users, id.as_str()) {
            Some(_) => {
                // The random draw collided with an identifier already in use.
                proof {
                    lemma_store_of_email(s0, email@);
                }
                Err(UserDomainError::UserCreationFailed)
            },
            None => {
                proof {
                    lemma_store_of_dom(s0);
                    lemma_store_of_email(s0, email@);
                }
                let u = User::new(id, name, email, age);
                let result = u.clone();
                proof {
                    assert forall|i: int, j: int|
                        0 <= i < j < s0.push(u).len() implies (#[trigger] s0.push(u)[i])@.id != (
                    #[trigger] s0.push(u)[j])@.id by {
                        if j == s0.len() {
                            assert(s0[i]@.id != u@.id);
                        }
                    }
                    lemma_store_of_push(s0, u);
                }
                let mut users: Vec<User> = Vec::new();
                core::mem::swap(&mut users, &mut self.users);
                users.push(u);
                core::mem::swap(&mut users, &mut self.users);
                Ok(result)
            },
        }
    }

    fn get_user(&self, id: String) -> (r: Result<User, UserDomainError>) {
        proof {
            use_type_invariant(&*self);
        }
        match Self::find_index(&self.users, id.as_str()) {
            Some(i) => {
                proof {
                    lemma_store_of_index(self.users@, i as int);
                }
                Ok(self.users[i].clone())
            },
            None => {
                proof {
                    lemma_store_of_dom(self.users@);
                }
                Err(UserDomainError::UserNotFound)
            },
        }
    }

    fn update_user(&mut self, user: UpdateUser) -> (r: Result<User, UserDomainError>) {
        proof {
            use_type_invariant(&*self);
        }
        let ghost s0 = self.users@;
        match Self::find_index(&self.users, user.id.as_str()) {
            Some(i) => {
                proof {
                    lemma_store_of_index(s0, i as int);
                }
                let merged = merge_update(&self.users[i], user);
                let result = merged.clone();
                proof {
                    lemma_store_of_remove(s0, i as int);
                    assert forall|p: int, q: int|
                        0 <= p < q < s0.remove(i as int).len() implies (#[trigger] s0.remove(
                        i as int,
                    )[p])@.id != (#[trigger] s0.remove(i as int)[q])@.id by {}
                }
                let mut users: Vec<User> = Vec::new();
                core::mem::swap(&mut users, &mut self.users);
                users.remove(i);
                let ghost s1 = users@;
                proof {
                    assert forall|p: int|
                        0 <= p < s1.len() implies (#[trigger] s1[p])@.id != merged@.id by {
                        if p < i {
                            assert(s1[p] == s0[p]);
                        } else {
                            assert(s1[p] == s0[p + 1]);
                        }
                    }
                    assert forall|p: int, q: int|
                        0 <= p < q < s1.push(merged).len() implies (#[trigger] s1.push(
                        merged,
                    )[p])@.id != (#[trigger] s1.push(merged)[q])@.id by {}
                    lemma_store_of_push(s1, merged);
                    assert(store_of(s0).remove(merged@.id).insert(
                        merged@.id,
                        record_of_user(merged@),
                    ) =~= store_of(s0).insert(merged@.id, record_of_user(merged@)));
                }
                users.push(merged);
                core::mem::swap(&mut users, &mut self.users);
                Ok(result)
            },
            None => {
                proof {
                    lemma_store_of_dom(s0);
                }
                Err(UserDomainError::UserNotFound)
            },
        }
    }

    fn delete_user(&mut self, id: String) -> (r: Result<(), UserDomainError>) {
        proof {
            use_type_invariant(&*self);
        }
        let ghost s0 = self.users@;
        match Self::find_index(&self.users, id.as_str()) {
            Some(i) => {
                proof {
                    lemma_store_of_index(s0, i as int);
                    lemma_store_of_remove(s0, i as int);
                    assert forall|p: int, q: int|
                        0 <= p < q < s0.remove(i as int).len() implies (#[trigger] s0.remove(
                        i as int,
                    )[p])@.id != (#[trigger] s0.remove(i as int)[q])@.id by {}
                }
                let mut users: Vec<User> = Vec::new();
                core::mem::swap(&mut users, &mut self.users);
                users.remove(i);
                core::mem::swap(&mut users, &mut self.users);
                Ok(())
            },
            None => {
                proof {
                    lemma_store_of_dom(s0);
                }
                Err(UserDomainError::UserNotFound)
            },
        }
    }
}

} // verus!
