//! Laws of the repository operations, proved over the store model. The
//! port contract ties every adapter's executable behaviour to the model
//! functions these laws speak about, so each law holds of any sequence of
//! calls through the port.

use vstd::prelude::*;

use crate::domain::{CreateUserView, UpdateUserView, UserDomainError};
use crate::model::{
    create_allowed, merged_record, record_of, spec_delete_result, spec_get, spec_update_result,
    store_after_create, store_after_delete, store_after_update, UserRecord,
};

verus! {

/// A created user is retrievable unchanged: after a create stores the
/// command's record under the freshly assigned identifier, a get with that
/// identifier yields exactly that record — identical name, email and age.
pub proof fn lemma_create_then_get(
    s: Map<Seq<char>, UserRecord>,
    id: Seq<char>,
    cu: CreateUserView,
)
    ensures
        spec_get(store_after_create(s, id, cu), id) == Ok::<UserRecord, UserDomainError>(
            record_of(cu),
        ),
{
}

/// A second create with an occupied email is rejected: once a create has
/// stored a record, no create command with the same email is allowed
/// against the resulting store — by the port contract it yields
/// `UserAlreadyExists` and leaves the store unchanged — and the first
/// entity remains retrievable with its original record.
pub proof fn lemma_duplicate_email_rejected(
    s: Map<Seq<char>, UserRecord>,
    id: Seq<char>,
    first: CreateUserView,
    second: CreateUserView,
)
    requires
        second.email == first.email,
    ensures
        !create_allowed(store_after_create(s, id, first), second),
        spec_get(store_after_create(s, id, first), id) == Ok::<UserRecord, UserDomainError>(
            record_of(first),
        ),
{
    let s1 = store_after_create(s, id, first);
    assert(s1.contains_key(id) && s1[id].email == second.email);
}

/// A get on an identifier that is not in the store yields `UserNotFound`.
pub proof fn lemma_get_missing(s: Map<Seq<char>, UserRecord>, id: Seq<char>)
    requires
        !s.contains_key(id),
    ensures
        spec_get(s, id) == Err::<UserRecord, UserDomainError>(UserDomainError::UserNotFound),
{
}

/// An update with every optional field absent leaves the stored record —
/// every field — unchanged, and leaves the store itself unchanged. (The
/// relational adapter still rewrites the row, stamping its modification
/// timestamp; the timestamp is a storage column outside the domain
/// record.)
pub proof fn lemma_update_all_absent(s: Map<Seq<char>, UserRecord>, u: UpdateUserView)
    requires
        s.contains_key(u.id),
        u.name is None,
        u.email is None,
        u.age is None,
    ensures
        spec_update_result(s, u) == Ok::<UserRecord, UserDomainError>(s[u.id]),
        store_after_update(s, u) == s,
{
    assert(merged_record(s[u.id], u) == s[u.id]);
    assert(s.insert(u.id, s[u.id]) =~= s);
}

/// An update changes exactly the present fields: each present field takes
/// its new value and each absent field keeps the stored one.
pub proof fn lemma_update_field_semantics(s: Map<Seq<char>, UserRecord>, u: UpdateUserView)
    requires
        s.contains_key(u.id),
    ensures
        spec_update_result(s, u) matches Ok(m) && {
            &&& (match u.name {
                Some(n) => m.name == n,
                None => m.name == s[u.id].name,
            })
            &&& (match u.email {
                Some(e) => m.email == e,
                None => m.email == s[u.id].email,
            })
            &&& (match u.age {
                Some(a) => m.age == a,
                None => m.age == s[u.id].age,
            })
        },
{
}

/// An update is idempotent: applying the same payload twice yields the
/// same result and the same store as applying it once.
pub proof fn lemma_update_idempotent(s: Map<Seq<char>, UserRecord>, u: UpdateUserView)
    requires
        s.contains_key(u.id),
    ensures
        spec_update_result(store_after_update(s, u), u) == spec_update_result(s, u),
        store_after_update(store_after_update(s, u), u) == store_after_update(s, u),
{
    let s1 = store_after_update(s, u);
    assert(merged_record(s1[u.id], u) == merged_record(s[u.id], u));
    assert(s1.insert(u.id, merged_record(s1[u.id], u)) =~= s1);
}

/// A get after a delete of the same identifier yields `UserNotFound`,
/// whether or not the identifier had been stored.
pub proof fn lemma_delete_then_get(s: Map<Seq<char>, UserRecord>, id: Seq<char>)
    ensures
        spec_get(store_after_delete(s, id), id) == Err::<UserRecord, UserDomainError>(
            UserDomainError::UserNotFound,
        ),
{
}

/// A delete on an identifier that is not in the store yields
/// `UserNotFound`, not success, and leaves the store unchanged.
pub proof fn lemma_delete_missing(s: Map<Seq<char>, UserRecord>, id: Seq<char>)
    requires
        !s.contains_key(id),
    ensures
        spec_delete_result(s, id) == Err::<(), UserDomainError>(UserDomainError::UserNotFound),
        store_after_delete(s, id) == s,
{
}

} // verus!
