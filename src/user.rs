use vstd::prelude::*;
use crate::diff::{FieldValue, fields_view};
use crate::response::{HttpResponse, failure, STATUS_NOT_FOUND};
use crate::store::{Database, first_index, lemma_absent, lemma_first_index};

verus! {

/// A user account; `tenants` lists the tenants it is a member of.
pub struct User {
    pub id: u128,
    pub email: String,
    pub password_hash: String,
    pub first_name: String,
    pub last_name: String,
    pub tenants: Vec<u128>,
    pub created_at: String,
}

/// A user as shown to clients: everything but the password hash.
pub struct UserMinimal {
    pub id: u128,
    pub email: String,
    pub first_name: String,
    pub last_name: String,
    pub tenants: Vec<u128>,
    pub created_at: String,
}

pub open spec fn user_ids(s: Seq<User>) -> Seq<u128> {
    s.map_values(|u: User| u.id)
}

/// The position of the user with identifier `id`, or -1.
pub open spec fn user_pos(s: Seq<User>, id: u128) -> int {
    first_index(user_ids(s), id)
}

/// The mutable fields of a user, in display form; the password hash is
/// sensitive.
pub open spec fn user_fields(u: User) -> Seq<(Seq<char>, Seq<char>, bool)> {
    seq![
        ("email"@, u.email@, false),
        ("password"@, u.password_hash@, true),
        ("firstName"@, u.first_name@, false),
        ("lastName"@, u.last_name@, false),
    ]
}

/// `m` shows `u`.
pub open spec fn minimal_of(m: UserMinimal, u: User) -> bool {
    &&& m.id == u.id
    &&& m.email@ == u.email@
    &&& m.first_name@ == u.first_name@
    &&& m.last_name@ == u.last_name@
    &&& m.tenants@ == u.tenants@
    &&& m.created_at@ == u.created_at@
}

/// Two users agree on every field, compared by content.
pub open spec fn same_user(a: User, b: User) -> bool {
    &&& a.id == b.id
    &&& a.email@ == b.email@
    &&& a.password_hash@ == b.password_hash@
    &&& a.first_name@ == b.first_name@
    &&& a.last_name@ == b.last_name@
    &&& a.tenants@ == b.tenants@
    &&& a.created_at@ == b.created_at@
}

pub(crate) fn copy_ids(v: &Vec<u128>) -> (r: Vec<u128>)
    ensures
        r@ == v@,
{
    let mut out: Vec<u128> = Vec::new();
    let mut i: usize = 0;
    while i < v.len()
        invariant
            i <= v@.len(),
            out@ == v@.subrange(0, i as int),
        decreases v@.len() - i,
    {
        out.push(v[i]);
        i = i + 1;
        assert(out@ =~= v@.subrange(0, i as int));
    }
    assert(out@ =~= v@);
    out
}

pub(crate) fn contains_id(v: &Vec<u128>, id: u128) -> (r: bool)
    ensures
        r == v@.contains(id),
{
    let mut i: usize = 0;
    while i < v.len()
        invariant
            i <= v@.len(),
            forall|j: int| 0 <= j < i ==> v@[j] != id,
        decreases v@.len() - i,
    {
        if v[i] == id {
            return true;
        }
        i = i + 1;
    }
    false
}

pub(crate) fn find_user(users: &Vec<User>, id: u128) -> (r: Option<usize>)
    ensures
        r is Some ==> r->Some_0 < users@.len() && user_pos(users@, id) == r->Some_0 as int
            && users@[r->Some_0 as int].id == id,
        r is None ==> user_pos(users@, id) == -1,
{
    let mut i: usize = 0;
    while i < users.len()
        invariant
            i <= users@.len(),
            forall|j: int| 0 <= j < i ==> user_ids(users@)[j] != id,
        decreases users@.len() - i,
    {
        if users[i].id == id {
            proof {
                lemma_first_index(user_ids(users@), id, i as int);
            }
            return Some(i);
        }
        i = i + 1;
    }
    proof {
        lemma_absent(user_ids(users@), id);
    }
    None
}

impl User {
    /// A copy that agrees with `self` on every field.
    pub fn duplicate(&self) -> (r: Self)
        ensures
            same_user(r, *self),
    {
        User {
            id: self.id,
            email: self.email.clone(),
            password_hash: self.password_hash.clone(),
            first_name: self.first_name.clone(),
            last_name: self.last_name.clone(),
            tenants: copy_ids(&self.tenants),
            created_at: self.created_at.clone(),
        }
    }

    /// The user without its password hash.
    pub fn to_minimal(&self) -> (r: UserMinimal)
        ensures
            minimal_of(r, *self),
    {
        UserMinimal {
            id: self.id,
            email: self.email.clone(),
            first_name: self.first_name.clone(),
            last_name: self.last_name.clone(),
            tenants: copy_ids(&self.tenants),
            created_at: self.created_at.clone(),
        }
    }

    /// The mutable fields that an update compares.
    pub fn fields(&self) -> (r: Vec<FieldValue>)
        ensures
            fields_view(r@) == user_fields(*self),
    {
        let mut r: Vec<FieldValue> = Vec::new();
        r.push(FieldValue { name: "email".to_string(), value: self.email.clone(), redact: false });
        r.push(
            FieldValue {
                name: "password".to_string(),
                value: self.password_hash.clone(),
                redact: true,
            },
        );
        r.push(
            FieldValue {
                name: "firstName".to_string(),
                value: self.first_name.clone(),
                redact: false,
            },
        );
        r.push(
            FieldValue { name: "lastName".to_string(), value: self.last_name.clone(), redact: false },
        );
        assert(fields_view(r@) =~= user_fields(*self));
        r
    }

    /// The user with identifier `id`.
    pub fn get_by_id(id: u128, connection: &Database) -> (r: Result<Self, HttpResponse<Self>>)
        ensures
            user_pos(connection.users@, id) >= 0 ==> r is Ok && same_user(
                r->Ok_0,
                connection.users@[user_pos(connection.users@, id)],
            ),
            user_pos(connection.users@, id) < 0 ==> r is Err && r->Err_0.status
                == STATUS_NOT_FOUND && r->Err_0.data is None && r->Err_0.message@
                == "User not found"@,
    {
        match find_user(&connection.users, id) {
            Some(i) => Ok(connection.users[i].duplicate()),
            None => Err(failure(STATUS_NOT_FOUND, "User not found")),
        }
    }

    /// Every user, in storage order.
    pub fn get_all(connection: &Database) -> (r: Result<Vec<Self>, HttpResponse<Vec<Self>>>)
        ensures
            r is Ok && r->Ok_0@.len() == connection.users@.len() && forall|i: int|
                0 <= i < connection.users@.len() ==> same_user(
                    #[trigger] r->Ok_0@[i],
                    connection.users@[i],
                ),
    {
        let mut out: Vec<Self> = Vec::new();
        let mut i: usize = 0;
        while i < connection.users.len()
            invariant
                i <= connection.users@.len(),
                out@.len() == i,
                forall|j: int| 0 <= j < i ==> same_user(#[trigger] out@[j], connection.users@[j]),
            decreases connection.users@.len() - i,
        {
            out.push(connection.users[i].duplicate());
            i = i + 1;
        }
        Ok(out)
    }

    /// Replaces the stored document that has the same identifier.
    pub fn update(&self, connection: &mut Database) -> (r: Result<UserMinimal, HttpResponse<UserMinimal>>)
        ensures
            ({
                let p = user_pos(old(connection).users@, self.id);
                &&& p >= 0 ==> r is Ok && minimal_of(r->Ok_0, *self)
                    && final(connection).users@ == old(connection).users@.update(p, final(connection).users@[p])
                    && same_user(final(connection).users@[p], *self)
                &&& p < 0 ==> r is Err && r->Err_0.status == STATUS_NOT_FOUND
                    && r->Err_0.data is None && r->Err_0.message@ == "User not found"@
                    && final(connection).users == old(connection).users
            }),
            old(connection).wf() ==> final(connection).wf(),
            final(connection).tenants == old(connection).tenants,
            final(connection).locations == old(connection).locations,
            final(connection).logs == old(connection).logs,
    {
        match find_user(&connection.users, self.id) {
            Some(i) => {
                connection.users.set(i, self.duplicate());
                assert(user_ids(connection.users@) =~= user_ids(old(connection).users@));
                Ok(self.to_minimal())
            },
            None => Err(failure(STATUS_NOT_FOUND, "User not found")),
        }
    }
}

} // verus!
