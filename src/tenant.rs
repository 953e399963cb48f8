use vstd::prelude::*;
use crate::diff::{FieldValue, fields_view};
use crate::ids::{fresh_id, now_text, uuid_text, uuid_to_text};
use crate::response::{HttpResponse, failure, STATUS_INTERNAL, STATUS_NOT_FOUND};
use crate::store::{
    Database,
    first_index,
    lemma_absent,
    lemma_first_index,
    lemma_push_unique,
    lemma_remove_unique,
};

verus! {

/// A tenant: the owner of locations and the scope of their names.
pub struct Tenant {
    pub id: u128,
    pub name: String,
    pub owner_id: u128,
    pub created_at: String,
}

pub open spec fn tenant_ids(s: Seq<Tenant>) -> Seq<u128> {
    s.map_values(|t: Tenant| t.id)
}

pub open spec fn tenant_names(s: Seq<Tenant>) -> Seq<Seq<char>> {
    s.map_values(|t: Tenant| t.name@)
}

/// The position of the tenant with identifier `id`, or -1.
pub open spec fn tenant_pos(s: Seq<Tenant>, id: u128) -> int {
    first_index(tenant_ids(s), id)
}

/// The mutable fields of a tenant, in display form, as the diff compares
/// them.
pub open spec fn tenant_fields(t: Tenant) -> Seq<(Seq<char>, Seq<char>, bool)> {
    seq![("name"@, t.name@, false), ("ownerId"@, uuid_text(t.owner_id), false)]
}

fn find_tenant(tenants: &Vec<Tenant>, id: u128) -> (r: Option<usize>)
    ensures
        r is Some ==> r->Some_0 < tenants@.len() && tenant_pos(tenants@, id) == r->Some_0 as int
            && tenants@[r->Some_0 as int].id == id,
        r is None ==> tenant_pos(tenants@, id) == -1 && forall|j: int|
            0 <= j < tenants@.len() ==> tenant_ids(tenants@)[j] != id,
{
    let mut i: usize = 0;
    while i < tenants.len()
        invariant
            i <= tenants@.len(),
            forall|j: int| 0 <= j < i ==> tenant_ids(tenants@)[j] != id,
        decreases tenants@.len() - i,
    {
        if tenants[i].id == id {
            proof {
                lemma_first_index(tenant_ids(tenants@), id, i as int);
            }
            return Some(i);
        }
        i = i + 1;
    }
    proof {
        lemma_absent(tenant_ids(tenants@), id);
    }
    None
}

fn find_tenant_by_name(tenants: &Vec<Tenant>, name: &String) -> (r: Option<usize>)
    ensures
        r is Some ==> r->Some_0 < tenants@.len() && first_index(tenant_names(tenants@), name@)
            == r->Some_0 as int,
        r is None ==> first_index(tenant_names(tenants@), name@) == -1,
{
    let mut i: usize = 0;
    while i < tenants.len()
        invariant
            i <= tenants@.len(),
            forall|j: int| 0 <= j < i ==> tenant_names(tenants@)[j] != name@,
        decreases tenants@.len() - i,
    {
        if tenants[i].name == *name {
            proof {
                lemma_first_index(tenant_names(tenants@), name@, i as int);
            }
            return Some(i);
        }
        i = i + 1;
    }
    proof {
        lemma_absent(tenant_names(tenants@), name@);
    }
    None
}

impl Tenant {
    pub const COLLECTION_NAME: &'static str = "tenants";

    /// A new tenant with a fresh identifier and owner, stamped now.
    pub fn new(name: String) -> (r: Self)
        ensures
            r.name == name,
    {
        Tenant { id: fresh_id(), name, owner_id: fresh_id(), created_at: now_text() }
    }

    /// A field-for-field copy.
    pub fn duplicate(&self) -> (r: Self)
        ensures
            r == *self,
    {
        Tenant {
            id: self.id,
            name: self.name.clone(),
            owner_id: self.owner_id,
            created_at: self.created_at.clone(),
        }
    }

    /// The mutable fields that an update compares.
    pub fn fields(&self) -> (r: Vec<FieldValue>)
        ensures
            fields_view(r@) == tenant_fields(*self),
    {
        let mut r: Vec<FieldValue> = Vec::new();
        r.push(FieldValue { name: "name".to_string(), value: self.name.clone(), redact: false });
        r.push(
            FieldValue {
                name: "ownerId".to_string(),
                value: uuid_to_text(self.owner_id),
                redact: false,
            },
        );
        assert(fields_view(r@) =~= tenant_fields(*self));
        r
    }

    /// The tenant with identifier `id`.
    pub fn get_by_id(id: u128, connection: &Database) -> (r: Result<Self, HttpResponse<Self>>)
        ensures
            tenant_pos(connection.tenants@, id) >= 0 ==> r == Ok::<Self, HttpResponse<Self>>(
                connection.tenants@[tenant_pos(connection.tenants@, id)],
            ),
            tenant_pos(connection.tenants@, id) < 0 ==> r is Err && r->Err_0.data is None && r->Err_0.status
                == STATUS_NOT_FOUND && r->Err_0.message@ == "Tenant not found"@,
    {
        match find_tenant(&connection.tenants, id) {
            Some(i) => Ok(connection.tenants[i].duplicate()),
            None => Err(failure(STATUS_NOT_FOUND, "Tenant not found")),
        }
    }

    /// The first tenant named exactly `name`.
    pub fn get_by_name(name: String, connection: &Database) -> (r: Result<Self, HttpResponse<Self>>)
        ensures
            ({
                let p = first_index(tenant_names(connection.tenants@), name@);
                &&& p >= 0 ==> r == Ok::<Self, HttpResponse<Self>>(connection.tenants@[p])
                &&& p < 0 ==> r is Err && r->Err_0.data is None && r->Err_0.status == STATUS_NOT_FOUND
                    && r->Err_0.message@ == "Tenant not found"@
            }),
    {
        match find_tenant_by_name(&connection.tenants, &name) {
            Some(i) => Ok(connection.tenants[i].duplicate()),
            None => Err(failure(STATUS_NOT_FOUND, "Tenant not found")),
        }
    }

    /// Every tenant, in storage order.
    pub fn get_all(connection: &Database) -> (r: Result<Vec<Self>, HttpResponse<Vec<Self>>>)
        ensures
            r is Ok && r->Ok_0@ == connection.tenants@,
    {
        let mut out: Vec<Self> = Vec::new();
        let mut i: usize = 0;
        while i < connection.tenants.len()
            invariant
                i <= connection.tenants@.len(),
                out@ == connection.tenants@.subrange(0, i as int),
            decreases connection.tenants@.len() - i,
        {
            out.push(connection.tenants[i].duplicate());
            i = i + 1;
            assert(out@ =~= connection.tenants@.subrange(0, i as int));
        }
        assert(out@ =~= connection.tenants@);
        Ok(out)
    }

    /// Stores the tenant; refused as a storage failure where its identifier
    /// is already taken.
    pub fn insert(&self, connection: &mut Database) -> (r: Result<Self, HttpResponse<Self>>)
        ensures
            tenant_pos(old(connection).tenants@, self.id) < 0 ==> r == Ok::<
                Self,
                HttpResponse<Self>,
            >(*self) && final(connection).tenants@ == old(connection).tenants@.push(*self),
            tenant_pos(old(connection).tenants@, self.id) >= 0 ==> r is Err && r->Err_0.data is None && r->Err_0.status
                == STATUS_INTERNAL && r->Err_0.message@ == "Error inserting tenant: duplicate key"@
                && final(connection).tenants == old(connection).tenants,
            old(connection).wf() ==> final(connection).wf(),
            final(connection).locations == old(connection).locations,
            final(connection).users == old(connection).users,
            final(connection).logs == old(connection).logs,
    {
        match find_tenant(&connection.tenants, self.id) {
            Some(_) => Err(failure(STATUS_INTERNAL, "Error inserting tenant: duplicate key")),
            None => {
                connection.tenants.push(self.duplicate());
                proof {
                    assert(tenant_ids(connection.tenants@) =~= tenant_ids(old(connection).tenants@).push(self.id));
                    if old(connection).wf() {
                        lemma_push_unique(tenant_ids(old(connection).tenants@), self.id);
                    }
                }
                Ok(self.duplicate())
            },
        }
    }

    /// Replaces the stored document that has the same identifier.
    pub fn update(&self, connection: &mut Database) -> (r: Result<Self, HttpResponse<Self>>)
        ensures
            ({
                let p = tenant_pos(old(connection).tenants@, self.id);
                &&& p >= 0 ==> r == Ok::<Self, HttpResponse<Self>>(*self)
                    && final(connection).tenants@ == old(connection).tenants@.update(p, *self)
                &&& p < 0 ==> r is Err && r->Err_0.data is None && r->Err_0.status == STATUS_NOT_FOUND
                    && r->Err_0.message@ == "Tenant not found"@
                    && final(connection).tenants == old(connection).tenants
            }),
            old(connection).wf() ==> final(connection).wf(),
            final(connection).locations == old(connection).locations,
            final(connection).users == old(connection).users,
            final(connection).logs == old(connection).logs,
    {
        match find_tenant(&connection.tenants, self.id) {
            Some(i) => {
                connection.tenants.set(i, self.duplicate());
                assert(tenant_ids(connection.tenants@) =~= tenant_ids(old(connection).tenants@));
                Ok(self.duplicate())
            },
            None => Err(failure(STATUS_NOT_FOUND, "Tenant not found")),
        }
    }

    /// Removes the stored document that has the same identifier and returns
    /// it as it was; with unique identifiers, none is left with that one.
    pub fn delete(&self, connection: &mut Database) -> (r: Result<Self, HttpResponse<()>>)
        ensures
            old(connection).wf() ==> tenant_pos(final(connection).tenants@, self.id) < 0,
            ({
                let p = tenant_pos(old(connection).tenants@, self.id);
                &&& p >= 0 ==> r == Ok::<Self, HttpResponse<()>>(old(connection).tenants@[p])
                    && final(connection).tenants@ == old(connection).tenants@.remove(p)
                &&& p < 0 ==> r is Err && r->Err_0.data is None && r->Err_0.status == STATUS_NOT_FOUND
                    && r->Err_0.message@ == "Tenant not found"@
                    && final(connection).tenants == old(connection).tenants
            }),
            old(connection).wf() ==> final(connection).wf(),
            final(connection).locations == old(connection).locations,
            final(connection).users == old(connection).users,
            final(connection).logs == old(connection).logs,
    {
        match find_tenant(&connection.tenants, self.id) {
            Some(i) => {
                let ghost before = connection.tenants@;
                let removed = connection.tenants.remove(i);
                proof {
                    assert(tenant_ids(connection.tenants@) =~= tenant_ids(before).remove(i as int));
                    if old(connection).wf() {
                        lemma_remove_unique(tenant_ids(before), i as int);
                    }
                }
                Ok(removed)
            },
            None => Err(failure(STATUS_NOT_FOUND, "Tenant not found")),
        }
    }
}

} // verus!
