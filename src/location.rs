use vstd::prelude::*;
use crate::diff::{FieldValue, fields_view};
use crate::ids::{fresh_id, now_text};
use crate::response::{HttpResponse, failure, STATUS_INTERNAL, STATUS_NOT_FOUND};
use crate::store::{
    Database,
    first_index,
    lemma_absent,
    lemma_first_index,
    lemma_push_unique,
    lemma_remove_unique,
};

verus! {

/// A location, scoped to one tenant.
pub struct Location {
    pub id: u128,
    pub name: String,
    pub tenant_id: u128,
    pub created_at: String,
}

pub open spec fn location_ids(s: Seq<Location>) -> Seq<u128> {
    s.map_values(|t: Location| t.id)
}

/// The position of the location with identifier `id`, or -1.
pub open spec fn location_pos(s: Seq<Location>, id: u128) -> int {
    first_index(location_ids(s), id)
}

/// The mutable fields of a location, in display form, as the diff compares
/// them.
pub open spec fn location_fields(t: Location) -> Seq<(Seq<char>, Seq<char>, bool)> {
    seq![("name"@, t.name@, false)]
}

/// The locations of tenant `t`, in storage order.
pub open spec fn locations_of(s: Seq<Location>, t: u128) -> Seq<Location> {
    s.filter(|l: Location| l.tenant_id == t)
}

fn find_location(locations: &Vec<Location>, id: u128) -> (r: Option<usize>)
    ensures
        r is Some ==> r->Some_0 < locations@.len() && location_pos(locations@, id) == r->Some_0 as int
            && locations@[r->Some_0 as int].id == id,
        r is None ==> location_pos(locations@, id) == -1 && forall|j: int|
            0 <= j < locations@.len() ==> location_ids(locations@)[j] != id,
{
    let mut i: usize = 0;
    while i < locations.len()
        invariant
            i <= locations@.len(),
            forall|j: int| 0 <= j < i ==> location_ids(locations@)[j] != id,
        decreases locations@.len() - i,
    {
        if locations[i].id == id {
            proof {
                lemma_first_index(location_ids(locations@), id, i as int);
            }
            return Some(i);
        }
        i = i + 1;
    }
    proof {
        lemma_absent(location_ids(locations@), id);
    }
    None
}

impl Location {
    pub const COLLECTION_NAME: &'static str = "locations";

    /// A new location of tenant `tenant_id` with a fresh identifier, stamped
    /// now.
    pub fn new(name: String, tenant_id: u128) -> (r: Self)
        ensures
            r.name == name,
            r.tenant_id == tenant_id,
    {
        Location { id: fresh_id(), name, tenant_id, created_at: now_text() }
    }

    /// A field-for-field copy.
    pub fn duplicate(&self) -> (r: Self)
        ensures
            r == *self,
    {
        Location {
            id: self.id,
            name: self.name.clone(),
            tenant_id: self.tenant_id,
            created_at: self.created_at.clone(),
        }
    }

    /// The mutable fields that an update compares.
    pub fn fields(&self) -> (r: Vec<FieldValue>)
        ensures
            fields_view(r@) == location_fields(*self),
    {
        let mut r: Vec<FieldValue> = Vec::new();
        r.push(FieldValue { name: "name".to_string(), value: self.name.clone(), redact: false });
        assert(fields_view(r@) =~= location_fields(*self));
        r
    }

    /// The location with identifier `id`.
    pub fn get_by_id(id: u128, connection: &Database) -> (r: Result<Self, HttpResponse<Self>>)
        ensures
            location_pos(connection.locations@, id) >= 0 ==> r == Ok::<Self, HttpResponse<Self>>(
                connection.locations@[location_pos(connection.locations@, id)],
            ),
            location_pos(connection.locations@, id) < 0 ==> r is Err && r->Err_0.data is None && r->Err_0.status
                == STATUS_NOT_FOUND && r->Err_0.message@ == "Location not found"@,
    {
        match find_location(&connection.locations, id) {
            Some(i) => Ok(connection.locations[i].duplicate()),
            None => Err(failure(STATUS_NOT_FOUND, "Location not found")),
        }
    }

    /// Every location, in storage order.
    pub fn get_all(connection: &Database) -> (r: Result<Vec<Self>, HttpResponse<Vec<Self>>>)
        ensures
            r is Ok && r->Ok_0@ == connection.locations@,
    {
        let mut out: Vec<Self> = Vec::new();
        let mut i: usize = 0;
        while i < connection.locations.len()
            invariant
                i <= connection.locations@.len(),
                out@ == connection.locations@.subrange(0, i as int),
            decreases connection.locations@.len() - i,
        {
            out.push(connection.locations[i].duplicate());
            i = i + 1;
            assert(out@ =~= connection.locations@.subrange(0, i as int));
        }
        assert(out@ =~= connection.locations@);
        Ok(out)
    }

    /// The locations of one tenant, in storage order.
    pub fn get_all_from_tenant(tenant_id: u128, connection: &Database) -> (r: Result<
        Vec<Self>,
        HttpResponse<Vec<Self>>,
    >)
        ensures
            r is Ok && r->Ok_0@ == locations_of(connection.locations@, tenant_id),
    {
        let mut out: Vec<Self> = Vec::new();
        let mut i: usize = 0;
        while i < connection.locations.len()
            invariant
                i <= connection.locations@.len(),
                out@ == locations_of(connection.locations@.subrange(0, i as int), tenant_id),
            decreases connection.locations@.len() - i,
        {
            let ghost before = connection.locations@.subrange(0, i as int);
            let ghost after = connection.locations@.subrange(0, i + 1);
            assert(after.drop_last() =~= before);
            assert(after.last() == connection.locations@[i as int]);
            reveal(Seq::filter);
            if connection.locations[i].tenant_id == tenant_id {
                out.push(connection.locations[i].duplicate());
            }
            i = i + 1;
        }
        assert(connection.locations@.subrange(0, connection.locations@.len() as int)
            =~= connection.locations@);
        Ok(out)
    }

    /// Stores the location; refused as a storage failure where its identifier
    /// is already taken.
    pub fn insert(&self, connection: &mut Database) -> (r: Result<Self, HttpResponse<Self>>)
        ensures
            location_pos(old(connection).locations@, self.id) < 0 ==> r == Ok::<
                Self,
                HttpResponse<Self>,
            >(*self) && final(connection).locations@ == old(connection).locations@.push(*self),
            location_pos(old(connection).locations@, self.id) >= 0 ==> r is Err && r->Err_0.data is None && r->Err_0.status
                == STATUS_INTERNAL && r->Err_0.message@ == "Error inserting location: duplicate key"@
                && final(connection).locations == old(connection).locations,
            old(connection).wf() ==> final(connection).wf(),
            final(connection).tenants == old(connection).tenants,
            final(connection).users == old(connection).users,
            final(connection).logs == old(connection).logs,
    {
        match find_location(&connection.locations, self.id) {
            Some(_) => Err(failure(STATUS_INTERNAL, "Error inserting location: duplicate key")),
            None => {
                connection.locations.push(self.duplicate());
                proof {
                    assert(location_ids(connection.locations@) =~= location_ids(old(connection).locations@).push(self.id));
                    if old(connection).wf() {
                        lemma_push_unique(location_ids(old(connection).locations@), self.id);
                    }
                }
                Ok(self.duplicate())
            },
        }
    }

    /// Replaces the stored document that has the same identifier.
    pub fn update(&self, connection: &mut Database) -> (r: Result<Self, HttpResponse<Self>>)
        ensures
            ({
                let p = location_pos(old(connection).locations@, self.id);
                &&& p >= 0 ==> r == Ok::<Self, HttpResponse<Self>>(*self)
                    && final(connection).locations@ == old(connection).locations@.update(p, *self)
                &&& p < 0 ==> r is Err && r->Err_0.data is None && r->Err_0.status == STATUS_NOT_FOUND
                    && r->Err_0.message@ == "Location not found"@
                    && final(connection).locations == old(connection).locations
            }),
            old(connection).wf() ==> final(connection).wf(),
            final(connection).tenants == old(connection).tenants,
            final(connection).users == old(connection).users,
            final(connection).logs == old(connection).logs,
    {
        match find_location(&connection.locations, self.id) {
            Some(i) => {
                connection.locations.set(i, self.duplicate());
                assert(location_ids(connection.locations@) =~= location_ids(old(connection).locations@));
                Ok(self.duplicate())
            },
            None => Err(failure(STATUS_NOT_FOUND, "Location not found")),
        }
    }

    /// Removes the stored document that has the same identifier and returns
    /// it as it was; with unique identifiers, none is left with that one.
    pub fn delete(&self, connection: &mut Database) -> (r: Result<Self, HttpResponse<()>>)
        ensures
            old(connection).wf() ==> location_pos(final(connection).locations@, self.id) < 0,
            ({
                let p = location_pos(old(connection).locations@, self.id);
                &&& p >= 0 ==> r == Ok::<Self, HttpResponse<()>>(old(connection).locations@[p])
                    && final(connection).locations@ == old(connection).locations@.remove(p)
                &&& p < 0 ==> r is Err && r->Err_0.data is None && r->Err_0.status == STATUS_NOT_FOUND
                    && r->Err_0.message@ == "Location not found"@
                    && final(connection).locations == old(connection).locations
            }),
            old(connection).wf() ==> final(connection).wf(),
            final(connection).tenants == old(connection).tenants,
            final(connection).users == old(connection).users,
            final(connection).logs == old(connection).logs,
    {
        match find_location(&connection.locations, self.id) {
            Some(i) => {
                let ghost before = connection.locations@;
                let removed = connection.locations.remove(i);
                proof {
                    assert(location_ids(connection.locations@) =~= location_ids(before).remove(i as int));
                    if old(connection).wf() {
                        lemma_remove_unique(location_ids(before), i as int);
                    }
                }
                Ok(removed)
            },
            None => Err(failure(STATUS_NOT_FOUND, "Location not found")),
        }
    }
}

} // verus!
