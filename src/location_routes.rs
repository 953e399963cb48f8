use vstd::prelude::*;
use crate::audit_log::{AuditLog, AuditLogAction, AuditLogEntityType};
use crate::diff::{diff_fields, new_changes, old_changes};
use crate::ids::{fresh_id, parse_uuid, parsed_uuid};
use crate::location::{Location, location_fields, location_pos, locations_of};
use crate::response::{
    HttpResponse,
    failure,
    success,
    STATUS_BAD_REQUEST,
    STATUS_CREATED,
    STATUS_INTERNAL,
    STATUS_NOT_FOUND,
    STATUS_OK,
};
use crate::store::{Database, lemma_absent, lemma_appended_total};
use crate::tenant::{Tenant, tenant_pos};

verus! {

/// Most locations a tenant may hold.
pub const MAX_LOCATIONS_PER_TENANT: usize = 3;

/// Request to create a location.
pub struct CreateLocationData {
    pub name: String,
}

/// Request to rename a location; `None` leaves the name as it is.
pub struct UpdateLocationData {
    pub name: Option<String>,
}

/// Some location of `tenant` is already named `name`.
pub open spec fn location_name_taken(db: Database, tenant: u128, name: Seq<char>) -> bool {
    exists|i: int|
        0 <= i < locations_of(db.locations@, tenant).len() && (#[trigger] locations_of(
            db.locations@,
            tenant,
        )[i]).name@ == name
}

/// `after` is `before` with the created location stored and one `Create`
/// record logged; or, where nothing was created, `after` is `before`.
pub open spec fn location_created(before: Database, after: Database, r: HttpResponse<Location>) -> bool {
    &&& r.status == STATUS_CREATED ==> {
        &&& r.data is Some
        &&& after.locations@ == before.locations@.push(r.data->Some_0)
        &&& after.logs.logged(
            before.logs,
            AuditLogEntityType::Location,
            r.data->Some_0.id,
            AuditLogAction::Create,
            None,
            None,
        )
        &&& after.tenants == before.tenants
        &&& after.users == before.users
    }
    &&& r.status != STATUS_CREATED ==> r.data is None && after == before
}

/// A name that only locations of other tenants hold does not count as taken
/// under `tenant`.
pub proof fn lemma_name_scoped_to_tenant(db: Database, tenant: u128, name: Seq<char>)
    requires
        forall|i: int|
            0 <= i < db.locations@.len() && (#[trigger] db.locations@[i]).tenant_id == tenant
                ==> db.locations@[i].name@ != name,
    ensures
        !location_name_taken(db, tenant, name),
{
    let locs = locations_of(db.locations@, tenant);
    assert forall|i: int| 0 <= i < locs.len() implies (#[trigger] locs[i]).name@ != name by {
        let l = locs[i];
        let pred = |l: Location| l.tenant_id == tenant;
        assert(locs == db.locations@.filter(pred));
        db.locations@.lemma_filter_pred(pred, i);
        assert(db.locations@.filter(pred).contains(l));
        db.locations@.lemma_filter_contains_rev(pred, l);
        let j = choose|j: int| 0 <= j < db.locations@.len() && db.locations@[j] == l;
        assert(db.locations@[j].tenant_id == tenant);
    }
}

fn has_name(locations: &Vec<Location>, name: &String) -> (r: bool)
    ensures
        r == exists|i: int| 0 <= i < locations@.len() && (#[trigger] locations@[i]).name@ == name@,
{
    let mut i: usize = 0;
    while i < locations.len()
        invariant
            i <= locations@.len(),
            forall|j: int| 0 <= j < i ==> (#[trigger] locations@[j]).name@ != name@,
        decreases locations@.len() - i,
    {
        if locations[i].name == *name {
            return true;
        }
        i = i + 1;
    }
    false
}

/// Creates a location named `data.name` under the tenant whose identifier is
/// the text `tenant_id`, with a fresh identifier, and logs its creation.
pub fn create_location(db: &mut Database, data: CreateLocationData, tenant_id: &str) -> (r:
    HttpResponse<Location>)
    ensures
        parsed_uuid(tenant_id@) is None ==> r.status == STATUS_BAD_REQUEST && r.message@
            == "Invalid tenant_id"@,
        parsed_uuid(tenant_id@) is Some ==> ({
            let t = parsed_uuid(tenant_id@)->Some_0;
            let exists = tenant_pos(old(db).tenants@, t) >= 0;
            let full = locations_of(old(db).locations@, t).len() >= MAX_LOCATIONS_PER_TENANT;
            let taken = location_name_taken(*old(db), t, data.name@);
            &&& !exists ==> r.status == STATUS_BAD_REQUEST && r.message@
                == "Tenant does not exists"@
            &&& exists && full ==> r.status == STATUS_BAD_REQUEST && r.message@
                == "Tenant has reached the maximum number of locations (3)"@
            &&& exists && !full && taken ==> r.status == STATUS_BAD_REQUEST && r.message@
                == "Location already exists"@
            &&& exists && !full && !taken ==> r.status == STATUS_CREATED || r.status
                == STATUS_INTERNAL
            &&& exists && !full && !taken && old(db).locations@.len() == 0 ==> r.status
                == STATUS_CREATED
            &&& r.status == STATUS_CREATED ==> r.data is Some && r.data->Some_0.name@
                == data.name@ && r.data->Some_0.tenant_id == t && r.message@ == "Location created"@
        }),
        r.status == STATUS_INTERNAL ==> old(db).locations@.len() > 0,
        r.status == STATUS_CREATED || r.status == STATUS_BAD_REQUEST || r.status == STATUS_INTERNAL,
        location_created(*old(db), *final(db), r),
        old(db).wf() ==> final(db).wf(),
{
    let tenant_uuid = match parse_uuid(tenant_id) {
        Some(u) => u,
        None => return failure(STATUS_BAD_REQUEST, "Invalid tenant_id"),
    };
    let location = Location::new(data.name, tenant_uuid);
    proof {
        if old(db).locations@.len() == 0 {
            lemma_absent(crate::location::location_ids(old(db).locations@), location.id);
        }
    }
    add_location(db, location)
}

/// Stores `location` under its tenant, and logs its creation, unless the
/// tenant does not exist, already holds the most locations allowed, already
/// has a location of that name, or the identifier is taken.
pub fn add_location(db: &mut Database, location: Location) -> (r: HttpResponse<Location>)
    ensures
        ({
            let t = location.tenant_id;
            let exists = tenant_pos(old(db).tenants@, t) >= 0;
            let full = locations_of(old(db).locations@, t).len() >= MAX_LOCATIONS_PER_TENANT;
            let taken = location_name_taken(*old(db), t, location.name@);
            let clash = location_pos(old(db).locations@, location.id) >= 0;
            &&& !exists ==> r.status == STATUS_BAD_REQUEST && r.message@
                == "Tenant does not exists"@
            &&& exists && full ==> r.status == STATUS_BAD_REQUEST && r.message@
                == "Tenant has reached the maximum number of locations (3)"@
            &&& exists && !full && taken ==> r.status == STATUS_BAD_REQUEST && r.message@
                == "Location already exists"@
            &&& exists && !full && !taken && clash ==> r.status == STATUS_INTERNAL && r.message@
                == "Error inserting location: duplicate key"@
            &&& exists && !full && !taken && !clash ==> r.status == STATUS_CREATED && r.data
                == Some(location) && r.message@ == "Location created"@
        }),
        location_created(*old(db), *final(db), r),
        old(db).wf() ==> final(db).wf(),
{
    if Tenant::get_by_id(location.tenant_id, db).is_err() {
        return failure(STATUS_BAD_REQUEST, "Tenant does not exists");
    }
    let existing = match Location::get_all_from_tenant(location.tenant_id, db) {
        Ok(locations) => locations,
        Err(err) => return failure(err.status, err.message.as_str()),
    };
    if existing.len() >= MAX_LOCATIONS_PER_TENANT {
        return failure(
            STATUS_BAD_REQUEST,
            "Tenant has reached the maximum number of locations (3)",
        );
    }
    if has_name(&existing, &location.name) {
        return failure(STATUS_BAD_REQUEST, "Location already exists");
    }
    match location.insert(db) {
        Ok(created) => {
            let log = AuditLog::new(
                created.id,
                AuditLogEntityType::Location,
                AuditLogAction::Create,
                "Location created.".to_string(),
                fresh_id(),
                None,
                None,
            );
            let _ = log.insert(db);
            success(STATUS_CREATED, "Location created", created)
        },
        Err(err) => err,
    }
}

/// The location whose identifier is the text `location_id`.
pub fn get_location_by_id(db: &Database, tenant_id: &str, location_id: &str) -> (r: HttpResponse<
    Location,
>)
    ensures
        parsed_uuid(tenant_id@) is None || parsed_uuid(location_id@) is None ==> r.status
            == STATUS_BAD_REQUEST && r.data is None,
        parsed_uuid(tenant_id@) is Some && parsed_uuid(location_id@) is Some ==> ({
            let p = location_pos(db.locations@, parsed_uuid(location_id@)->Some_0);
            &&& p >= 0 ==> r.status == STATUS_OK && r.data == Some(db.locations@[p]) && r.message@
                == "Found location by id"@
            &&& p < 0 ==> r.status == STATUS_NOT_FOUND && r.data is None && r.message@
                == "Location not found"@
        }),
{
    if parse_uuid(tenant_id).is_none() {
        return failure(STATUS_BAD_REQUEST, "Invalid tenant UUID");
    }
    let location_uuid = match parse_uuid(location_id) {
        Some(u) => u,
        None => return failure(STATUS_BAD_REQUEST, "Invalid location UUID"),
    };
    match Location::get_by_id(location_uuid, db) {
        Ok(l) => success(STATUS_OK, "Found location by id", l),
        Err(err) => err,
    }
}

/// Every location.
pub fn get_all_locations(db: &Database) -> (r: HttpResponse<Vec<Location>>)
    ensures
        r.status == STATUS_OK && r.data is Some && r.data->Some_0@ == db.locations@,
{
    match Location::get_all(db) {
        Ok(all) => success(STATUS_OK, "Successfully retrieved all locations", all),
        Err(err) => err,
    }
}

/// The locations of the tenant whose identifier is the text `tenant_id`.
pub fn get_all_locations_from_tenant(db: &Database, tenant_id: &str) -> (r: HttpResponse<
    Vec<Location>,
>)
    ensures
        parsed_uuid(tenant_id@) is None ==> r.status == STATUS_BAD_REQUEST && r.data is None,
        parsed_uuid(tenant_id@) is Some ==> r.status == STATUS_OK && r.data is Some
            && r.data->Some_0@ == locations_of(db.locations@, parsed_uuid(tenant_id@)->Some_0),
{
    let tenant_uuid = match parse_uuid(tenant_id) {
        Some(u) => u,
        None => return failure(STATUS_BAD_REQUEST, "Invalid tenant ID"),
    };
    match Location::get_all_from_tenant(tenant_uuid, db) {
        Ok(all) => success(STATUS_OK, "Successfully retrieved all locations from tenant", all),
        Err(err) => err,
    }
}

/// `l` with the requested name, if any.
pub open spec fn patched_location(l: Location, name: Option<String>) -> Location {
    Location {
        id: l.id,
        name: match name {
            Some(n) => n,
            None => l.name,
        },
        tenant_id: l.tenant_id,
        created_at: l.created_at,
    }
}

/// Renames the location whose identifier is the text `location_id`. Where
/// the name does not change, nothing is written and no record is logged;
/// otherwise the location is replaced and one `Update` record is logged.
pub fn update_location(
    db: &mut Database,
    tenant_id: &str,
    location_id: &str,
    data: UpdateLocationData,
) -> (r: HttpResponse<Location>)
    ensures
        parsed_uuid(tenant_id@) is None ==> r.status == STATUS_BAD_REQUEST && r.data is None
            && r.message@ == "Invalid tenant UUID"@ && *final(db) == *old(db),
        parsed_uuid(tenant_id@) is Some && parsed_uuid(location_id@) is None ==> r.status
            == STATUS_BAD_REQUEST && r.data is None && r.message@ == "Invalid location UUID"@
            && *final(db) == *old(db),
        parsed_uuid(tenant_id@) is Some && parsed_uuid(location_id@) is Some ==> ({
            let p = location_pos(old(db).locations@, parsed_uuid(location_id@)->Some_0);
            let l0 = old(db).locations@[p];
            let l1 = patched_location(l0, data.name);
            let oc = old_changes(location_fields(l0), location_fields(l1));
            let nc = new_changes(location_fields(l0), location_fields(l1));
            &&& p < 0 ==> r.status == STATUS_NOT_FOUND && r.data is None && r.message@
                == "Location not found"@ && *final(db) == *old(db)
            &&& p >= 0 ==> r.status == STATUS_OK && r.data == Some(l1)
            &&& p >= 0 && nc.len() == 0 ==> r.message@ == "No updates applied."@ && *final(db)
                == *old(db)
            &&& p >= 0 && nc.len() > 0 ==> {
                &&& r.message@ == "Location updated"@
                &&& final(db).locations@ == old(db).locations@.update(p, l1)
                &&& final(db).logs.logged(
                    old(db).logs,
                    AuditLogEntityType::Location,
                    l1.id,
                    AuditLogAction::Update,
                    Some(oc),
                    Some(nc),
                )
                &&& final(db).logs.total() == old(db).logs.total() + 1
                &&& final(db).tenants == old(db).tenants
                &&& final(db).users == old(db).users
            }
        }),
        old(db).wf() ==> final(db).wf(),
{
    if parse_uuid(tenant_id).is_none() {
        return failure(STATUS_BAD_REQUEST, "Invalid tenant UUID");
    }
    let location_uuid = match parse_uuid(location_id) {
        Some(u) => u,
        None => return failure(STATUS_BAD_REQUEST, "Invalid location UUID"),
    };
    let old_location = match Location::get_by_id(location_uuid, db) {
        Ok(l) => l,
        Err(err) => return err,
    };
    let mut new_location = old_location.duplicate();
    match data.name {
        Some(n) => {
            new_location.name = n;
        },
        None => {},
    }
    let old_fields = old_location.fields();
    let new_fields = new_location.fields();
    let changes = diff_fields(&old_fields, &new_fields);
    if changes.is_empty() {
        return success(STATUS_OK, "No updates applied.", new_location);
    }
    match new_location.update(db) {
        Ok(updated) => {
            let log = AuditLog::new(
                updated.id,
                AuditLogEntityType::Location,
                AuditLogAction::Update,
                "Location updated.".to_string(),
                fresh_id(),
                Some(changes.old_values),
                Some(changes.new_values),
            );
            let ghost logs_before = db.logs;
            let ghost record = log;
            let _ = log.insert(db);
            proof {
                lemma_appended_total(db.logs, logs_before, AuditLogEntityType::Location, record);
            }
            success(STATUS_OK, "Location updated", updated)
        },
        Err(err) => err,
    }
}

/// Deletes the location whose identifier is the text `location_id` under the
/// tenant whose identifier is the text `tenant_id`, and logs a `Delete`
/// record; where either does not exist, nothing is written.
pub fn delete_location(db: &mut Database, tenant_id: &str, location_id: &str) -> (r: HttpResponse<
    (),
>)
    ensures
        r.data is None,
        parsed_uuid(tenant_id@) is None ==> r.status == STATUS_BAD_REQUEST && r.message@
            == "Invalid tenant UUID"@ && *final(db) == *old(db),
        parsed_uuid(tenant_id@) is Some && parsed_uuid(location_id@) is None ==> r.status
            == STATUS_BAD_REQUEST && r.message@ == "Invalid location UUID"@ && *final(db) == *old(db),
        parsed_uuid(tenant_id@) is Some && parsed_uuid(location_id@) is Some ==> ({
            let t = parsed_uuid(tenant_id@)->Some_0;
            let lid = parsed_uuid(location_id@)->Some_0;
            let p = location_pos(old(db).locations@, lid);
            &&& tenant_pos(old(db).tenants@, t) < 0 ==> r.status == STATUS_NOT_FOUND && r.message@
                == "Tenant not found"@ && *final(db) == *old(db)
            &&& tenant_pos(old(db).tenants@, t) >= 0 && p < 0 ==> r.status == STATUS_NOT_FOUND
                && r.message@ == "Location not found"@ && *final(db) == *old(db)
            &&& tenant_pos(old(db).tenants@, t) >= 0 && p >= 0 ==> {
                &&& r.status == STATUS_OK
                &&& r.message@ == "Location deleted"@
                &&& old(db).wf() ==> location_pos(final(db).locations@, lid) < 0
                &&& final(db).locations@ == old(db).locations@.remove(p)
                &&& final(db).logs.logged(
                    old(db).logs,
                    AuditLogEntityType::Location,
                    lid,
                    AuditLogAction::Delete,
                    None,
                    None,
                )
                &&& final(db).tenants == old(db).tenants
                &&& final(db).users == old(db).users
            }
        }),
        old(db).wf() ==> final(db).wf(),
{
    let tenant_uuid = match parse_uuid(tenant_id) {
        Some(u) => u,
        None => return failure(STATUS_BAD_REQUEST, "Invalid tenant UUID"),
    };
    let location_uuid = match parse_uuid(location_id) {
        Some(u) => u,
        None => return failure(STATUS_BAD_REQUEST, "Invalid location UUID"),
    };
    if let Err(err) = Tenant::get_by_id(tenant_uuid, db) {
        return failure(err.status, err.message.as_str());
    }
    let location = match Location::get_by_id(location_uuid, db) {
        Ok(l) => l,
        Err(err) => return failure(err.status, err.message.as_str()),
    };
    match location.delete(db) {
        Ok(deleted) => {
            let log = AuditLog::new(
                deleted.id,
                AuditLogEntityType::Location,
                AuditLogAction::Delete,
                "Location deleted.".to_string(),
                fresh_id(),
                None,
                None,
            );
            let _ = log.insert(db);
            HttpResponse { status: STATUS_OK, message: "Location deleted".to_string(), data: None }
        },
        Err(err) => err,
    }
}

} // verus!
