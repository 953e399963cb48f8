use vstd::prelude::*;
use crate::audit_log::{AuditLog, AuditLogAction, AuditLogEntityType};
use crate::diff::{diff_fields, new_changes, old_changes};
use crate::ids::{fresh_id, parse_uuid, parsed_uuid};
use crate::response::{
    HttpResponse,
    failure,
    success,
    STATUS_BAD_REQUEST,
    STATUS_CREATED,
    STATUS_INTERNAL,
    STATUS_NOT_FOUND,
    STATUS_OK,
};
use crate::store::{Database, first_index, lemma_absent, lemma_appended_total};
use crate::tenant::{Tenant, tenant_fields, tenant_names, tenant_pos};

verus! {

/// Request to create a tenant.
pub struct CreateTenantData {
    pub name: String,
}

/// Request to change some fields of a tenant; `None` leaves a field as it is.
pub struct UpdateTenantData {
    pub name: Option<String>,
    pub owner_id: Option<String>,
}

/// Some tenant is already named `name`.
pub open spec fn tenant_name_taken(db: Database, name: Seq<char>) -> bool {
    first_index(tenant_names(db.tenants@), name) >= 0
}

/// `t` with the requested fields replaced.
pub open spec fn patched_tenant(t: Tenant, name: Option<String>, owner_id: Option<u128>) -> Tenant {
    Tenant {
        id: t.id,
        name: match name {
            Some(n) => n,
            None => t.name,
        },
        owner_id: match owner_id {
            Some(o) => o,
            None => t.owner_id,
        },
        created_at: t.created_at,
    }
}

/// Creates a tenant named `data.name` with a fresh identifier and logs its
/// creation.
pub fn create_tenant(db: &mut Database, data: CreateTenantData) -> (r: HttpResponse<Tenant>)
    ensures
        tenant_name_taken(*old(db), data.name@) <==> r.status == STATUS_BAD_REQUEST,
        r.status == STATUS_BAD_REQUEST ==> r.message@ == "Tenant already exists"@,
        !tenant_name_taken(*old(db), data.name@) ==> r.status == STATUS_CREATED || r.status
            == STATUS_INTERNAL,
        old(db).tenants@.len() == 0 ==> r.status == STATUS_CREATED,
        r.status == STATUS_INTERNAL ==> old(db).tenants@.len() > 0,
        r.status == STATUS_CREATED ==> r.data is Some && r.data->Some_0.name@ == data.name@
            && r.message@ == "Tenant created"@,
        tenant_created(*old(db), *final(db), r),
        old(db).wf() ==> final(db).wf(),
{
    let tenant = Tenant::new(data.name);
    proof {
        if old(db).tenants@.len() == 0 {
            lemma_absent(tenant_names(old(db).tenants@), tenant.name@);
            lemma_absent(crate::tenant::tenant_ids(old(db).tenants@), tenant.id);
        }
    }
    add_tenant(db, tenant)
}

/// `after` is `before` with the created tenant stored and one `Create` record
/// logged; or, where nothing was created, `after` is `before`.
pub open spec fn tenant_created(before: Database, after: Database, r: HttpResponse<Tenant>) -> bool {
    &&& r.status == STATUS_CREATED ==> {
        &&& r.data is Some
        &&& after.tenants@ == before.tenants@.push(r.data->Some_0)
        &&& after.logs.logged(
            before.logs,
            AuditLogEntityType::Tenant,
            r.data->Some_0.id,
            AuditLogAction::Create,
            None,
            None,
        )
        &&& after.locations == before.locations
        &&& after.users == before.users
    }
    &&& r.status != STATUS_CREATED ==> r.data is None && after == before
}

/// Stores `tenant` unless its name or identifier is taken, and logs its
/// creation.
pub fn add_tenant(db: &mut Database, tenant: Tenant) -> (r: HttpResponse<Tenant>)
    ensures
        tenant_name_taken(*old(db), tenant.name@) ==> r.status == STATUS_BAD_REQUEST && r.message@
            == "Tenant already exists"@,
        !tenant_name_taken(*old(db), tenant.name@) && tenant_pos(old(db).tenants@, tenant.id) >= 0
            ==> r.status == STATUS_INTERNAL && r.message@ == "Error inserting tenant: duplicate key"@,
        !tenant_name_taken(*old(db), tenant.name@) && tenant_pos(old(db).tenants@, tenant.id) < 0
            ==> r.status == STATUS_CREATED && r.data == Some(tenant) && r.message@
            == "Tenant created"@,
        tenant_created(*old(db), *final(db), r),
        old(db).wf() ==> final(db).wf(),
{
    if Tenant::get_by_name(tenant.name.clone(), db).is_ok() {
        return failure(STATUS_BAD_REQUEST, "Tenant already exists");
    }
    match tenant.insert(db) {
        Ok(created) => {
            let log = AuditLog::new(
                created.id,
                AuditLogEntityType::Tenant,
                AuditLogAction::Create,
                "Tenant created.".to_string(),
                fresh_id(),
                None,
                None,
            );
            let _ = log.insert(db);
            success(STATUS_CREATED, "Tenant created", created)
        },
        Err(err) => err,
    }
}

/// The tenant whose identifier is the text `id`.
pub fn get_tenant_by_id(db: &Database, id: &str) -> (r: HttpResponse<Tenant>)
    ensures
        parsed_uuid(id@) is None ==> r.status == STATUS_BAD_REQUEST && r.data is None
            && r.message@ == "Invalid UUID"@,
        parsed_uuid(id@) is Some ==> ({
            let p = tenant_pos(db.tenants@, parsed_uuid(id@)->Some_0);
            &&& p >= 0 ==> r.status == STATUS_OK && r.data == Some(db.tenants@[p]) && r.message@
                == "Found tenant by id"@
            &&& p < 0 ==> r.status == STATUS_NOT_FOUND && r.data is None && r.message@
                == "Tenant not found"@
        }),
{
    let uuid = match parse_uuid(id) {
        Some(u) => u,
        None => return failure(STATUS_BAD_REQUEST, "Invalid UUID"),
    };
    match Tenant::get_by_id(uuid, db) {
        Ok(t) => success(STATUS_OK, "Found tenant by id", t),
        Err(err) => err,
    }
}

/// Every tenant.
pub fn get_all_tenants(db: &Database) -> (r: HttpResponse<Vec<Tenant>>)
    ensures
        r.status == STATUS_OK && r.data is Some && r.data->Some_0@ == db.tenants@,
{
    match Tenant::get_all(db) {
        Ok(all) => success(STATUS_OK, "Successfully retrieved all tenants", all),
        Err(err) => err,
    }
}

/// Applies the requested changes to the tenant whose identifier is the text
/// `id`. Where no displayed field changes, nothing is written and no record is
/// logged; otherwise the tenant is replaced and one `Update` record holding
/// the changed fields is logged.
pub fn update_tenant(db: &mut Database, id: &str, data: UpdateTenantData) -> (r: HttpResponse<
    Tenant,
>)
    ensures
        parsed_uuid(id@) is None ==> r.status == STATUS_BAD_REQUEST && r.data is None && r.message@
            == "Invalid UUID"@ && *final(db) == *old(db),
        parsed_uuid(id@) is Some && tenant_pos(old(db).tenants@, parsed_uuid(id@)->Some_0) < 0
            ==> r.status == STATUS_NOT_FOUND && r.data is None && r.message@ == "Tenant not found"@
            && *final(db) == *old(db),
        parsed_uuid(id@) is Some && tenant_pos(old(db).tenants@, parsed_uuid(id@)->Some_0) >= 0
            ==> ({
            let p = tenant_pos(old(db).tenants@, parsed_uuid(id@)->Some_0);
            let t0 = old(db).tenants@[p];
            let owner_ok = data.owner_id is None || parsed_uuid(data.owner_id->Some_0@) is Some;
            let owner = match data.owner_id {
                Some(o) => parsed_uuid(o@),
                None => None,
            };
            let t1 = patched_tenant(t0, data.name, owner);
            let oc = old_changes(tenant_fields(t0), tenant_fields(t1));
            let nc = new_changes(tenant_fields(t0), tenant_fields(t1));
            &&& !owner_ok ==> r.status == STATUS_BAD_REQUEST && r.data is None && r.message@
                == "Invalid owner ID"@ && *final(db) == *old(db)
            &&& owner_ok ==> r.status == STATUS_OK && r.data == Some(t1)
            &&& owner_ok && nc.len() == 0 ==> r.message@ == "No updates applied."@ && *final(db)
                == *old(db)
            &&& owner_ok && nc.len() > 0 ==> {
                &&& r.message@ == "Tenant updated"@
                &&& final(db).tenants@ == old(db).tenants@.update(p, t1)
                &&& final(db).logs.logged(
                    old(db).logs,
                    AuditLogEntityType::Tenant,
                    t1.id,
                    AuditLogAction::Update,
                    Some(oc),
                    Some(nc),
                )
                &&& final(db).logs.total() == old(db).logs.total() + 1
                &&& final(db).locations == old(db).locations
                &&& final(db).users == old(db).users
            }
        }),
        old(db).wf() ==> final(db).wf(),
{
    let uuid = match parse_uuid(id) {
        Some(u) => u,
        None => return failure(STATUS_BAD_REQUEST, "Invalid UUID"),
    };
    let old_tenant = match Tenant::get_by_id(uuid, db) {
        Ok(t) => t,
        Err(err) => return err,
    };
    let mut new_tenant = old_tenant.duplicate();
    match data.name {
        Some(n) => {
            new_tenant.name = n;
        },
        None => {},
    }
    match data.owner_id {
        Some(o) => {
            match parse_uuid(&o) {
                Some(u) => {
                    new_tenant.owner_id = u;
                },
                None => return failure(STATUS_BAD_REQUEST, "Invalid owner ID"),
            }
        },
        None => {},
    }
    let old_fields = old_tenant.fields();
    let new_fields = new_tenant.fields();
    let changes = diff_fields(&old_fields, &new_fields);
    if changes.is_empty() {
        return success(STATUS_OK, "No updates applied.", new_tenant);
    }
    match new_tenant.update(db) {
        Ok(updated) => {
            let log = AuditLog::new(
                updated.id,
                AuditLogEntityType::Tenant,
                AuditLogAction::Update,
                "Tenant updated.".to_string(),
                fresh_id(),
                Some(changes.old_values),
                Some(changes.new_values),
            );
            let ghost logs_before = db.logs;
            let ghost record = log;
            let _ = log.insert(db);
            proof {
                lemma_appended_total(db.logs, logs_before, AuditLogEntityType::Tenant, record);
            }
            success(STATUS_OK, "Tenant updated", updated)
        },
        Err(err) => err,
    }
}

/// Deletes the tenant whose identifier is the text `id` and logs a `Delete`
/// record; where there is no such tenant, nothing is written.
pub fn delete_tenant(db: &mut Database, id: &str) -> (r: HttpResponse<()>)
    ensures
        r.data is None,
        parsed_uuid(id@) is None ==> r.status == STATUS_BAD_REQUEST && r.message@ == "Invalid UUID"@
            && *final(db) == *old(db),
        parsed_uuid(id@) is Some ==> ({
            let uid = parsed_uuid(id@)->Some_0;
            let p = tenant_pos(old(db).tenants@, uid);
            &&& p < 0 ==> r.status == STATUS_NOT_FOUND && r.message@ == "Tenant not found"@
                && *final(db) == *old(db)
            &&& p >= 0 ==> {
                &&& r.status == STATUS_OK
                &&& r.message@ == "Tenant deleted"@
                &&& old(db).wf() ==> tenant_pos(final(db).tenants@, uid) < 0
                &&& final(db).tenants@ == old(db).tenants@.remove(p)
                &&& final(db).logs.logged(
                    old(db).logs,
                    AuditLogEntityType::Tenant,
                    uid,
                    AuditLogAction::Delete,
                    None,
                    None,
                )
                &&& final(db).locations == old(db).locations
                &&& final(db).users == old(db).users
            }
        }),
        old(db).wf() ==> final(db).wf(),
{
    let uuid = match parse_uuid(id) {
        Some(u) => u,
        None => return failure(STATUS_BAD_REQUEST, "Invalid UUID"),
    };
    let tenant = match Tenant::get_by_id(uuid, db) {
        Ok(t) => t,
        Err(err) => return failure(err.status, err.message.as_str()),
    };
    match tenant.delete(db) {
        Ok(deleted) => {
            let log = AuditLog::new(
                deleted.id,
                AuditLogEntityType::Tenant,
                AuditLogAction::Delete,
                "Tenant deleted.".to_string(),
                fresh_id(),
                None,
                None,
            );
            let _ = log.insert(db);
            HttpResponse { status: STATUS_OK, message: "Tenant deleted".to_string(), data: None }
        },
        Err(err) => err,
    }
}

} // verus!
