use mongodb::bson::Uuid;
use shelfwatcher::audit_log::{AuditLog, AuditLogAction, AuditLogEntityType};
use shelfwatcher::audit_routes::get_audit_logs_by_type;
use shelfwatcher::location::Location;
use shelfwatcher::location_routes::{
    add_location, create_location, delete_location, get_all_locations, get_all_locations_from_tenant,
    get_location_by_id, update_location, CreateLocationData, UpdateLocationData,
};
use shelfwatcher::store::Database;
use shelfwatcher::tenant::Tenant;
use shelfwatcher::tenant_routes::{
    add_tenant, create_tenant, delete_tenant, get_all_tenants, get_tenant_by_id, update_tenant,
    CreateTenantData, UpdateTenantData,
};
use shelfwatcher::user::User;
use shelfwatcher::user_routes::{get_all_members, update_user, UpdateUserData};

fn text(id: u128) -> String {
    Uuid::from_bytes(id.to_be_bytes()).to_string()
}

fn pairs(v: &Option<Vec<(String, String)>>) -> Vec<(String, String)> {
    v.clone().expect("change map present")
}

fn p(a: &str, b: &str) -> (String, String) {
    (a.to_string(), b.to_string())
}

fn logs(db: &Database, t: AuditLogEntityType) -> Vec<AuditLog> {
    AuditLog::get_all_from_type::<()>(t, db).ok().unwrap()
}

fn new_tenant(db: &mut Database, name: &str) -> Tenant {
    let r = create_tenant(db, CreateTenantData { name: name.to_string() });
    assert_eq!(r.status, 201);
    r.data.unwrap()
}

fn new_location(db: &mut Database, tenant: u128, name: &str) -> HttpLike {
    let r = create_location(db, CreateLocationData { name: name.to_string() }, &text(tenant));
    HttpLike { status: r.status, data: r.data }
}

struct HttpLike {
    status: u16,
    data: Option<Location>,
}

#[test]
fn tenant_lifecycle_is_logged() {
    let mut db = Database::new();
    let tenant = new_tenant(&mut db, "Acme");
    assert_eq!(tenant.name, "Acme");
    let created = logs(&db, AuditLogEntityType::Tenant);
    assert_eq!(created.len(), 1);
    assert!(matches!(created[0].action, AuditLogAction::Create));
    assert_eq!(created[0].entity_id, tenant.id);
    assert!(created[0].old_values.is_none() && created[0].new_values.is_none());

    let id = text(tenant.id);
    let r = update_tenant(&mut db, &id, UpdateTenantData { name: Some("Acme Corp".to_string()), owner_id: None });
    assert_eq!(r.status, 200);
    assert_eq!(r.data.unwrap().name, "Acme Corp");
    let updated = logs(&db, AuditLogEntityType::Tenant);
    assert_eq!(updated.len(), 2);
    assert!(matches!(updated[1].action, AuditLogAction::Update));
    assert_eq!(pairs(&updated[1].old_values), vec![p("name", "Acme")]);
    assert_eq!(pairs(&updated[1].new_values), vec![p("name", "Acme Corp")]);

    let r = delete_tenant(&mut db, &id);
    assert_eq!(r.status, 200);
    let deleted = logs(&db, AuditLogEntityType::Tenant);
    assert_eq!(deleted.len(), 3);
    assert!(matches!(deleted[2].action, AuditLogAction::Delete));
    assert_eq!(deleted[2].entity_id, tenant.id);
    assert_eq!(get_tenant_by_id(&db, &id).status, 404);
}

#[test]
fn update_without_change_writes_no_log() {
    let mut db = Database::new();
    let tenant = new_tenant(&mut db, "Acme");
    let id = text(tenant.id);
    let r = update_tenant(&mut db, &id, UpdateTenantData { name: Some("Acme".to_string()), owner_id: None });
    assert_eq!(r.status, 200);
    assert_eq!(r.message, "No updates applied.");
    let r = update_tenant(&mut db, &id, UpdateTenantData { name: None, owner_id: None });
    assert_eq!(r.status, 200);
    assert_eq!(logs(&db, AuditLogEntityType::Tenant).len(), 1);
    let r = update_tenant(&mut db, &id, UpdateTenantData { name: Some("Other".to_string()), owner_id: None });
    assert_eq!(r.status, 200);
    assert_eq!(logs(&db, AuditLogEntityType::Tenant).len(), 2);
}

#[test]
fn owner_change_is_logged_as_uuid_text() {
    let mut db = Database::new();
    let tenant = new_tenant(&mut db, "Acme");
    let new_owner: u128 = 0x0123_4567_89ab_cdef_0123_4567_89ab_cdef;
    let owner_text = "01234567-89ab-cdef-0123-456789abcdef";
    let r = update_tenant(
        &mut db,
        &text(tenant.id),
        UpdateTenantData { name: None, owner_id: Some(owner_text.to_string()) },
    );
    assert_eq!(r.status, 200);
    assert_eq!(r.data.unwrap().owner_id, new_owner);
    let all = logs(&db, AuditLogEntityType::Tenant);
    assert_eq!(pairs(&all[1].old_values), vec![p("ownerId", &text(tenant.owner_id))]);
    assert_eq!(pairs(&all[1].new_values), vec![p("ownerId", owner_text)]);
}

#[test]
fn malformed_identifiers_are_rejected() {
    let mut db = Database::new();
    new_tenant(&mut db, "Acme");
    assert_eq!(get_tenant_by_id(&db, "not-a-uuid").status, 400);
    assert_eq!(delete_tenant(&mut db, "xyz").status, 400);
    let r = update_tenant(&mut db, "", UpdateTenantData { name: Some("B".to_string()), owner_id: None });
    assert_eq!(r.status, 400);
    let tenant = get_all_tenants(&db).data.unwrap().remove(0);
    let r = update_tenant(
        &mut db,
        &text(tenant.id),
        UpdateTenantData { name: Some("B".to_string()), owner_id: Some("bad".to_string()) },
    );
    assert_eq!(r.status, 400);
    assert_eq!(get_all_tenants(&db).data.unwrap()[0].name, "Acme");
    assert_eq!(logs(&db, AuditLogEntityType::Tenant).len(), 1);
}

#[test]
fn duplicate_tenant_name_is_rejected() {
    let mut db = Database::new();
    new_tenant(&mut db, "Acme");
    let r = create_tenant(&mut db, CreateTenantData { name: "Acme".to_string() });
    assert_eq!(r.status, 400);
    assert!(r.data.is_none());
    assert_eq!(get_all_tenants(&db).data.unwrap().len(), 1);
    assert_eq!(logs(&db, AuditLogEntityType::Tenant).len(), 1);
}

#[test]
fn tenant_identifier_clash_is_a_storage_error() {
    let mut db = Database::new();
    let first = new_tenant(&mut db, "Acme");
    let clash = Tenant { id: first.id, name: "Other".to_string(), owner_id: 1, created_at: String::new() };
    let r = add_tenant(&mut db, clash);
    assert_eq!(r.status, 500);
    assert_eq!(get_all_tenants(&db).data.unwrap().len(), 1);
}

#[test]
fn deleting_missing_entities_is_not_found() {
    let mut db = Database::new();
    let tenant = new_tenant(&mut db, "Acme");
    let before = logs(&db, AuditLogEntityType::Tenant).len();
    assert_eq!(delete_tenant(&mut db, &text(tenant.id.wrapping_add(1))).status, 404);
    assert_eq!(delete_location(&mut db, &text(tenant.id), &text(42)).status, 404);
    assert_eq!(logs(&db, AuditLogEntityType::Tenant).len(), before);
    assert_eq!(logs(&db, AuditLogEntityType::Location).len(), 0);
    assert_eq!(get_all_tenants(&db).data.unwrap().len(), 1);
}

#[test]
fn fourth_location_exceeds_quota() {
    let mut db = Database::new();
    let tenant = new_tenant(&mut db, "Acme");
    for name in ["A", "B", "C"] {
        assert_eq!(new_location(&mut db, tenant.id, name).status, 201);
    }
    let r = new_location(&mut db, tenant.id, "D");
    assert_eq!(r.status, 400);
    assert!(r.data.is_none());
    assert_eq!(get_all_locations(&db).data.unwrap().len(), 3);
    assert_eq!(logs(&db, AuditLogEntityType::Location).len(), 3);
}

#[test]
fn location_names_are_unique_per_tenant() {
    let mut db = Database::new();
    let acme = new_tenant(&mut db, "Acme");
    let beta = new_tenant(&mut db, "Beta");
    assert_eq!(new_location(&mut db, acme.id, "Depot").status, 201);
    assert_eq!(new_location(&mut db, acme.id, "Depot").status, 400);
    let other = new_location(&mut db, beta.id, "Depot");
    assert_eq!(other.status, 201);
    let loc = other.data.unwrap();
    assert_eq!(loc.tenant_id, beta.id);
    assert_eq!(loc.name, "Depot");
    assert_eq!(logs(&db, AuditLogEntityType::Location).len(), 2);
    let of_acme = get_all_locations_from_tenant(&db, &text(acme.id)).data.unwrap();
    assert_eq!(of_acme.len(), 1);
    assert_eq!(of_acme[0].tenant_id, acme.id);
}

#[test]
fn location_needs_existing_tenant() {
    let mut db = Database::new();
    assert_eq!(new_location(&mut db, 99, "Depot").status, 400);
    let r = create_location(&mut db, CreateLocationData { name: "Depot".to_string() }, "bad id");
    assert_eq!(r.status, 400);
    assert_eq!(get_all_locations(&db).data.unwrap().len(), 0);
}

#[test]
fn location_identifier_clash_is_a_storage_error() {
    let mut db = Database::new();
    let tenant = new_tenant(&mut db, "Acme");
    let first = new_location(&mut db, tenant.id, "A").data.unwrap();
    let clash = Location { id: first.id, name: "B".to_string(), tenant_id: tenant.id, created_at: String::new() };
    assert_eq!(add_location(&mut db, clash).status, 500);
    assert_eq!(get_all_locations(&db).data.unwrap().len(), 1);
}

#[test]
fn location_update_and_delete_are_logged() {
    let mut db = Database::new();
    let tenant = new_tenant(&mut db, "Acme");
    let loc = new_location(&mut db, tenant.id, "Depot").data.unwrap();
    let (t, l) = (text(tenant.id), text(loc.id));
    assert_eq!(get_location_by_id(&db, &t, &l).data.unwrap().name, "Depot");
    let r = update_location(&mut db, &t, &l, UpdateLocationData { name: Some("Depot".to_string()) });
    assert_eq!(r.status, 200);
    assert_eq!(logs(&db, AuditLogEntityType::Location).len(), 1);
    let r = update_location(&mut db, &t, &l, UpdateLocationData { name: Some("Store".to_string()) });
    assert_eq!(r.status, 200);
    let all = logs(&db, AuditLogEntityType::Location);
    assert_eq!(all.len(), 2);
    assert_eq!(pairs(&all[1].old_values), vec![p("name", "Depot")]);
    assert_eq!(pairs(&all[1].new_values), vec![p("name", "Store")]);
    assert_eq!(delete_location(&mut db, &t, &l).status, 200);
    let all = logs(&db, AuditLogEntityType::Location);
    assert_eq!(all.len(), 3);
    assert!(matches!(all[2].action, AuditLogAction::Delete));
    assert_eq!(get_location_by_id(&db, &t, &l).status, 404);
}

fn seed_user(db: &mut Database, id: u128, tenants: Vec<u128>) {
    db.users.push(User {
        id,
        email: "ann@example.com".to_string(),
        password_hash: "old-hash".to_string(),
        first_name: "Ann".to_string(),
        last_name: "Lee".to_string(),
        tenants,
        created_at: String::new(),
    });
}

#[test]
fn password_change_is_redacted() {
    let mut db = Database::new();
    seed_user(&mut db, 5, vec![]);
    let data = UpdateUserData { email: None, password: Some("s3cret".to_string()), first_name: None, last_name: None };
    let r = update_user(&mut db, &text(5), data);
    assert_eq!(r.status, 200);
    let all = logs(&db, AuditLogEntityType::User);
    assert_eq!(all.len(), 1);
    assert_eq!(pairs(&all[0].old_values), vec![p("password", "HIDDEN")]);
    assert_eq!(pairs(&all[0].new_values), vec![p("password", "HIDDEN")]);
    assert_eq!(all[0].author_id, 5);
    assert_ne!(db.users[0].password_hash, "old-hash");
    assert_ne!(db.users[0].password_hash, "s3cret");
}

#[test]
fn user_update_records_changed_names() {
    let mut db = Database::new();
    seed_user(&mut db, 5, vec![]);
    let data = UpdateUserData {
        email: Some("ann@example.com".to_string()),
        password: None,
        first_name: Some("Anna".to_string()),
        last_name: None,
    };
    let r = update_user(&mut db, &text(5), data);
    assert_eq!(r.status, 200);
    assert_eq!(r.data.unwrap().first_name, "Anna");
    let all = logs(&db, AuditLogEntityType::User);
    assert_eq!(pairs(&all[0].old_values), vec![p("firstName", "Ann")]);
    assert_eq!(pairs(&all[0].new_values), vec![p("firstName", "Anna")]);
    let none = UpdateUserData { email: None, password: None, first_name: None, last_name: None };
    assert_eq!(update_user(&mut db, &text(5), none).status, 200);
    assert_eq!(logs(&db, AuditLogEntityType::User).len(), 1);
    let missing = UpdateUserData { email: None, password: None, first_name: None, last_name: None };
    assert_eq!(update_user(&mut db, &text(6), missing).status, 404);
}

#[test]
fn members_and_memberships() {
    let mut db = Database::new();
    let acme = new_tenant(&mut db, "Acme");
    let beta = new_tenant(&mut db, "Beta");
    seed_user(&mut db, 1, vec![acme.id]);
    seed_user(&mut db, 2, vec![acme.id, beta.id]);
    seed_user(&mut db, 3, vec![]);
    let members = get_all_members(&text(acme.id), &db).data.unwrap();
    assert_eq!(members.iter().map(|m| m.id).collect::<Vec<_>>(), vec![1, 2]);
    assert_eq!(get_all_members(&text(7), &db).status, 404);
    let of_two = shelfwatcher::user_routes::get_all_tenants(&db, &text(2)).data.unwrap();
    assert_eq!(of_two.iter().map(|t| t.name.as_str()).collect::<Vec<_>>(), vec!["Acme", "Beta"]);
    assert_eq!(shelfwatcher::user_routes::get_all_tenants(&db, &text(9)).status, 404);
}

#[test]
fn audit_logs_by_type_tag() {
    let mut db = Database::new();
    new_tenant(&mut db, "Acme");
    let r = get_audit_logs_by_type(&db, "tenant");
    assert_eq!(r.status, 200);
    assert_eq!(r.data.unwrap().len(), 1);
    assert_eq!(get_audit_logs_by_type(&db, "LOCATION").data.unwrap().len(), 0);
    assert_eq!(get_audit_logs_by_type(&db, "unknown").status, 400);
    assert_eq!(get_audit_logs_by_type(&db, "widgets").status, 400);
}

#[test]
fn given_hash_is_stored_and_redacted() {
    let mut db = Database::new();
    seed_user(&mut db, 5, vec![]);
    let data = UpdateUserData { email: None, password: Some("ignored".to_string()), first_name: None, last_name: None };
    let r = shelfwatcher::user_routes::update_user_with_hash(&mut db, &text(5), data, Some("new-hash".to_string()));
    assert_eq!(r.status, 200);
    assert_eq!(r.message, "User updated");
    assert_eq!(db.users[0].password_hash, "new-hash");
    let all = logs(&db, AuditLogEntityType::User);
    assert_eq!(all.len(), 1);
    assert_eq!(pairs(&all[0].old_values), vec![p("password", "HIDDEN")]);
    assert_eq!(pairs(&all[0].new_values), vec![p("password", "HIDDEN")]);
    let same = UpdateUserData { email: None, password: None, first_name: None, last_name: None };
    let r = shelfwatcher::user_routes::update_user_with_hash(&mut db, &text(5), same, Some("new-hash".to_string()));
    assert_eq!(r.message, "No updates applied.");
    assert_eq!(logs(&db, AuditLogEntityType::User).len(), 1);
}

#[test]
fn error_messages_are_fixed() {
    let mut db = Database::new();
    let acme = new_tenant(&mut db, "Acme");
    let r = create_tenant(&mut db, CreateTenantData { name: "Acme".to_string() });
    assert_eq!(r.message, "Tenant already exists");
    assert_eq!(get_tenant_by_id(&db, &text(acme.id.wrapping_add(1))).message, "Tenant not found");
    for name in ["A", "B", "C"] {
        new_location(&mut db, acme.id, name);
    }
    let r = create_location(&mut db, CreateLocationData { name: "D".to_string() }, &text(acme.id));
    assert_eq!(r.message, "Tenant has reached the maximum number of locations (3)");
    let r = update_location(&mut db, &text(acme.id), &text(1), UpdateLocationData { name: None });
    assert_eq!(r.status, 404);
    assert_eq!(r.message, "Location not found");
    assert!(r.data.is_none());
    let r = update_tenant(&mut db, &text(acme.id), UpdateTenantData { name: None, owner_id: None });
    assert_eq!(r.message, "No updates applied.");
    assert_eq!(get_audit_logs_by_type(&db, "nope").message, "Invalid audit log entity type provided");
    let unknown = AuditLog::new(1, AuditLogEntityType::Unknown, AuditLogAction::Delete, String::new(), 1, None, None);
    assert_eq!(unknown.insert(&mut db), Err("Invalid audit log entity type provided".to_string()));
    let missing = AuditLog::get_by_id::<()>(12345, AuditLogEntityType::Tenant, &db).err().unwrap();
    assert_eq!(missing.message, "Audit log not found");
}
