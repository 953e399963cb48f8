use shelfwatcher::audit_log::{AuditLog, AuditLogAction, AuditLogEntityType};
use shelfwatcher::store::Database;

const CONCRETE: [AuditLogEntityType; 7] = [
    AuditLogEntityType::User,
    AuditLogEntityType::Tenant,
    AuditLogEntityType::Location,
    AuditLogEntityType::ProductGroup,
    AuditLogEntityType::ProductBatch,
    AuditLogEntityType::Product,
    AuditLogEntityType::Item,
];

#[test]
fn every_concrete_kind_round_trips() {
    for t in CONCRETE {
        let text = t.to_string();
        let parsed = AuditLogEntityType::from_string::<()>(&text);
        assert!(matches!(parsed, Ok(p) if p == t), "{}", text);
    }
}

#[test]
fn parsing_ignores_case() {
    let r = AuditLogEntityType::from_string::<()>("product-group");
    assert!(matches!(r, Ok(AuditLogEntityType::ProductGroup)));
    let r = AuditLogEntityType::from_string::<()>("PRODUCT-GROUP");
    assert!(matches!(r, Ok(AuditLogEntityType::ProductGroup)));
    let r = AuditLogEntityType::from_string::<()>("Product-Batch");
    assert!(matches!(r, Ok(AuditLogEntityType::ProductBatch)));
    let r = AuditLogEntityType::from_string::<()>("tenant");
    assert!(matches!(r, Ok(AuditLogEntityType::Tenant)));
}

#[test]
fn unrecognized_tags_are_validation_errors() {
    for tag in ["", "UNKNOWN", "unknown", "products", "PRODUCT_GROUP", " user", "tenants"] {
        match AuditLogEntityType::from_string::<()>(tag) {
            Ok(t) => panic!("{:?} parsed as {:?}", tag, t),
            Err(e) => {
                assert_eq!(e.status, 400);
                assert!(e.data.is_none());
            }
        }
    }
}

#[test]
fn canonical_texts() {
    assert_eq!(AuditLogEntityType::User.to_string(), "USER");
    assert_eq!(AuditLogEntityType::ProductGroup.to_string(), "PRODUCT-GROUP");
    assert_eq!(AuditLogEntityType::ProductBatch.to_string(), "PRODUCT-BATCH");
    assert_eq!(AuditLogEntityType::Unknown.to_string(), "UNKNOWN");
}

#[test]
fn each_kind_routes_to_its_own_collection() {
    assert_eq!(AuditLogEntityType::User.log_collection(), Some("uesr-logs"));
    assert_eq!(AuditLogEntityType::Tenant.log_collection(), Some("tenant-logs"));
    assert_eq!(AuditLogEntityType::Location.log_collection(), Some("location-logs"));
    assert_eq!(AuditLogEntityType::ProductGroup.log_collection(), Some("product_group-logs"));
    assert_eq!(AuditLogEntityType::ProductBatch.log_collection(), Some("product_batch-logs"));
    assert_eq!(AuditLogEntityType::Product.log_collection(), Some("product-logs"));
    assert_eq!(AuditLogEntityType::Item.log_collection(), Some("item-logs"));
    assert_eq!(AuditLogEntityType::Unknown.log_collection(), None);
}

#[test]
fn unknown_kind_is_never_written() {
    let mut db = Database::new();
    let log = AuditLog::new(1, AuditLogEntityType::Unknown, AuditLogAction::Create, "x".to_string(), 2, None, None);
    assert!(log.insert(&mut db).is_err());
    assert!(AuditLog::get_all_from_type::<()>(AuditLogEntityType::Unknown, &db).is_err());
    for t in CONCRETE {
        assert_eq!(AuditLog::get_all_from_type::<()>(t, &db).ok().unwrap().len(), 0);
    }
}

#[test]
fn reads_stay_within_one_partition() {
    let mut db = Database::new();
    let a = AuditLog::new(10, AuditLogEntityType::Item, AuditLogAction::Create, "a".to_string(), 7, None, None);
    let a_id = a.id;
    a.insert(&mut db).unwrap();
    AuditLog::new(10, AuditLogEntityType::Product, AuditLogAction::Delete, "b".to_string(), 8, None, None)
        .insert(&mut db)
        .unwrap();
    AuditLog::new(11, AuditLogEntityType::Item, AuditLogAction::Update, "c".to_string(), 8, None, None)
        .insert(&mut db)
        .unwrap();
    let by_entity = AuditLog::get_by_entity_id::<()>(10, AuditLogEntityType::Item, &db).ok().unwrap();
    assert_eq!(by_entity.len(), 1);
    assert_eq!(by_entity[0].reason, "a");
    let by_user = AuditLog::get_by_user_id::<()>(8, AuditLogEntityType::Item, &db).ok().unwrap();
    assert_eq!(by_user.len(), 1);
    assert_eq!(by_user[0].reason, "c");
    let one = AuditLog::get_by_id::<()>(a_id, AuditLogEntityType::Item, &db).ok().unwrap();
    assert_eq!(one.entity_id, 10);
    assert!(matches!(one.action, AuditLogAction::Create));
    let missing = AuditLog::get_by_id::<()>(a_id, AuditLogEntityType::Product, &db);
    assert_eq!(missing.err().unwrap().status, 404);
    assert_eq!(AuditLog::get_all_from_type::<()>(AuditLogEntityType::Item, &db).ok().unwrap().len(), 2);
}
