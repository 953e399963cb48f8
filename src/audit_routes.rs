use vstd::prelude::*;
use crate::audit_log::{AuditLog, AuditLogEntityType, parse_tag, same_logs, upper_of};
use crate::response::{HttpResponse, success, STATUS_BAD_REQUEST, STATUS_OK};
use crate::store::Database;

verus! {

/// Every audit record of the entity kind named, in any case, by `type_tag`.
pub fn get_audit_logs_by_type(db: &Database, type_tag: &str) -> (r: HttpResponse<Vec<AuditLog>>)
    ensures
        parse_tag(upper_of(type_tag@)) is None ==> r.status == STATUS_BAD_REQUEST && r.data is None
            && r.message@ == "Invalid audit log entity type provided"@,
        parse_tag(upper_of(type_tag@)) is Some ==> r.status == STATUS_OK && r.data is Some
            && same_logs(
            r.data->Some_0@,
            db.logs.partition(parse_tag(upper_of(type_tag@))->Some_0),
        ),
{
    let entity_type = match AuditLogEntityType::from_string(type_tag) {
        Ok(t) => t,
        Err(err) => return err,
    };
    proof {
        crate::audit_log::lemma_parse_never_unknown(upper_of(type_tag@));
    }
    match AuditLog::get_all_from_type(entity_type, db) {
        Ok(logs) => success(STATUS_OK, "Successfully retrieved all audit logs by type", logs),
        Err(err) => err,
    }
}

} // verus!
