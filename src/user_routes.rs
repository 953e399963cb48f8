use vstd::prelude::*;
use crate::audit_log::{AuditLog, AuditLogAction, AuditLogEntityType};
use crate::diff::{diff_fields, new_changes, old_changes};
use crate::ids::{parse_uuid, parsed_uuid};
use crate::response::{
    HttpResponse,
    failure,
    success,
    STATUS_BAD_REQUEST,
    STATUS_INTERNAL,
    STATUS_NOT_FOUND,
    STATUS_OK,
};
use crate::store::{Database, lemma_appended_total};
use crate::tenant::Tenant;
use crate::user::{User, UserMinimal, contains_id, minimal_of, user_fields, user_pos};

verus! {

#[verifier::external_type_specification]
#[verifier::external_body]
pub struct ExHashError(pwhash::error::Error);

/// Relies on pwhash's `bcrypt::hash`: hashes with a fresh random salt, so
/// nothing is known of the value. Its source always returns `Ok`; where the
/// operating system's random source fails it panics instead.
#[verifier::external_body]
fn hash_password(password: &str) -> (r: Result<String, pwhash::error::Error>)
    ensures
        r is Ok,
{
    pwhash::bcrypt::hash(password)
}

/// Request to change some fields of a user; `None` leaves a field as it is.
pub struct UpdateUserData {
    pub email: Option<String>,
    pub password: Option<String>,
    pub first_name: Option<String>,
    pub last_name: Option<String>,
}

pub open spec fn text_or(o: Option<String>, d: String) -> Seq<char> {
    match o {
        Some(s) => s@,
        None => d@,
    }
}

/// The fields of `u` after an update that sets the requested fields and,
/// where `hash` is given, that password hash.
pub open spec fn patched_user_fields(u: User, data: UpdateUserData, hash: Option<Seq<char>>) -> Seq<
    (Seq<char>, Seq<char>, bool),
> {
    seq![
        ("email"@, text_or(data.email, u.email), false),
        ("password"@, match hash {
            Some(h) => h,
            None => u.password_hash@,
        }, true),
        ("firstName"@, text_or(data.first_name, u.first_name), false),
        ("lastName"@, text_or(data.last_name, u.last_name), false),
    ]
}

/// `after` is `before` with user `p` replaced and one `Update` record
/// holding the changed fields logged.
pub open spec fn user_updated(before: Database, after: Database, p: int) -> bool {
    let u0 = before.users@[p];
    let u1 = after.users@[p];
    &&& after.users@ == before.users@.update(p, u1)
    &&& u1.id == u0.id && u1.tenants@ == u0.tenants@ && u1.created_at@ == u0.created_at@
    &&& new_changes(user_fields(u0), user_fields(u1)).len() > 0
    &&& after.logs.logged(
        before.logs,
        AuditLogEntityType::User,
        u0.id,
        AuditLogAction::Update,
        Some(old_changes(user_fields(u0), user_fields(u1))),
        Some(new_changes(user_fields(u0), user_fields(u1))),
    )
    &&& after.logs.total() == before.logs.total() + 1
    &&& after.tenants == before.tenants
    &&& after.locations == before.locations
}

/// The response to a user update that found user `p` and whose new fields
/// are `patched`: a no-op when nothing changes, else the stored and logged
/// update.
pub open spec fn user_update_outcome(
    before: Database,
    after: Database,
    p: int,
    data: UpdateUserData,
    patched: Seq<(Seq<char>, Seq<char>, bool)>,
    r: HttpResponse<UserMinimal>,
) -> bool {
    let u0 = before.users@[p];
    let nc = new_changes(user_fields(u0), patched);
    &&& r.status == STATUS_OK && r.data is Some
    &&& r.data->Some_0.id == u0.id
    &&& r.data->Some_0.email@ == text_or(data.email, u0.email)
    &&& r.data->Some_0.first_name@ == text_or(data.first_name, u0.first_name)
    &&& r.data->Some_0.last_name@ == text_or(data.last_name, u0.last_name)
    &&& r.data->Some_0.tenants@ == u0.tenants@
    &&& nc.len() == 0 ==> r.message@ == "No updates applied."@ && after == before
    &&& nc.len() > 0 ==> r.message@ == "User updated"@ && user_updated(before, after, p)
        && user_fields(after.users@[p]) == patched
}

/// Applies the requested changes to the user whose identifier is the text
/// `id`; a new password is stored hashed and shows as `HIDDEN` in the log.
/// Where no field changes, nothing is written and no record is logged.
pub fn update_user(db: &mut Database, id: &str, data: UpdateUserData) -> (r: HttpResponse<
    UserMinimal,
>)
    ensures
        parsed_uuid(id@) is None ==> r.status == STATUS_BAD_REQUEST && r.data is None
            && r.message@ == "Invalid UUID"@ && *final(db) == *old(db),
        parsed_uuid(id@) is Some && user_pos(old(db).users@, parsed_uuid(id@)->Some_0) < 0
            ==> r.status == STATUS_NOT_FOUND && r.data is None && r.message@ == "User not found"@
            && *final(db) == *old(db),
        parsed_uuid(id@) is Some && user_pos(old(db).users@, parsed_uuid(id@)->Some_0) >= 0
            ==> ({
            let p = user_pos(old(db).users@, parsed_uuid(id@)->Some_0);
            &&& data.password is None ==> user_update_outcome(
                *old(db),
                *final(db),
                p,
                data,
                patched_user_fields(old(db).users@[p], data, None),
                r,
            )
            &&& data.password is Some ==> exists|h: Seq<char>|
                user_update_outcome(
                    *old(db),
                    *final(db),
                    p,
                    data,
                    #[trigger] patched_user_fields(old(db).users@[p], data, Some(h)),
                    r,
                )
        }),
        old(db).wf() ==> final(db).wf(),
{
    let hash = match &data.password {
        Some(p) => match hash_password(p.as_str()) {
            Ok(h) => Some(h),
            Err(_) => None,
        },
        None => None,
    };
    let ghost h = match &hash {
        Some(s) => s@,
        None => Seq::<char>::empty(),
    };
    let r = update_user_with_hash(db, id, data, hash);
    proof {
        let ghost p = user_pos(old(db).users@, parsed_uuid(id@)->Some_0);
        if data.password is Some && parsed_uuid(id@) is Some && p >= 0 {
            assert(patched_user_fields(old(db).users@[p], data, Some(h)) == patched_user_fields(
                old(db).users@[p],
                data,
                Some(h),
            ));
        }
    }
    r
}

/// Applies the requested changes to the user whose identifier is the text
/// `id`, with `password_hash`, where given, as the new password hash (the
/// requested password itself is not read).
pub fn update_user_with_hash(
    db: &mut Database,
    id: &str,
    data: UpdateUserData,
    password_hash: Option<String>,
) -> (r: HttpResponse<UserMinimal>)
    ensures
        parsed_uuid(id@) is None ==> r.status == STATUS_BAD_REQUEST && r.data is None
            && r.message@ == "Invalid UUID"@ && *final(db) == *old(db),
        parsed_uuid(id@) is Some && user_pos(old(db).users@, parsed_uuid(id@)->Some_0) < 0
            ==> r.status == STATUS_NOT_FOUND && r.data is None && r.message@ == "User not found"@
            && *final(db) == *old(db),
        parsed_uuid(id@) is Some && user_pos(old(db).users@, parsed_uuid(id@)->Some_0) >= 0
            ==> user_update_outcome(
            *old(db),
            *final(db),
            user_pos(old(db).users@, parsed_uuid(id@)->Some_0),
            data,
            patched_user_fields(
                old(db).users@[user_pos(old(db).users@, parsed_uuid(id@)->Some_0)],
                data,
                match password_hash {
                    Some(h) => Some(h@),
                    None => None,
                },
            ),
            r,
        ),
        old(db).wf() ==> final(db).wf(),
{
    let uuid = match parse_uuid(id) {
        Some(u) => u,
        None => return failure(STATUS_BAD_REQUEST, "Invalid UUID"),
    };
    let old_user = match User::get_by_id(uuid, db) {
        Ok(u) => u,
        Err(err) => return failure(err.status, err.message.as_str()),
    };
    let ghost u0 = db.users@[user_pos(db.users@, uuid)];
    let ghost d = data;
    let ghost hv = match &password_hash {
        Some(h) => Some(h@),
        None => None::<Seq<char>>,
    };
    let mut new_user = old_user.duplicate();
    match data.email {
        Some(e) => {
            new_user.email = e;
        },
        None => {},
    }
    match password_hash {
        Some(h) => {
            new_user.password_hash = h;
        },
        None => {},
    }
    match data.first_name {
        Some(f) => {
            new_user.first_name = f;
        },
        None => {},
    }
    match data.last_name {
        Some(l) => {
            new_user.last_name = l;
        },
        None => {},
    }
    let old_fields = old_user.fields();
    let new_fields = new_user.fields();
    let changes = diff_fields(&old_fields, &new_fields);
    assert(user_fields(old_user) =~= user_fields(u0));
    assert(user_fields(new_user) =~= patched_user_fields(u0, d, hv));
    if changes.is_empty() {
        return success(STATUS_OK, "No updates applied.", new_user.to_minimal());
    }
    match new_user.update(db) {
        Ok(updated) => {
            let log = AuditLog::new(
                new_user.id,
                AuditLogEntityType::User,
                AuditLogAction::Update,
                "User updated.".to_string(),
                new_user.id,
                Some(changes.old_values),
                Some(changes.new_values),
            );
            let ghost logs_before = db.logs;
            let ghost record = log;
            let _ = log.insert(db);
            proof {
                lemma_appended_total(db.logs, logs_before, AuditLogEntityType::User, record);
            }
            success(STATUS_OK, "User updated", updated)
        },
        Err(err) => err,
    }
}

/// The tenants that the user whose identifier is the text `id` is a member
/// of, in storage order.
pub fn get_all_tenants(db: &Database, id: &str) -> (r: HttpResponse<Vec<Tenant>>)
    ensures
        parsed_uuid(id@) is None ==> r.status == STATUS_BAD_REQUEST && r.data is None,
        parsed_uuid(id@) is Some ==> ({
            let p = user_pos(db.users@, parsed_uuid(id@)->Some_0);
            &&& p < 0 ==> r.status == STATUS_NOT_FOUND && r.data is None
            &&& p >= 0 ==> r.status == STATUS_OK && r.data is Some && r.data->Some_0@
                == db.tenants@.filter(|t: Tenant| db.users@[p].tenants@.contains(t.id))
        }),
{
    let uuid = match parse_uuid(id) {
        Some(u) => u,
        None => return failure(STATUS_BAD_REQUEST, "Invalid UUID"),
    };
    let user = match User::get_by_id(uuid, db) {
        Ok(u) => u,
        Err(err) => return failure(err.status, err.message.as_str()),
    };
    let ghost member_of = db.users@[user_pos(db.users@, uuid)].tenants@;
    let mut out: Vec<Tenant> = Vec::new();
    let mut i: usize = 0;
    while i < db.tenants.len()
        invariant
            i <= db.tenants@.len(),
            user.tenants@ == member_of,
            out@ == db.tenants@.subrange(0, i as int).filter(|t: Tenant| member_of.contains(t.id)),
        decreases db.tenants@.len() - i,
    {
        let ghost before = db.tenants@.subrange(0, i as int);
        let ghost after = db.tenants@.subrange(0, i + 1);
        assert(after.drop_last() =~= before);
        assert(after.last() == db.tenants@[i as int]);
        reveal(Seq::filter);
        if contains_id(&user.tenants, db.tenants[i].id) {
            out.push(db.tenants[i].duplicate());
        }
        i = i + 1;
    }
    assert(db.tenants@.subrange(0, db.tenants@.len() as int) =~= db.tenants@);
    success(STATUS_OK, "Successfully retrieved all tenants with set owner id", out)
}

/// The members of the tenant whose identifier is the text `id`, in storage
/// order.
pub fn get_all_members(id: &str, db: &Database) -> (r: HttpResponse<Vec<UserMinimal>>)
    ensures
        parsed_uuid(id@) is None ==> r.status == STATUS_BAD_REQUEST && r.data is None,
        parsed_uuid(id@) is Some ==> ({
            let t = parsed_uuid(id@)->Some_0;
            let members = db.users@.filter(|u: User| u.tenants@.contains(t));
            &&& crate::tenant::tenant_pos(db.tenants@, t) < 0 ==> r.status == STATUS_NOT_FOUND
                && r.data is None
            &&& crate::tenant::tenant_pos(db.tenants@, t) >= 0 ==> r.status == STATUS_OK
                && r.data is Some && r.data->Some_0@.len() == members.len() && forall|k: int|
                0 <= k < members.len() ==> minimal_of(#[trigger] r.data->Some_0@[k], members[k])
        }),
{
    let uuid = match parse_uuid(id) {
        Some(u) => u,
        None => return failure(STATUS_BAD_REQUEST, "Invalid UUID"),
    };
    let tenant = match Tenant::get_by_id(uuid, db) {
        Ok(t) => t,
        Err(err) => return failure(err.status, err.message.as_str()),
    };
    let mut out: Vec<UserMinimal> = Vec::new();
    let mut i: usize = 0;
    while i < db.users.len()
        invariant
            i <= db.users@.len(),
            tenant.id == uuid,
            ({
                let m = db.users@.subrange(0, i as int).filter(|u: User| u.tenants@.contains(uuid));
                &&& out@.len() == m.len()
                &&& forall|k: int| 0 <= k < m.len() ==> minimal_of(#[trigger] out@[k], m[k])
            }),
        decreases db.users@.len() - i,
    {
        let ghost before = db.users@.subrange(0, i as int);
        let ghost after = db.users@.subrange(0, i + 1);
        assert(after.drop_last() =~= before);
        assert(after.last() == db.users@[i as int]);
        reveal(Seq::filter);
        if contains_id(&db.users[i].tenants, tenant.id) {
            out.push(db.users[i].to_minimal());
        }
        i = i + 1;
    }
    assert(db.users@.subrange(0, db.users@.len() as int) =~= db.users@);
    success(STATUS_OK, "Successfully retrieved all members", out)
}

} // verus!
