use vstd::prelude::*;
use crate::diff::{pair_view, pairs_view};
use crate::ids::{fresh_id, now_text};
use crate::response::{HttpResponse, failure, STATUS_BAD_REQUEST, STATUS_NOT_FOUND};
use crate::store::Database;

verus! {

/// The kind of mutation an audit record documents.
#[derive(Debug, Clone, Copy, PartialEq, Eq, Structural)]
pub enum AuditLogAction {
    Create,
    Update,
    Delete,
}

/// The closed set of entity kinds whose mutations are audited. `Unknown` is
/// a sentinel with no log partition and no canonical text.
#[derive(Debug, Clone, Copy, PartialEq, Eq, Structural)]
pub enum AuditLogEntityType {
    User,
    Tenant,
    Location,
    ProductGroup,
    ProductBatch,
    Product,
    Item,
    Unknown,
}

/// What `str::to_uppercase` yields for a text.
pub uninterp spec fn upper_of(s: Seq<char>) -> Seq<char>;

/// A character that is its own uppercase form: an ASCII capital or `-`.
pub open spec fn is_tag_char(c: char) -> bool {
    ('A' <= c && c <= 'Z') || c == '-'
}

pub open spec fn is_tag_text(s: Seq<char>) -> bool {
    forall|i: int| 0 <= i < s.len() ==> is_tag_char(#[trigger] s[i])
}

/// Relies on `str::to_uppercase`: the result depends on the text alone, and
/// ASCII capitals and `-` map to themselves.
#[verifier::external_body]
fn uppercase(s: &str) -> (r: String)
    ensures
        r@ == upper_of(s@),
        is_tag_text(s@) ==> r@ == s@,
{
    s.to_uppercase()
}

/// The canonical text of each concrete kind; `Unknown` writes as "UNKNOWN".
pub open spec fn entity_type_text(t: AuditLogEntityType) -> Seq<char> {
    match t {
        AuditLogEntityType::User => "USER"@,
        AuditLogEntityType::Tenant => "TENANT"@,
        AuditLogEntityType::Location => "LOCATION"@,
        AuditLogEntityType::ProductGroup => "PRODUCT-GROUP"@,
        AuditLogEntityType::ProductBatch => "PRODUCT-BATCH"@,
        AuditLogEntityType::Product => "PRODUCT"@,
        AuditLogEntityType::Item => "ITEM"@,
        AuditLogEntityType::Unknown => "UNKNOWN"@,
    }
}

/// The kind whose canonical text is exactly `s`; `None` for every other
/// text, "UNKNOWN" included.
pub open spec fn parse_tag(s: Seq<char>) -> Option<AuditLogEntityType> {
    if s == "USER"@ {
        Some(AuditLogEntityType::User)
    } else if s == "TENANT"@ {
        Some(AuditLogEntityType::Tenant)
    } else if s == "LOCATION"@ {
        Some(AuditLogEntityType::Location)
    } else if s == "PRODUCT-GROUP"@ {
        Some(AuditLogEntityType::ProductGroup)
    } else if s == "PRODUCT-BATCH"@ {
        Some(AuditLogEntityType::ProductBatch)
    } else if s == "PRODUCT"@ {
        Some(AuditLogEntityType::Product)
    } else if s == "ITEM"@ {
        Some(AuditLogEntityType::Item)
    } else {
        None
    }
}

/// The log collection of each kind; `Unknown` routes nowhere.
pub open spec fn log_collection_spec(t: AuditLogEntityType) -> Option<Seq<char>> {
    match t {
        AuditLogEntityType::User => Some(AuditLog::COLLECTION_NAME_USERS@),
        AuditLogEntityType::Tenant => Some(AuditLog::COLLECTION_NAME_TENANTS@),
        AuditLogEntityType::Location => Some(AuditLog::COLLECTION_NAME_LOCATIONS@),
        AuditLogEntityType::ProductGroup => Some(AuditLog::COLLECTION_NAME_PRODUCT_GROUPS@),
        AuditLogEntityType::ProductBatch => Some(AuditLog::COLLECTION_NAME_PRODUCT_BATCHES@),
        AuditLogEntityType::Product => Some(AuditLog::COLLECTION_NAME_PRODUCTS@),
        AuditLogEntityType::Item => Some(AuditLog::COLLECTION_NAME_ITEMS@),
        AuditLogEntityType::Unknown => None,
    }
}

fn text_is(s: &String, lit: &str) -> (r: bool)
    ensures
        r == (s@ == lit@),
{
    *s == lit.to_string()
}

impl AuditLogEntityType {
    /// Parses a type tag without regard to case.
    pub fn from_string<T>(entity_type: &str) -> (r: Result<Self, HttpResponse<T>>)
        ensures
            match parse_tag(upper_of(entity_type@)) {
                Some(t) => r == Ok::<Self, HttpResponse<T>>(t),
                None => r is Err && r->Err_0.status == STATUS_BAD_REQUEST && r->Err_0.data is None
                    && r->Err_0.message@ == "Invalid audit log entity type provided"@,
            },
            is_tag_text(entity_type@) ==> match parse_tag(entity_type@) {
                Some(t) => r == Ok::<Self, HttpResponse<T>>(t),
                None => r is Err,
            },
    {
        let upper = uppercase(entity_type);
        Self::from_upper(&upper)
    }

    /// Parses a tag that has already been brought to upper case.
    pub fn from_upper<T>(upper: &String) -> (r: Result<Self, HttpResponse<T>>)
        ensures
            match parse_tag(upper@) {
                Some(t) => r == Ok::<Self, HttpResponse<T>>(t),
                None => r is Err && r->Err_0.status == STATUS_BAD_REQUEST && r->Err_0.data is None
                    && r->Err_0.message@ == "Invalid audit log entity type provided"@,
            },
    {
        if text_is(upper, "USER") {
            Ok(AuditLogEntityType::User)
        } else if text_is(upper, "TENANT") {
            Ok(AuditLogEntityType::Tenant)
        } else if text_is(upper, "LOCATION") {
            Ok(AuditLogEntityType::Location)
        } else if text_is(upper, "PRODUCT-GROUP") {
            Ok(AuditLogEntityType::ProductGroup)
        } else if text_is(upper, "PRODUCT-BATCH") {
            Ok(AuditLogEntityType::ProductBatch)
        } else if text_is(upper, "PRODUCT") {
            Ok(AuditLogEntityType::Product)
        } else if text_is(upper, "ITEM") {
            Ok(AuditLogEntityType::Item)
        } else {
            Err(failure(STATUS_BAD_REQUEST, "Invalid audit log entity type provided"))
        }
    }

    /// The canonical text of the kind.
    pub fn to_string(&self) -> (r: String)
        ensures
            r@ == entity_type_text(*self),
    {
        match self {
            AuditLogEntityType::User => "USER".to_string(),
            AuditLogEntityType::Tenant => "TENANT".to_string(),
            AuditLogEntityType::Location => "LOCATION".to_string(),
            AuditLogEntityType::ProductGroup => "PRODUCT-GROUP".to_string(),
            AuditLogEntityType::ProductBatch => "PRODUCT-BATCH".to_string(),
            AuditLogEntityType::Product => "PRODUCT".to_string(),
            AuditLogEntityType::Item => "ITEM".to_string(),
            AuditLogEntityType::Unknown => "UNKNOWN".to_string(),
        }
    }

    /// The name of the log collection the kind routes to; `None` for
    /// `Unknown`.
    pub fn log_collection(&self) -> (r: Option<&'static str>)
        ensures
            match log_collection_spec(*self) {
                Some(name) => r is Some && r->Some_0@ == name,
                None => r is None,
            },
    {
        match self {
            AuditLogEntityType::User => Some(AuditLog::COLLECTION_NAME_USERS),
            AuditLogEntityType::Tenant => Some(AuditLog::COLLECTION_NAME_TENANTS),
            AuditLogEntityType::Location => Some(AuditLog::COLLECTION_NAME_LOCATIONS),
            AuditLogEntityType::ProductGroup => Some(AuditLog::COLLECTION_NAME_PRODUCT_GROUPS),
            AuditLogEntityType::ProductBatch => Some(AuditLog::COLLECTION_NAME_PRODUCT_BATCHES),
            AuditLogEntityType::Product => Some(AuditLog::COLLECTION_NAME_PRODUCTS),
            AuditLogEntityType::Item => Some(AuditLog::COLLECTION_NAME_ITEMS),
            AuditLogEntityType::Unknown => None,
        }
    }
}

/// Every concrete kind reads back from its own canonical text, and that text
/// is already in upper case, so case-insensitive parsing returns the kind.
pub proof fn lemma_tag_round_trip(t: AuditLogEntityType)
    requires
        t != AuditLogEntityType::Unknown,
    ensures
        is_tag_text(entity_type_text(t)),
        parse_tag(entity_type_text(t)) == Some(t),
{
    reveal_strlit("USER");
    reveal_strlit("TENANT");
    reveal_strlit("LOCATION");
    reveal_strlit("PRODUCT-GROUP");
    reveal_strlit("PRODUCT-BATCH");
    reveal_strlit("PRODUCT");
    reveal_strlit("ITEM");
    let u = "USER"@;
    let te = "TENANT"@;
    let l = "LOCATION"@;
    let g = "PRODUCT-GROUP"@;
    let b = "PRODUCT-BATCH"@;
    let p = "PRODUCT"@;
    let i = "ITEM"@;
    assert(u.len() == 4 && te.len() == 6 && l.len() == 8 && g.len() == 13);
    assert(b.len() == 13 && p.len() == 7 && i.len() == 4);
    assert(u[0] == 'U' && i[0] == 'I');
    assert(g[8] == 'G' && b[8] == 'B');
    assert(u != i);
    assert(g != b);
}

/// Parsing never yields `Unknown`: a text either names a concrete kind or is
/// rejected.
pub proof fn lemma_parse_never_unknown(s: Seq<char>)
    ensures
        parse_tag(s) != Some(AuditLogEntityType::Unknown),
        parse_tag(s) is Some ==> entity_type_text(parse_tag(s)->Some_0) == s,
{
}

/// A record of one create, update or delete performed on an entity.
pub struct AuditLog {
    pub id: u128,
    pub entity_id: u128,
    pub entity_type: AuditLogEntityType,
    pub action: AuditLogAction,
    pub reason: String,
    pub author_id: u128,
    pub old_values: Option<Vec<(String, String)>>,
    pub new_values: Option<Vec<(String, String)>>,
    pub created_at: String,
}

impl AuditLog {
    pub const COLLECTION_NAME_USERS: &'static str = "uesr-logs";
    pub const COLLECTION_NAME_TENANTS: &'static str = "tenant-logs";
    pub const COLLECTION_NAME_LOCATIONS: &'static str = "location-logs";
    pub const COLLECTION_NAME_PRODUCT_GROUPS: &'static str = "product_group-logs";
    pub const COLLECTION_NAME_PRODUCT_BATCHES: &'static str = "product_batch-logs";
    pub const COLLECTION_NAME_PRODUCTS: &'static str = "product-logs";
    pub const COLLECTION_NAME_ITEMS: &'static str = "item-logs";

    /// A record with a fresh identifier, stamped now.
    pub fn new(
        entity_id: u128,
        entity_type: AuditLogEntityType,
        action: AuditLogAction,
        reason: String,
        author_id: u128,
        old_values: Option<Vec<(String, String)>>,
        new_values: Option<Vec<(String, String)>>,
    ) -> (r: Self)
        ensures
            r.entity_id == entity_id,
            r.entity_type == entity_type,
            r.action == action,
            r.reason == reason,
            r.author_id == author_id,
            r.old_values == old_values,
            r.new_values == new_values,
    {
        AuditLog {
            id: fresh_id(),
            entity_id,
            entity_type,
            action,
            reason,
            author_id,
            old_values,
            new_values,
            created_at: now_text(),
        }
    }

    /// A copy that agrees with `self` on every field.
    pub fn duplicate(&self) -> (r: Self)
        ensures
            same_log(r, *self),
    {
        AuditLog {
            id: self.id,
            entity_id: self.entity_id,
            entity_type: self.entity_type,
            action: self.action,
            reason: self.reason.clone(),
            author_id: self.author_id,
            old_values: copy_values(&self.old_values),
            new_values: copy_values(&self.new_values),
            created_at: self.created_at.clone(),
        }
    }

    /// Appends the record to the partition its entity kind routes to. A
    /// record of kind `Unknown` is refused and nothing is written.
    pub fn insert(self, connection: &mut Database) -> (r: Result<(), String>)
        ensures
            self.entity_type == AuditLogEntityType::Unknown ==> r is Err && r->Err_0@
                == "Invalid audit log entity type provided"@ && final(connection).logs
                == old(connection).logs,
            self.entity_type != AuditLogEntityType::Unknown ==> r is Ok
                && final(connection).logs.appended(old(connection).logs, self.entity_type, self),
            final(connection).tenants == old(connection).tenants,
            final(connection).locations == old(connection).locations,
            final(connection).users == old(connection).users,
    {
        match self.entity_type {
            AuditLogEntityType::User => connection.logs.users.push(self),
            AuditLogEntityType::Tenant => connection.logs.tenants.push(self),
            AuditLogEntityType::Location => connection.logs.locations.push(self),
            AuditLogEntityType::ProductGroup => connection.logs.product_groups.push(self),
            AuditLogEntityType::ProductBatch => connection.logs.product_batches.push(self),
            AuditLogEntityType::Product => connection.logs.products.push(self),
            AuditLogEntityType::Item => connection.logs.items.push(self),
            AuditLogEntityType::Unknown => {
                return Err("Invalid audit log entity type provided".to_string());
            },
        }
        Ok(())
    }

    /// The record with identifier `id` in the partition of `entity_type`.
    pub fn get_by_id<T>(id: u128, entity_type: AuditLogEntityType, connection: &Database) -> (r:
        Result<Self, HttpResponse<T>>)
        ensures
            entity_type == AuditLogEntityType::Unknown ==> r is Err && r->Err_0.status
                == STATUS_BAD_REQUEST && r->Err_0.data is None && r->Err_0.message@
                == "Invalid audit log entity type provided"@,
            entity_type != AuditLogEntityType::Unknown ==> ({
                let found = connection.logs.partition(entity_type).filter(
                    |l: AuditLog| matches_key(l, LogKey::Id(id)),
                );
                &&& found.len() > 0 ==> r is Ok && same_log(r->Ok_0, found[0])
                &&& found.len() == 0 ==> r is Err && r->Err_0.status == STATUS_NOT_FOUND
                    && r->Err_0.data is None && r->Err_0.message@ == "Audit log not found"@
            }),
    {
        match connection.logs.partition_ref(entity_type) {
            None => Err(failure(STATUS_BAD_REQUEST, "Invalid audit log entity type provided")),
            Some(part) => {
                let found = select(part, LogKey::Id(id));
                if found.len() > 0 {
                    Ok(found[0].duplicate())
                } else {
                    Err(failure(STATUS_NOT_FOUND, "Audit log not found"))
                }
            },
        }
    }

    /// The records about entity `entity_id` in the partition of
    /// `entity_type`.
    pub fn get_by_entity_id<T>(
        entity_id: u128,
        entity_type: AuditLogEntityType,
        connection: &Database,
    ) -> (r: Result<Vec<Self>, HttpResponse<T>>)
        ensures
            entity_type == AuditLogEntityType::Unknown ==> r is Err && r->Err_0.status
                == STATUS_BAD_REQUEST && r->Err_0.data is None && r->Err_0.message@
                == "Invalid audit log entity type provided"@,
            entity_type != AuditLogEntityType::Unknown ==> r is Ok && same_logs(
                r->Ok_0@,
                connection.logs.partition(entity_type).filter(
                    |l: AuditLog| matches_key(l, LogKey::Entity(entity_id)),
                ),
            ),
    {
        Self::select_from(entity_type, LogKey::Entity(entity_id), connection)
    }

    /// The records written by user `user_id` in the partition of
    /// `entity_type`.
    pub fn get_by_user_id<T>(
        user_id: u128,
        entity_type: AuditLogEntityType,
        connection: &Database,
    ) -> (r: Result<Vec<Self>, HttpResponse<T>>)
        ensures
            entity_type == AuditLogEntityType::Unknown ==> r is Err && r->Err_0.status
                == STATUS_BAD_REQUEST && r->Err_0.data is None && r->Err_0.message@
                == "Invalid audit log entity type provided"@,
            entity_type != AuditLogEntityType::Unknown ==> r is Ok && same_logs(
                r->Ok_0@,
                connection.logs.partition(entity_type).filter(
                    |l: AuditLog| matches_key(l, LogKey::Author(user_id)),
                ),
            ),
    {
        Self::select_from(entity_type, LogKey::Author(user_id), connection)
    }

    /// Every record in the partition of `entity_type`.
    pub fn get_all_from_type<T>(entity_type: AuditLogEntityType, connection: &Database) -> (r:
        Result<Vec<Self>, HttpResponse<T>>)
        ensures
            entity_type == AuditLogEntityType::Unknown ==> r is Err && r->Err_0.status
                == STATUS_BAD_REQUEST && r->Err_0.data is None && r->Err_0.message@
                == "Invalid audit log entity type provided"@,
            entity_type != AuditLogEntityType::Unknown ==> r is Ok && same_logs(
                r->Ok_0@,
                connection.logs.partition(entity_type),
            ),
    {
        let r = Self::select_from(entity_type, LogKey::All, connection);
        proof {
            let p = connection.logs.partition(entity_type);
            lemma_filter_all(p);
        }
        r
    }

    fn select_from<T>(entity_type: AuditLogEntityType, key: LogKey, connection: &Database) -> (r:
        Result<Vec<Self>, HttpResponse<T>>)
        ensures
            entity_type == AuditLogEntityType::Unknown ==> r is Err && r->Err_0.status
                == STATUS_BAD_REQUEST && r->Err_0.data is None && r->Err_0.message@
                == "Invalid audit log entity type provided"@,
            entity_type != AuditLogEntityType::Unknown ==> r is Ok && same_logs(
                r->Ok_0@,
                connection.logs.partition(entity_type).filter(|l: AuditLog| matches_key(l, key)),
            ),
    {
        match connection.logs.partition_ref(entity_type) {
            None => Err(failure(STATUS_BAD_REQUEST, "Invalid audit log entity type provided")),
            Some(part) => Ok(select(part, key)),
        }
    }
}

/// The single-field equality filter a read applies to one partition.
pub enum LogKey {
    All,
    Id(u128),
    Entity(u128),
    Author(u128),
}

pub open spec fn matches_key(l: AuditLog, k: LogKey) -> bool {
    match k {
        LogKey::All => true,
        LogKey::Id(id) => l.id == id,
        LogKey::Entity(id) => l.entity_id == id,
        LogKey::Author(id) => l.author_id == id,
    }
}

pub open spec fn values_view(v: Option<Vec<(String, String)>>) -> Option<
    Seq<(Seq<char>, Seq<char>)>,
> {
    match v {
        Some(p) => Some(pairs_view(p@)),
        None => None,
    }
}

/// Two records agree on every field, the change maps compared by content.
pub open spec fn same_log(a: AuditLog, b: AuditLog) -> bool {
    &&& a.id == b.id
    &&& a.entity_id == b.entity_id
    &&& a.entity_type == b.entity_type
    &&& a.action == b.action
    &&& a.reason@ == b.reason@
    &&& a.author_id == b.author_id
    &&& values_view(a.old_values) == values_view(b.old_values)
    &&& values_view(a.new_values) == values_view(b.new_values)
    &&& a.created_at@ == b.created_at@
}

pub open spec fn same_logs(a: Seq<AuditLog>, b: Seq<AuditLog>) -> bool {
    &&& a.len() == b.len()
    &&& forall|i: int| 0 <= i < a.len() ==> same_log(#[trigger] a[i], b[i])
}

proof fn lemma_filter_all(s: Seq<AuditLog>)
    ensures
        s.filter(|l: AuditLog| matches_key(l, LogKey::All)) == s,
    decreases s.len(),
{
    reveal(Seq::filter);
    if s.len() > 0 {
        lemma_filter_all(s.drop_last());
        assert(s.drop_last().push(s.last()) =~= s);
    }
}

fn copy_values(v: &Option<Vec<(String, String)>>) -> (r: Option<Vec<(String, String)>>)
    ensures
        values_view(r) == values_view(*v),
{
    match v {
        None => None,
        Some(p) => {
            let mut out: Vec<(String, String)> = Vec::new();
            let mut i: usize = 0;
            while i < p.len()
                invariant
                    i <= p@.len(),
                    pairs_view(out@) == pairs_view(p@.subrange(0, i as int)),
                decreases p@.len() - i,
            {
                let e = (p[i].0.clone(), p[i].1.clone());
                proof {
                    assert(pairs_view(out@.push(e)) =~= pairs_view(out@).push(pair_view(e)));
                    assert(pairs_view(p@.subrange(0, i + 1)) =~= pairs_view(
                        p@.subrange(0, i as int),
                    ).push(pair_view(p@[i as int])));
                }
                out.push(e);
                i = i + 1;
            }
            assert(p@.subrange(0, p@.len() as int) =~= p@);
            Some(out)
        },
    }
}

fn select(src: &Vec<AuditLog>, key: LogKey) -> (r: Vec<AuditLog>)
    ensures
        same_logs(r@, src@.filter(|l: AuditLog| matches_key(l, key))),
{
    let mut out: Vec<AuditLog> = Vec::new();
    let mut i: usize = 0;
    while i < src.len()
        invariant
            i <= src@.len(),
            same_logs(out@, src@.subrange(0, i as int).filter(|l: AuditLog| matches_key(l, key))),
        decreases src@.len() - i,
    {
        let ghost before = src@.subrange(0, i as int);
        let ghost after = src@.subrange(0, i + 1);
        assert(after.drop_last() =~= before);
        assert(after.last() == src@[i as int]);
        reveal(Seq::filter);
        let l = &src[i];
        let hit = match key {
            LogKey::All => true,
            LogKey::Id(id) => l.id == id,
            LogKey::Entity(id) => l.entity_id == id,
            LogKey::Author(id) => l.author_id == id,
        };
        if hit {
            out.push(l.duplicate());
        }
        i = i + 1;
    }
    assert(src@.subrange(0, src@.len() as int) =~= src@);
    out
}

} // verus!
