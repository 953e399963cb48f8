use vstd::prelude::*;
use crate::audit_log::{AuditLog, AuditLogAction, AuditLogEntityType, values_view};
use crate::location::{Location, location_ids};
use crate::tenant::{Tenant, tenant_ids};
use crate::user::{User, user_ids};

verus! {

/// `i` is the first position of `keys` that holds `key`.
pub open spec fn is_first<A>(keys: Seq<A>, key: A, i: int) -> bool {
    &&& 0 <= i < keys.len()
    &&& keys[i] == key
    &&& forall|j: int| 0 <= j < i ==> keys[j] != key
}

/// The first position of `key` in `keys`, or -1 where it does not occur.
pub open spec fn first_index<A>(keys: Seq<A>, key: A) -> int {
    if exists|i: int| is_first(keys, key, i) {
        choose|i: int| is_first(keys, key, i)
    } else {
        -1
    }
}

pub proof fn lemma_first_index<A>(keys: Seq<A>, key: A, i: int)
    requires
        is_first(keys, key, i),
    ensures
        first_index(keys, key) == i,
{
    let c = choose|c: int| is_first(keys, key, c);
    assert(is_first(keys, key, c));
    if c < i {
        assert(keys[c] != key);
    } else if c > i {
        assert(keys[i] != key);
    }
}

pub proof fn lemma_absent<A>(keys: Seq<A>, key: A)
    requires
        forall|j: int| 0 <= j < keys.len() ==> keys[j] != key,
    ensures
        first_index(keys, key) == -1,
{
}

/// No key occurs twice.
pub open spec fn unique_keys<A>(keys: Seq<A>) -> bool {
    forall|i: int, j: int|
        0 <= i < keys.len() && 0 <= j < keys.len() && i != j ==> keys[i] != keys[j]
}

/// With unique keys, a key's only position is its first.
pub proof fn lemma_unique_first<A>(keys: Seq<A>, key: A, i: int)
    requires
        unique_keys(keys),
        0 <= i < keys.len(),
        keys[i] == key,
    ensures
        first_index(keys, key) == i,
{
    assert(is_first(keys, key, i));
    lemma_first_index(keys, key, i);
}

/// Appending a key that does not occur keeps the keys unique.
pub proof fn lemma_push_unique<A>(keys: Seq<A>, key: A)
    requires
        unique_keys(keys),
        forall|j: int| 0 <= j < keys.len() ==> keys[j] != key,
    ensures
        unique_keys(keys.push(key)),
{
    let s = keys.push(key);
    assert forall|i: int, j: int|
        0 <= i < s.len() && 0 <= j < s.len() && i != j implies s[i] != s[j] by {
        if i < keys.len() && j < keys.len() {
            assert(s[i] == keys[i] && s[j] == keys[j]);
        }
    }
}

/// Removing a position keeps the keys unique, and its key no longer occurs.
pub proof fn lemma_remove_unique<A>(keys: Seq<A>, p: int)
    requires
        unique_keys(keys),
        0 <= p < keys.len(),
    ensures
        unique_keys(keys.remove(p)),
        first_index(keys.remove(p), keys[p]) == -1,
{
    let s = keys.remove(p);
    assert forall|i: int, j: int|
        0 <= i < s.len() && 0 <= j < s.len() && i != j implies s[i] != s[j] by {
        let a = if i < p { i } else { i + 1 };
        let b = if j < p { j } else { j + 1 };
        assert(s[i] == keys[a] && s[j] == keys[b]);
    }
    assert forall|j: int| 0 <= j < s.len() implies s[j] != keys[p] by {
        let a = if j < p { j } else { j + 1 };
        assert(s[j] == keys[a]);
    }
    lemma_absent(s, keys[p]);
}

/// Appending one record to one partition grows the total by one.
pub proof fn lemma_appended_total(after: LogStore, before: LogStore, t: AuditLogEntityType, l: AuditLog)
    requires
        after.appended(before, t, l),
    ensures
        after.total() == before.total() + 1,
{
    assert(after.partition(AuditLogEntityType::User) == before.partition(AuditLogEntityType::User)
        || t == AuditLogEntityType::User);
    assert(after.partition(AuditLogEntityType::Tenant) == before.partition(
        AuditLogEntityType::Tenant,
    ) || t == AuditLogEntityType::Tenant);
    assert(after.partition(AuditLogEntityType::Location) == before.partition(
        AuditLogEntityType::Location,
    ) || t == AuditLogEntityType::Location);
    assert(after.partition(AuditLogEntityType::ProductGroup) == before.partition(
        AuditLogEntityType::ProductGroup,
    ) || t == AuditLogEntityType::ProductGroup);
    assert(after.partition(AuditLogEntityType::ProductBatch) == before.partition(
        AuditLogEntityType::ProductBatch,
    ) || t == AuditLogEntityType::ProductBatch);
    assert(after.partition(AuditLogEntityType::Product) == before.partition(
        AuditLogEntityType::Product,
    ) || t == AuditLogEntityType::Product);
    assert(after.partition(AuditLogEntityType::Item) == before.partition(AuditLogEntityType::Item)
        || t == AuditLogEntityType::Item);
}

/// Append-only audit records, one partition per concrete entity kind.
pub struct LogStore {
    pub users: Vec<AuditLog>,
    pub tenants: Vec<AuditLog>,
    pub locations: Vec<AuditLog>,
    pub product_groups: Vec<AuditLog>,
    pub product_batches: Vec<AuditLog>,
    pub products: Vec<AuditLog>,
    pub items: Vec<AuditLog>,
}

impl LogStore {
    /// The records of the partition a kind routes to; `Unknown` has none.
    pub open spec fn partition(&self, t: AuditLogEntityType) -> Seq<AuditLog> {
        match t {
            AuditLogEntityType::User => self.users@,
            AuditLogEntityType::Tenant => self.tenants@,
            AuditLogEntityType::Location => self.locations@,
            AuditLogEntityType::ProductGroup => self.product_groups@,
            AuditLogEntityType::ProductBatch => self.product_batches@,
            AuditLogEntityType::Product => self.products@,
            AuditLogEntityType::Item => self.items@,
            AuditLogEntityType::Unknown => Seq::empty(),
        }
    }

    /// `self` is `before` with `log` appended to the partition of `t`, every
    /// other partition unchanged.
    pub open spec fn appended(&self, before: LogStore, t: AuditLogEntityType, log: AuditLog) -> bool {
        &&& t != AuditLogEntityType::Unknown
        &&& self.partition(t) == before.partition(t).push(log)
        &&& forall|u: AuditLogEntityType| u != t ==> #[trigger] self.partition(u) == before.partition(u)
    }

    /// The partition a kind routes to; `None` for `Unknown`.
    pub fn partition_ref(&self, t: AuditLogEntityType) -> (r: Option<&Vec<AuditLog>>)
        ensures
            t == AuditLogEntityType::Unknown ==> r is None,
            t != AuditLogEntityType::Unknown ==> r is Some && r->Some_0@ == self.partition(t),
    {
        match t {
            AuditLogEntityType::User => Some(&self.users),
            AuditLogEntityType::Tenant => Some(&self.tenants),
            AuditLogEntityType::Location => Some(&self.locations),
            AuditLogEntityType::ProductGroup => Some(&self.product_groups),
            AuditLogEntityType::ProductBatch => Some(&self.product_batches),
            AuditLogEntityType::Product => Some(&self.products),
            AuditLogEntityType::Item => Some(&self.items),
            AuditLogEntityType::Unknown => None,
        }
    }

    /// `self` is `before` with one record appended to the partition of `t`,
    /// about `entity_id`, for `action`, with the given change maps.
    pub open spec fn logged(
        &self,
        before: LogStore,
        t: AuditLogEntityType,
        entity_id: u128,
        action: AuditLogAction,
        old_values: Option<Seq<(Seq<char>, Seq<char>)>>,
        new_values: Option<Seq<(Seq<char>, Seq<char>)>>,
    ) -> bool {
        let l = self.partition(t).last();
        &&& self.partition(t).len() > 0
        &&& self.appended(before, t, l)
        &&& l.entity_type == t
        &&& l.entity_id == entity_id
        &&& l.action == action
        &&& values_view(l.old_values) == old_values
        &&& values_view(l.new_values) == new_values
    }

    /// Total number of records over all partitions.
    pub open spec fn total(&self) -> nat {
        self.users@.len() + self.tenants@.len() + self.locations@.len() + self.product_groups@.len()
            + self.product_batches@.len() + self.products@.len() + self.items@.len()
    }
}

/// In-memory document store: one collection per entity kind and one log
/// partition per entity kind. Every operation takes it explicitly.
pub struct Database {
    pub tenants: Vec<Tenant>,
    pub locations: Vec<Location>,
    pub users: Vec<User>,
    pub logs: LogStore,
}

impl Database {
    /// Identifiers are unique within each entity collection.
    pub open spec fn wf(&self) -> bool {
        &&& unique_keys(tenant_ids(self.tenants@))
        &&& unique_keys(location_ids(self.locations@))
        &&& unique_keys(user_ids(self.users@))
    }

    /// An empty store.
    pub fn new() -> (r: Self)
        ensures
            r.wf(),
            r.tenants@ == Seq::<Tenant>::empty(),
            r.locations@ == Seq::<Location>::empty(),
            r.users@ == Seq::<User>::empty(),
            forall|t: AuditLogEntityType| #[trigger] r.logs.partition(t) == Seq::<AuditLog>::empty(),
    {
        Database {
            tenants: Vec::new(),
            locations: Vec::new(),
            users: Vec::new(),
            logs: LogStore {
                users: Vec::new(),
                tenants: Vec::new(),
                locations: Vec::new(),
                product_groups: Vec::new(),
                product_batches: Vec::new(),
                products: Vec::new(),
                items: Vec::new(),
            },
        }
    }
}

} // verus!
