use vstd::prelude::*;

verus! {

/// Text that stands for the value of a sensitive field in both maps of a
/// change record.
pub const HIDDEN: &'static str = "HIDDEN";

/// One mutable field of an entity snapshot, in display form, with its
/// redaction flag.
pub struct FieldValue {
    pub name: String,
    pub value: String,
    pub redact: bool,
}

/// The fields that changed between two snapshots: field name to value before,
/// and field name to value after, in the order the fields are declared.
pub struct FieldChanges {
    pub old_values: Vec<(String, String)>,
    pub new_values: Vec<(String, String)>,
}

pub open spec fn pair_view(p: (String, String)) -> (Seq<char>, Seq<char>) {
    (p.0@, p.1@)
}

pub open spec fn pairs_view(v: Seq<(String, String)>) -> Seq<(Seq<char>, Seq<char>)> {
    v.map_values(|p: (String, String)| pair_view(p))
}

/// A field as the diff sees it: name, display value, redaction flag.
pub open spec fn field_view(f: FieldValue) -> (Seq<char>, Seq<char>, bool) {
    (f.name@, f.value@, f.redact)
}

pub open spec fn fields_view(v: Seq<FieldValue>) -> Seq<(Seq<char>, Seq<char>, bool)> {
    v.map_values(|f: FieldValue| field_view(f))
}

/// What a field shows in a change record: its value, or `HIDDEN`.
pub open spec fn shown(f: (Seq<char>, Seq<char>, bool)) -> Seq<char> {
    if f.2 {
        HIDDEN@
    } else {
        f.1
    }
}

/// Two snapshots of the same entity kind: the same fields, in the same
/// order, with the same redaction flags.
pub open spec fn same_shape(
    old: Seq<(Seq<char>, Seq<char>, bool)>,
    new: Seq<(Seq<char>, Seq<char>, bool)>,
) -> bool {
    &&& old.len() == new.len()
    &&& forall|i: int| 0 <= i < old.len() ==> (#[trigger] old[i]).0 == new[i].0 && old[i].2 == new[i].2
}

/// The entries, for the first `n` fields, that a change record holds on one
/// side: `side` picks the old snapshot (`true`) or the new one.
pub open spec fn changed(
    old: Seq<(Seq<char>, Seq<char>, bool)>,
    new: Seq<(Seq<char>, Seq<char>, bool)>,
    n: nat,
    side: bool,
) -> Seq<(Seq<char>, Seq<char>)>
    decreases n,
{
    if n == 0 {
        seq![]
    } else {
        let prev = changed(old, new, (n - 1) as nat, side);
        let i = n - 1;
        if old[i].1 != new[i].1 {
            let f = if side {
                old[i]
            } else {
                new[i]
            };
            prev.push((f.0, shown(f)))
        } else {
            prev
        }
    }
}

/// The old-value map of the change record of two snapshots.
pub open spec fn old_changes(
    old: Seq<(Seq<char>, Seq<char>, bool)>,
    new: Seq<(Seq<char>, Seq<char>, bool)>,
) -> Seq<(Seq<char>, Seq<char>)> {
    changed(old, new, old.len(), true)
}

/// The new-value map of the change record of two snapshots.
pub open spec fn new_changes(
    old: Seq<(Seq<char>, Seq<char>, bool)>,
    new: Seq<(Seq<char>, Seq<char>, bool)>,
) -> Seq<(Seq<char>, Seq<char>)> {
    changed(old, new, old.len(), false)
}

impl FieldChanges {
    /// No field changed.
    pub fn is_empty(&self) -> (r: bool)
        ensures
            r == (self.new_values@.len() == 0),
    {
        self.new_values.len() == 0
    }
}

fn shown_value(f: &FieldValue) -> (r: String)
    ensures
        r@ == shown(field_view(*f)),
{
    if f.redact {
        HIDDEN.to_string()
    } else {
        f.value.clone()
    }
}

/// Compares two snapshots field by field and records, for each field whose
/// display value differs, its name and value on both sides; a sensitive
/// field is recorded as `HIDDEN` on both sides.
pub fn diff_fields(old: &Vec<FieldValue>, new: &Vec<FieldValue>) -> (r: FieldChanges)
    requires
        same_shape(fields_view(old@), fields_view(new@)),
    ensures
        pairs_view(r.old_values@) == old_changes(fields_view(old@), fields_view(new@)),
        pairs_view(r.new_values@) == new_changes(fields_view(old@), fields_view(new@)),
        r.old_values@.len() == r.new_values@.len(),
{
    let mut old_values: Vec<(String, String)> = Vec::new();
    let mut new_values: Vec<(String, String)> = Vec::new();
    let mut i: usize = 0;
    while i < old.len()
        invariant
            same_shape(fields_view(old@), fields_view(new@)),
            i <= old@.len(),
            pairs_view(old_values@) == changed(fields_view(old@), fields_view(new@), i as nat, true),
            pairs_view(new_values@) == changed(fields_view(old@), fields_view(new@), i as nat, false),
            old_values@.len() == new_values@.len(),
        decreases old@.len() - i,
    {
        let o = &old[i];
        let n = &new[i];
        assert(fields_view(old@)[i as int] == field_view(*o));
        assert(fields_view(new@)[i as int] == field_view(*n));
        if o.value != n.value {
            let po = (o.name.clone(), shown_value(o));
            let pn = (n.name.clone(), shown_value(n));
            proof {
                assert(pairs_view(old_values@.push(po)) =~= pairs_view(old_values@).push(
                    pair_view(po),
                ));
                assert(pairs_view(new_values@.push(pn)) =~= pairs_view(new_values@).push(
                    pair_view(pn),
                ));
            }
            old_values.push(po);
            new_values.push(pn);
        }
        i = i + 1;
    }
    FieldChanges { old_values, new_values }
}

/// Diffing a snapshot against one with the same display values yields empty
/// maps on both sides.
pub proof fn lemma_diff_identical(old: Seq<(Seq<char>, Seq<char>, bool)>, new: Seq<(Seq<char>, Seq<char>, bool)>)
    requires
        same_shape(old, new),
        forall|i: int| 0 <= i < old.len() ==> (#[trigger] old[i]).1 == new[i].1,
    ensures
        old_changes(old, new) == Seq::<(Seq<char>, Seq<char>)>::empty(),
        new_changes(old, new) == Seq::<(Seq<char>, Seq<char>)>::empty(),
{
    lemma_unchanged_prefix(old, new, old.len(), true);
    lemma_unchanged_prefix(old, new, old.len(), false);
}

proof fn lemma_unchanged_prefix(old: Seq<(Seq<char>, Seq<char>, bool)>, new: Seq<(Seq<char>, Seq<char>, bool)>, n: nat, side: bool)
    requires
        n <= old.len(),
        old.len() == new.len(),
        forall|i: int| 0 <= i < n ==> (#[trigger] old[i]).1 == new[i].1,
    ensures
        changed(old, new, n, side) == Seq::<(Seq<char>, Seq<char>)>::empty(),
    decreases n,
{
    if n > 0 {
        lemma_unchanged_prefix(old, new, (n - 1) as nat, side);
    }
}

/// Diffing snapshots that differ only in the sensitive field `k` yields, on
/// each side, exactly that field mapped to `HIDDEN`.
pub proof fn lemma_diff_redacted_only(old: Seq<(Seq<char>, Seq<char>, bool)>, new: Seq<(Seq<char>, Seq<char>, bool)>, k: int)
    requires
        same_shape(old, new),
        0 <= k < old.len(),
        old[k].2,
        old[k].1 != new[k].1,
        forall|i: int| 0 <= i < old.len() && i != k ==> (#[trigger] old[i]).1 == new[i].1,
    ensures
        old_changes(old, new) == seq![(old[k].0, HIDDEN@)],
        new_changes(old, new) == seq![(old[k].0, HIDDEN@)],
{
    lemma_redacted_prefix(old, new, k, old.len(), true);
    lemma_redacted_prefix(old, new, k, old.len(), false);
}

proof fn lemma_redacted_prefix(
    old: Seq<(Seq<char>, Seq<char>, bool)>,
    new: Seq<(Seq<char>, Seq<char>, bool)>,
    k: int,
    n: nat,
    side: bool,
)
    requires
        same_shape(old, new),
        0 <= k < n <= old.len(),
        old[k].2,
        old[k].1 != new[k].1,
        forall|i: int| 0 <= i < old.len() && i != k ==> (#[trigger] old[i]).1 == new[i].1,
    ensures
        changed(old, new, n, side) == seq![(old[k].0, HIDDEN@)],
    decreases n,
{
    if n == k + 1 {
        lemma_unchanged_prefix(old, new, k as nat, side);
        assert(old[k].0 == new[k].0);
        assert(changed(old, new, n, side) =~= seq![(old[k].0, HIDDEN@)]);
    } else {
        lemma_redacted_prefix(old, new, k, (n - 1) as nat, side);
        assert(old[n - 1].1 == new[n - 1].1);
    }
}

} // verus!
