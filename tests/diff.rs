use shelfwatcher::diff::{diff_fields, FieldValue, HIDDEN};

fn field(name: &str, value: &str, redact: bool) -> FieldValue {
    FieldValue { name: name.to_string(), value: value.to_string(), redact }
}

fn pairs(v: &[(String, String)]) -> Vec<(&str, &str)> {
    v.iter().map(|(a, b)| (a.as_str(), b.as_str())).collect()
}

fn user(email: &str, hash: &str, first: &str) -> Vec<FieldValue> {
    vec![field("email", email, false), field("password", hash, true), field("firstName", first, false)]
}

#[test]
fn identical_snapshots_give_empty_diff() {
    let d = diff_fields(&user("a@x", "h1", "Ann"), &user("a@x", "h1", "Ann"));
    assert!(d.is_empty());
    assert!(d.old_values.is_empty());
    assert!(d.new_values.is_empty());
}

#[test]
fn redacted_change_shows_hidden_on_both_sides() {
    let d = diff_fields(&user("a@x", "h1", "Ann"), &user("a@x", "h2", "Ann"));
    assert_eq!(pairs(&d.old_values), vec![("password", "HIDDEN")]);
    assert_eq!(pairs(&d.new_values), vec![("password", "HIDDEN")]);
    assert_eq!(HIDDEN, "HIDDEN");
}

#[test]
fn only_changed_fields_are_recorded() {
    let d = diff_fields(&user("a@x", "h1", "Ann"), &user("b@x", "h1", "Anna"));
    assert_eq!(pairs(&d.old_values), vec![("email", "a@x"), ("firstName", "Ann")]);
    assert_eq!(pairs(&d.new_values), vec![("email", "b@x"), ("firstName", "Anna")]);
    assert!(!d.is_empty());
}

#[test]
fn empty_snapshots_give_empty_diff() {
    let d = diff_fields(&Vec::new(), &Vec::new());
    assert!(d.is_empty());
}
