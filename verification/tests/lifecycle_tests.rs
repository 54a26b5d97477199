use momitroll::changelog::{down_target, drop_target, status_order, up_order};
use momitroll::ds::{Migration, MigrationStatus};
use momitroll::engine::{build_name, fresh_name, plan_init};
use momitroll::order::{str_le, str_lt};

#[test]
fn name_order_is_lexicographic() {
    assert!(str_lt("1700000001_a", "1700000002_a"));
    assert!(!str_lt("1700000002_a", "1700000001_a"));
    assert!(!str_lt("1700000001_a", "1700000001_a"));
    assert!(str_lt("", "a"));
    assert!(str_lt("abc", "abcd"));
    assert!(str_le("abc", "abc"));
    assert!(str_le("abb", "abc"));
    assert!(!str_le("abd", "abc"));
}

fn rec(name: &str, status: MigrationStatus, applied_at: Option<i64>) -> Migration {
    Migration {
        name: name.to_string(),
        applied_at,
        status,
        description: None,
    }
}

fn pending(name: &str) -> Migration {
    rec(name, MigrationStatus::Pending, None)
}

fn applied(name: &str, at: i64) -> Migration {
    rec(name, MigrationStatus::Applied, Some(at))
}

#[test]
fn up_processes_older_name_first() {
    // Two units created in order: the earlier timestamp prefix sorts first.
    let n1 = build_name(1700000001, "first");
    let n2 = build_name(1700000002, "second");
    let records = vec![pending(&n2), pending(&n1)];
    let ordered = up_order(records);
    assert_eq!(ordered.len(), 2);
    assert_eq!(ordered[0].name, n1);
    assert_eq!(ordered[1].name, n2);
}

#[test]
fn up_order_sorts_every_record_ascending() {
    let records = vec![
        applied("1700000003_c", 30),
        pending("1700000001_a"),
        applied("1700000002_b", 20),
    ];
    let ordered = up_order(records);
    let names: Vec<&str> = ordered.iter().map(|m| m.name.as_str()).collect();
    assert_eq!(
        names,
        vec!["1700000001_a", "1700000002_b", "1700000003_c"]
    );
}

#[test]
fn status_lists_newest_first() {
    let records = vec![
        pending("1700000001_a"),
        pending("1700000003_c"),
        pending("1700000002_b"),
    ];
    let ordered = status_order(records);
    let names: Vec<&str> = ordered.iter().map(|m| m.name.as_str()).collect();
    assert_eq!(
        names,
        vec!["1700000003_c", "1700000002_b", "1700000001_a"]
    );
}

#[test]
fn init_plan_creates_only_what_is_missing() {
    let first = plan_init(false, false);
    assert!(first.create_dir);
    assert!(first.create_coll);
    // After one run both exist: a second run plans nothing and cannot fail.
    let second = plan_init(true, true);
    assert!(!second.create_dir);
    assert!(!second.create_coll);
    let partial = plan_init(true, false);
    assert!(!partial.create_dir);
    assert!(partial.create_coll);
}

#[test]
fn record_invariant_holds_through_transitions() {
    let m = Migration::new("1700000001_a".to_string());
    assert_eq!(m.status, MigrationStatus::Pending);
    assert_eq!(m.applied_at, None);
    assert_eq!(m.description, None);
    let m = m.applied(1234, "adds users".to_string());
    assert_eq!(m.status, MigrationStatus::Applied);
    assert_eq!(m.applied_at, Some(1234));
    assert_eq!(m.description, Some("adds users".to_string()));
    let m = m.reverted();
    assert_eq!(m.status, MigrationStatus::Pending);
    assert_eq!(m.applied_at, None);
    // The description is left as previously set, not cleared.
    assert_eq!(m.description, Some("adds users".to_string()));
}

#[test]
fn down_with_no_applied_records_is_a_noop() {
    let records = vec![pending("1700000001_a"), pending("1700000002_b")];
    assert_eq!(down_target(&records), None);
    let empty: Vec<Migration> = Vec::new();
    assert_eq!(down_target(&empty), None);
}

#[test]
fn down_targets_most_recently_applied() {
    let records = vec![
        applied("1700000001_a", 100),
        applied("1700000003_c", 300),
        applied("1700000002_b", 200),
        pending("1700000004_d"),
    ];
    assert_eq!(down_target(&records), Some(1));
}

#[test]
fn drop_with_no_pending_records_is_a_noop() {
    let records = vec![applied("1700000001_a", 100)];
    assert_eq!(drop_target(&records), None);
    let empty: Vec<Migration> = Vec::new();
    assert_eq!(drop_target(&empty), None);
}

#[test]
fn drop_targets_only_the_highest_pending_name() {
    // Several pending records: only the newest name is eligible, never
    // an older pending one.
    let records = vec![
        pending("1700000001_a"),
        pending("1700000004_d"),
        pending("1700000002_b"),
        applied("1700000009_z", 900),
    ];
    assert_eq!(drop_target(&records), Some(1));
}

#[test]
fn create_then_drop_restores_the_changelog() {
    let mut records = vec![
        applied("1700000001_a", 100),
        pending("1700000002_b"),
    ];
    let count_before = records.len();
    // A freshly created unit carries a later timestamp than everything
    // before it, so its name sorts last.
    let fresh = Migration::new(build_name(1700000009, "fresh"));
    records.push(fresh.clone());
    let target = drop_target(&records).expect("a pending record exists");
    assert_eq!(records[target].name, fresh.name);
    records.remove(target);
    assert_eq!(records.len(), count_before);
    assert_eq!(records[0].name, "1700000001_a");
    assert_eq!(records[1].name, "1700000002_b");
}

#[test]
fn full_lifecycle_scenario() {
    // Empty changelog; create "alpha".
    let mut records: Vec<Migration> = Vec::new();
    records.push(Migration::new(build_name(1700000000, "alpha")));

    // status: one record, pending, no apply time.
    let listed = status_order(records.clone());
    assert_eq!(listed.len(), 1);
    assert_eq!(listed[0].status, MigrationStatus::Pending);
    assert_eq!(listed[0].applied_at, None);

    // up: the record becomes applied, stamped, with the up file's description.
    let up_file = momitroll::content::DocValue::Obj(vec![
        (
            "description".to_string(),
            momitroll::content::DocValue::Text("creates the users collection".to_string()),
        ),
        (
            "commands".to_string(),
            momitroll::content::DocValue::Arr(Vec::new()),
        ),
    ]);
    let content = momitroll::content::parse_content(up_file).expect("a valid up file");
    let target = records.remove(0);
    records.insert(0, target.applied(42_000, content.description));
    let listed = status_order(records.clone());
    assert_eq!(listed[0].status, MigrationStatus::Applied);
    assert_eq!(listed[0].applied_at, Some(42_000));
    assert_eq!(
        listed[0].description,
        Some("creates the users collection".to_string())
    );

    // down: pending again, the apply time cleared.
    let idx = down_target(&records).expect("one applied record");
    let reverted = records.remove(idx);
    records.insert(idx, reverted.reverted());
    let listed = status_order(records);
    assert_eq!(listed[0].status, MigrationStatus::Pending);
    assert_eq!(listed[0].applied_at, None);
}

#[test]
fn fresh_name_carries_the_slug_behind_a_timestamp() {
    let name = fresh_name("add_users").expect("clock is past the epoch");
    assert!(name.ends_with("_add_users"));
    let prefix = &name[..name.len() - "_add_users".len()];
    assert!(!prefix.is_empty());
    assert!(prefix.chars().all(|c| c.is_ascii_digit()));
}
