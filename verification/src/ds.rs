//! Changelog records: the state of one migration unit.

use vstd::prelude::*;

verus! {

#[derive(Clone, Copy, Debug, PartialEq, Eq, Structural)]
pub enum MigrationStatus {
    Pending,
    Applied,
}

impl MigrationStatus {
    /// The string form stored in the changelog collection.
    pub fn as_str(&self) -> (r: &'static str)
        ensures
            *self == MigrationStatus::Pending ==> r@ == "pending"@,
            *self == MigrationStatus::Applied ==> r@ == "applied"@,
    {
        match self {
            MigrationStatus::Pending => "pending",
            MigrationStatus::Applied => "applied",
        }
    }
}

impl Default for MigrationStatus {
    /// A freshly created unit starts out pending.
    fn default() -> (r: Self)
        ensures
            r == MigrationStatus::Pending,
    {
        MigrationStatus::Pending
    }
}

/// One changelog record. `applied_at` is the apply time in milliseconds
/// since the unix epoch; it is set exactly while the record is applied.
#[derive(Clone, Debug, PartialEq)]
pub struct Migration {
    pub name: String,
    pub applied_at: Option<i64>,
    pub status: MigrationStatus,
    pub description: Option<String>,
}

/// The record state invariant: a record is applied exactly when its
/// apply timestamp is set.
pub open spec fn record_wf(m: Migration) -> bool {
    (m.status == MigrationStatus::Applied) <==> (m.applied_at is Some)
}

impl Migration {
    /// A fresh record: pending, never applied, no description yet.
    pub fn new(name: String) -> (r: Migration)
        ensures
            r.name == name,
            r.status == MigrationStatus::Pending,
            r.applied_at is None,
            r.description is None,
            record_wf(r),
    {
        Migration { name, applied_at: None, status: MigrationStatus::Pending, description: None }
    }

    /// The record after a successful apply: applied at the given time,
    /// carrying the description read from the unit's up file.
    pub fn applied(self, applied_at_millis: i64, description: String) -> (r: Migration)
        ensures
            r.name == self.name,
            r.status == MigrationStatus::Applied,
            r.applied_at == Some(applied_at_millis),
            r.description == Some(description),
            record_wf(r),
    {
        Migration {
            name: self.name,
            applied_at: Some(applied_at_millis),
            status: MigrationStatus::Applied,
            description: Some(description),
        }
    }

    /// The record after a successful revert: pending again, the apply
    /// timestamp cleared, the description left as it was.
    pub fn reverted(self) -> (r: Migration)
        ensures
            r.name == self.name,
            r.status == MigrationStatus::Pending,
            r.applied_at is None,
            r.description == self.description,
            record_wf(r),
    {
        Migration {
            name: self.name,
            applied_at: None,
            status: MigrationStatus::Pending,
            description: self.description,
        }
    }
}

} // verus!
