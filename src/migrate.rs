//! Backing up and migrating the Memos database before the server starts.
use crate::num::{decimal, push_decimal};
use chrono::{Datelike, Timelike};
use vstd::prelude::*;
use vstd::string::*;

verus! {

/// A local date and time, as the calendar shows it.
#[derive(Clone, Copy, Debug, PartialEq, Eq)]
pub struct Stamp {
    pub year: i32,
    pub month: u32,
    pub day: u32,
    pub hour: u32,
    pub minute: u32,
    pub second: u32,
}

impl Stamp {
    /// The fields lie in their calendar ranges.
    pub open spec fn wf(&self) -> bool {
        1 <= self.month <= 12 && 1 <= self.day <= 31 && self.hour < 24 && self.minute < 60
            && self.second < 60
    }
}

/// Relies on `chrono::Local::now` and the `Datelike` / `Timelike` getters:
/// month from 1 to 12, day from 1 to 31, hour from 0 to 23, minute and
/// second from 0 to 59.
#[verifier::external_body]
fn local_now() -> (r: Stamp)
    ensures
        r.wf(),
{
    let t = chrono::Local::now();
    Stamp {
        year: t.year(),
        month: t.month(),
        day: t.day(),
        hour: t.hour(),
        minute: t.minute(),
        second: t.second(),
    }
}

/// The year as four digits, with a sign before years outside 0 to 9999.
pub open spec fn year_text(y: int) -> Seq<char> {
    if y < 0 {
        seq!['-'] + decimal((-y) as nat, 4)
    } else if y > 9999 {
        seq!['+'] + decimal(y as nat, 4)
    } else {
        decimal(y as nat, 4)
    }
}

/// `YYYYmmdd-HHMMSS`.
pub open spec fn stamp_text(t: Stamp) -> Seq<char> {
    year_text(t.year as int) + decimal(t.month as nat, 2) + decimal(t.day as nat, 2) + seq!['-']
        + decimal(t.hour as nat, 2) + decimal(t.minute as nat, 2) + decimal(t.second as nat, 2)
}

/// `db-{stamp}-pre-migration.zst.zip`.
pub open spec fn backup_name(t: Stamp) -> Seq<char> {
    seq!['d', 'b', '-'] + stamp_text(t) + "-pre-migration.zst.zip"@
}

/// The name of the archive that holds the database as it was before the
/// migrations of the given moment.
pub fn backup_file_name(t: &Stamp) -> (r: String)
    ensures
        r@ == backup_name(*t),
{
    proof {
        reveal_strlit("db-");
        reveal_strlit("-");
        reveal_strlit("+");
        assert("db-"@ =~= seq!['d', 'b', '-']);
        assert("-"@ =~= seq!['-']);
        assert("+"@ =~= seq!['+']);
    }
    let mut r = String::from_str("db-");
    if t.year < 0 {
        r.append("-");
        let y: u32 = (0i64 - t.year as i64) as u32;
        push_decimal(&mut r, y, 4);
    } else if t.year > 9999 {
        r.append("+");
        push_decimal(&mut r, t.year as u32, 4);
    } else {
        push_decimal(&mut r, t.year as u32, 4);
    }
    push_decimal(&mut r, t.month, 2);
    push_decimal(&mut r, t.day, 2);
    r.append("-");
    push_decimal(&mut r, t.hour, 2);
    push_decimal(&mut r, t.minute, 2);
    push_decimal(&mut r, t.second, 2);
    r.append("-pre-migration.zst.zip");
    assert(r@ =~= backup_name(*t));
    r
}

/// What the start-up knows of the database before any step.
#[derive(Clone, Copy, Debug, PartialEq, Eq)]
pub struct MigrationSettings {
    pub migrations_enabled: bool,
    pub backups_enabled: bool,
    pub db_exists: bool,
}

/// What a step of the migration run reports back.
#[derive(Clone, Copy, Debug, PartialEq, Eq)]
pub enum MigrationEvent {
    /// Nothing has been done yet.
    Start,
    /// A short-lived connection counted this many pending migrations, and was closed.
    Counted(usize),
    /// The backup was attempted; it may have failed, which never blocks the migration.
    BackupFinished,
    /// A fresh connection applied the pending migrations, or failed to.
    Applied(bool),
}

/// Where a migration run ends.
#[derive(Clone, Copy, Debug, PartialEq, Eq)]
pub enum MigrationOutcome {
    Disabled,
    NoDatabase,
    UpToDate,
    Migrated,
    MigrateFailed,
}

/// The next thing to do.
#[derive(Debug)]
pub enum MigrationAction {
    /// Open a connection, count the pending migrations, close it.
    CountPending,
    /// Archive the database file and its `-wal` and `-shm` siblings into the
    /// backups directory under this name.
    Backup { stamp: Stamp, file_name: String },
    /// Open a fresh connection and apply every pending migration.
    Apply,
    /// The run is over.
    Stop(MigrationOutcome),
}

/// The kind of an action, without its data.
#[derive(Clone, Copy, Debug, PartialEq, Eq)]
pub enum StepKind {
    CountPending,
    Backup,
    Apply,
    Stop(MigrationOutcome),
}

/// The kind of an action.
pub open spec fn kind_of(a: MigrationAction) -> StepKind {
    match a {
        MigrationAction::CountPending => StepKind::CountPending,
        MigrationAction::Backup { .. } => StepKind::Backup,
        MigrationAction::Apply => StepKind::Apply,
        MigrationAction::Stop(o) => StepKind::Stop(o),
    }
}

/// The action that follows an event: disabled migrations and a missing
/// database end the run at once; otherwise the pending migrations are
/// counted; none ends the run; some are backed up first where backups are
/// enabled, then applied; a failed apply ends the run with a warning.
pub open spec fn next_step(s: MigrationSettings, e: MigrationEvent) -> StepKind {
    match e {
        MigrationEvent::Start => if !s.migrations_enabled {
            StepKind::Stop(MigrationOutcome::Disabled)
        } else if !s.db_exists {
            StepKind::Stop(MigrationOutcome::NoDatabase)
        } else {
            StepKind::CountPending
        },
        MigrationEvent::Counted(n) => if n == 0 {
            StepKind::Stop(MigrationOutcome::UpToDate)
        } else if s.backups_enabled {
            StepKind::Backup
        } else {
            StepKind::Apply
        },
        MigrationEvent::BackupFinished => StepKind::Apply,
        MigrationEvent::Applied(ok) => if ok {
            StepKind::Stop(MigrationOutcome::Migrated)
        } else {
            StepKind::Stop(MigrationOutcome::MigrateFailed)
        },
    }
}

/// Decides the next step of the migration run; a backup is named after the
/// current local time.
pub fn migrate_database(s: MigrationSettings, e: MigrationEvent) -> (r: MigrationAction)
    ensures
        kind_of(r) == next_step(s, e),
        r matches MigrationAction::Backup { stamp, file_name } ==> stamp.wf() && file_name@
            == backup_name(stamp),
{
    match e {
        MigrationEvent::Start => if !s.migrations_enabled {
            MigrationAction::Stop(MigrationOutcome::Disabled)
        } else if !s.db_exists {
            MigrationAction::Stop(MigrationOutcome::NoDatabase)
        } else {
            MigrationAction::CountPending
        },
        MigrationEvent::Counted(n) => if n == 0 {
            MigrationAction::Stop(MigrationOutcome::UpToDate)
        } else if s.backups_enabled {
            let stamp = local_now();
            let file_name = backup_file_name(&stamp);
            MigrationAction::Backup { stamp, file_name }
        } else {
            MigrationAction::Apply
        },
        MigrationEvent::BackupFinished => MigrationAction::Apply,
        MigrationEvent::Applied(ok) => if ok {
            MigrationAction::Stop(MigrationOutcome::Migrated)
        } else {
            MigrationAction::Stop(MigrationOutcome::MigrateFailed)
        },
    }
}

/// The steps of a whole run, fed with the events that the steps report:
/// `pending` migrations counted, and an apply that succeeds where `apply_ok`.
pub open spec fn run(s: MigrationSettings, pending: usize, apply_ok: bool) -> Seq<StepKind> {
    let a0 = next_step(s, MigrationEvent::Start);
    if a0 != StepKind::CountPending {
        seq![a0]
    } else {
        let a1 = next_step(s, MigrationEvent::Counted(pending));
        let last = next_step(s, MigrationEvent::Applied(apply_ok));
        if a1 == StepKind::Backup {
            seq![a0, a1, next_step(s, MigrationEvent::BackupFinished), last]
        } else if a1 == StepKind::Apply {
            seq![a0, a1, last]
        } else {
            seq![a0, a1]
        }
    }
}

/// With pending migrations on an existing database and backups enabled, a
/// run backs up exactly once, and before it applies; with no pending
/// migration it neither backs up nor applies.
pub proof fn lemma_backup_before_migration(s: MigrationSettings, pending: usize, apply_ok: bool)
    ensures
        s.migrations_enabled && s.db_exists && s.backups_enabled && pending > 0 ==> {
            let t = run(s, pending, apply_ok);
            &&& t.filter(|k: StepKind| k == StepKind::Backup).len() == 1
            &&& t[1] == StepKind::Backup
            &&& t[2] == StepKind::Apply
            &&& forall|i: int| 0 <= i < 2 ==> t[i] != StepKind::Apply
        },
        pending == 0 ==> forall|i: int|
            0 <= i < run(s, pending, apply_ok).len() ==> run(s, pending, apply_ok)[i]
                != StepKind::Backup && run(s, pending, apply_ok)[i] != StepKind::Apply,
{
    let t = run(s, pending, apply_ok);
    if s.migrations_enabled && s.db_exists && s.backups_enabled && pending > 0 {
        reveal_with_fuel(Seq::filter, 5);
        assert(t =~= seq![StepKind::CountPending, StepKind::Backup, StepKind::Apply, next_step(s, MigrationEvent::Applied(apply_ok))]);
        assert(t.drop_last() =~= seq![StepKind::CountPending, StepKind::Backup, StepKind::Apply]);
        assert(t.drop_last().drop_last() =~= seq![StepKind::CountPending, StepKind::Backup]);
        assert(t.drop_last().drop_last().drop_last() =~= seq![StepKind::CountPending]);
        assert(t.drop_last().drop_last().drop_last().drop_last() =~= Seq::<StepKind>::empty());
    }
}

} // verus!
