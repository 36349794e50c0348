//! Schema migrations of the database: which ones to run, and how the authority models move
//! between their schemas.

use vstd::prelude::*;

verus! {

/// The known migrations.
#[derive(Debug, Clone, Copy, PartialEq, Eq, Structural)]
pub enum Migration {
    /// Moves authority models from positional to named fields.
    M0,
}

/// The direction in which to run migrations.
#[derive(Debug, Clone, Copy, PartialEq, Eq)]
pub enum MigrateOp {
    /// Runs the migrations that did not run yet.
    Up,
    /// Runs every migration again.
    UpForce,
    /// Undoes the migrations that ran.
    Down,
    /// Undoes every migration.
    DownForce,
}

/// What to do with a migration.
#[derive(Debug, Clone, Copy, PartialEq, Eq)]
pub enum MigrationAction {
    /// Run it forward, and record it as run.
    RunUp,
    /// Run it backward, and forget that it ran.
    RunDown,
    /// Keep it recorded as run, without running it.
    Keep,
    /// Nothing: it stays unrecorded.
    Skip,
}

/// What to do with a migration, given whether it already ran: a forced run goes up or down
/// regardless; an unforced run goes up only for migrations that did not run, down only for those
/// that did; an unforced up keeps the migrations that already ran recorded.
pub open spec fn spec_migration_action(already_run: bool, op: MigrateOp) -> MigrationAction {
    match (already_run, op) {
        (_, MigrateOp::UpForce) => MigrationAction::RunUp,
        (false, MigrateOp::Up) => MigrationAction::RunUp,
        (_, MigrateOp::DownForce) => MigrationAction::RunDown,
        (true, MigrateOp::Down) => MigrationAction::RunDown,
        (true, MigrateOp::Up) => MigrationAction::Keep,
        _ => MigrationAction::Skip,
    }
}

/// What to do with a migration.
pub fn migration_action(already_run: bool, op: MigrateOp) -> (action: MigrationAction)
    ensures
        action == spec_migration_action(already_run, op),
{
    match (already_run, op) {
        (_, MigrateOp::UpForce) | (false, MigrateOp::Up) => MigrationAction::RunUp,
        (_, MigrateOp::DownForce) | (true, MigrateOp::Down) => MigrationAction::RunDown,
        (true, MigrateOp::Up) => MigrationAction::Keep,
        _ => MigrationAction::Skip,
    }
}

/// After an up run every migration is recorded as run; after a down run none is.
pub proof fn law_migration_runs(already_run: bool)
    ensures
        spec_migration_action(already_run, MigrateOp::Up) != MigrationAction::Skip,
        spec_migration_action(already_run, MigrateOp::Up) != MigrationAction::RunDown,
        spec_migration_action(already_run, MigrateOp::Down) != MigrationAction::RunUp,
        spec_migration_action(already_run, MigrateOp::Down) != MigrationAction::Keep,
        spec_migration_action(already_run, MigrateOp::UpForce) == MigrationAction::RunUp,
        spec_migration_action(already_run, MigrateOp::DownForce) == MigrationAction::RunDown,
{
}

/// Every known migration, in the order they run.
pub open spec fn spec_all_migrations() -> Seq<Migration> {
    seq![Migration::M0]
}

/// Every known migration, in the order they run.
pub fn all_migrations() -> (all: Vec<Migration>)
    ensures
        all@ == spec_all_migrations(),
{
    let mut all = Vec::new();
    all.push(Migration::M0);
    assert(all@ =~= spec_all_migrations());
    all
}

/// One migration run in one direction.
#[derive(Debug, Clone, Copy, PartialEq, Eq)]
pub enum MigrationRun {
    /// The migration is run forward.
    Up(Migration),
    /// The migration is run backward.
    Down(Migration),
}

/// What a migration command does: the migrations it runs, in order, and the history it records
/// once they all ran.
#[derive(Debug, Clone, PartialEq, Eq)]
pub struct MigrationPlan {
    /// The runs, in order.
    pub runs: Vec<MigrationRun>,
    /// The migrations recorded as run afterwards.
    pub history: Vec<Migration>,
}

/// The runs and the recorded history of a migration command over the migrations `all`, given the
/// migrations recorded as run: each migration is taken in turn and handled by its action.
pub open spec fn spec_plan(
    all: Seq<Migration>,
    ran: Seq<Migration>,
    op: MigrateOp,
) -> (Seq<MigrationRun>, Seq<Migration>)
    decreases all.len(),
{
    if all.len() == 0 {
        (seq![], seq![])
    } else {
        let before = spec_plan(all.drop_last(), ran, op);
        let m = all.last();
        match spec_migration_action(ran.contains(m), op) {
            MigrationAction::RunUp => (before.0.push(MigrationRun::Up(m)), before.1.push(m)),
            MigrationAction::RunDown => (before.0.push(MigrationRun::Down(m)), before.1),
            MigrationAction::Keep => (before.0, before.1.push(m)),
            MigrationAction::Skip => before,
        }
    }
}

/// Whether a migration is among those recorded as run.
fn has_run(ran: &Vec<Migration>, m: Migration) -> (found: bool)
    ensures
        found == ran@.contains(m),
{
    let mut i: usize = 0;
    while i < ran.len()
        invariant
            i <= ran@.len(),
            forall|j: int| 0 <= j < i ==> ran@[j] != m,
        decreases ran@.len() - i,
    {
        if ran[i] == m {
            return true;
        }
        i = i + 1;
    }
    false
}

/// Plans a migration command over the known migrations, given the migrations recorded as run.
pub fn plan_migrations(ran: &Vec<Migration>, op: MigrateOp) -> (plan: MigrationPlan)
    ensures
        (plan.runs@, plan.history@) == spec_plan(spec_all_migrations(), ran@, op),
{
    let all = all_migrations();
    let mut runs: Vec<MigrationRun> = Vec::new();
    let mut history: Vec<Migration> = Vec::new();
    let mut i: usize = 0;
    while i < all.len()
        invariant
            i <= all@.len(),
            all@ == spec_all_migrations(),
            (runs@, history@) == spec_plan(all@.take(i as int), ran@, op),
        decreases all@.len() - i,
    {
        let m = all[i];
        proof {
            assert(all@.take(i + 1).drop_last() =~= all@.take(i as int));
        }
        match migration_action(has_run(ran, m), op) {
            MigrationAction::RunUp => {
                runs.push(MigrationRun::Up(m));
                history.push(m);
            },
            MigrationAction::RunDown => {
                runs.push(MigrationRun::Down(m));
            },
            MigrationAction::Keep => {
                history.push(m);
            },
            MigrationAction::Skip => {},
        }
        i = i + 1;
    }
    assert(all@.take(all@.len() as int) =~= all@);
    MigrationPlan { runs, history }
}

/// An up run, forced or not, leaves every migration recorded as run; a down run, forced or not,
/// leaves none recorded.
pub proof fn law_migration_history(all: Seq<Migration>, ran: Seq<Migration>)
    ensures
        spec_plan(all, ran, MigrateOp::Up).1 == all,
        spec_plan(all, ran, MigrateOp::UpForce).1 == all,
        spec_plan(all, ran, MigrateOp::Down).1 == Seq::<Migration>::empty(),
        spec_plan(all, ran, MigrateOp::DownForce).1 == Seq::<Migration>::empty(),
    decreases all.len(),
{
    if all.len() > 0 {
        law_migration_history(all.drop_last(), ran);
        assert(all.drop_last().push(all.last()) =~= all);
    }
}

/// An unforced up run runs nothing when every migration is already recorded as run, and an
/// unforced down run runs nothing when none is.
pub proof fn law_nothing_left_to_run(all: Seq<Migration>, ran: Seq<Migration>)
    ensures
        (forall|i: int| 0 <= i < all.len() ==> ran.contains(#[trigger] all[i])) ==> spec_plan(
            all,
            ran,
            MigrateOp::Up,
        ).0.len() == 0,
        (forall|i: int| 0 <= i < all.len() ==> !ran.contains(#[trigger] all[i])) ==> spec_plan(
            all,
            ran,
            MigrateOp::Down,
        ).0.len() == 0,
    decreases all.len(),
{
    if all.len() > 0 {
        law_nothing_left_to_run(all.drop_last(), ran);
        let shorter = all.drop_last();
        assert(forall|i: int| 0 <= i < shorter.len() ==> shorter[i] == all[i]);
        assert(all.last() == all[all.len() - 1]);
    }
}

/// A second unforced up run, on the history the first one recorded, runs nothing.
pub proof fn law_up_twice_runs_once(all: Seq<Migration>, ran: Seq<Migration>)
    ensures
        spec_plan(all, spec_plan(all, ran, MigrateOp::Up).1, MigrateOp::Up).0.len() == 0,
{
    law_migration_history(all, ran);
    assert(forall|i: int| 0 <= i < all.len() ==> all.contains(#[trigger] all[i]));
    law_nothing_left_to_run(all, all);
}

/// The authority model in its positional schema, before the first migration.
#[derive(Debug, Clone, PartialEq, Eq)]
pub enum OriginDeviceAuthorityModel {
    /// The owner.
    Exclusive(String),
    /// The owner and the guests.
    Shared(String, Vec<String>),
    /// The owner and the folks who added themselves.
    Public(String, Vec<String>),
}

/// The authority model in its named schema, after the first migration.
#[derive(Debug, Clone, PartialEq, Eq)]
pub enum TargetDeviceAuthorityModel {
    /// The owner.
    Exclusive {
        /// The owner.
        owner: String,
    },
    /// The owner and the guests.
    Shared {
        /// The owner.
        owner: String,
        /// The guests.
        guests: Vec<String>,
    },
    /// The owner and the folks who added themselves.
    Public {
        /// The owner.
        owner: String,
        /// The folks who added themselves.
        guests: Vec<String>,
    },
}

/// The kind of an authority model and its owner, the part that both schemas carry over.
pub enum OwnedModel {
    /// An exclusive model.
    Exclusive(Seq<char>),
    /// A shared model.
    Shared(Seq<char>),
    /// A public model.
    Public(Seq<char>),
}

/// The kind and owner of a positional model.
pub open spec fn origin_owned(m: OriginDeviceAuthorityModel) -> OwnedModel {
    match m {
        OriginDeviceAuthorityModel::Exclusive(o) => OwnedModel::Exclusive(o@),
        OriginDeviceAuthorityModel::Shared(o, _) => OwnedModel::Shared(o@),
        OriginDeviceAuthorityModel::Public(o, _) => OwnedModel::Public(o@),
    }
}

/// The kind and owner of a named model.
pub open spec fn target_owned(m: TargetDeviceAuthorityModel) -> OwnedModel {
    match m {
        TargetDeviceAuthorityModel::Exclusive { owner } => OwnedModel::Exclusive(owner@),
        TargetDeviceAuthorityModel::Shared { owner, .. } => OwnedModel::Shared(owner@),
        TargetDeviceAuthorityModel::Public { owner, .. } => OwnedModel::Public(owner@),
    }
}

/// The guests of a named model, none for an exclusive one.
pub open spec fn target_guests(m: TargetDeviceAuthorityModel) -> nat {
    match m {
        TargetDeviceAuthorityModel::Exclusive { .. } => 0,
        TargetDeviceAuthorityModel::Shared { guests, .. } => guests@.len(),
        TargetDeviceAuthorityModel::Public { guests, .. } => guests@.len(),
    }
}

/// Moves a model forward: the kind and owner are kept, the guests are dropped.
pub fn migrate_up(model: OriginDeviceAuthorityModel) -> (next: TargetDeviceAuthorityModel)
    ensures
        target_owned(next) == origin_owned(model),
        target_guests(next) == 0,
{
    match model {
        OriginDeviceAuthorityModel::Exclusive(owner) => TargetDeviceAuthorityModel::Exclusive { owner },
        OriginDeviceAuthorityModel::Shared(owner, _) => TargetDeviceAuthorityModel::Shared {
            owner,
            guests: Vec::new(),
        },
        OriginDeviceAuthorityModel::Public(owner, _) => TargetDeviceAuthorityModel::Public {
            owner,
            guests: Vec::new(),
        },
    }
}

/// Moves a model backward: every model becomes exclusive to its owner.
pub fn migrate_down(model: TargetDeviceAuthorityModel) -> (previous: OriginDeviceAuthorityModel)
    ensures
        previous matches OriginDeviceAuthorityModel::Exclusive(owner) && match target_owned(model) {
            OwnedModel::Exclusive(o) => owner@ == o,
            OwnedModel::Shared(o) => owner@ == o,
            OwnedModel::Public(o) => owner@ == o,
        },
{
    match model {
        TargetDeviceAuthorityModel::Exclusive { owner } => OriginDeviceAuthorityModel::Exclusive(owner),
        TargetDeviceAuthorityModel::Shared { owner, .. } => OriginDeviceAuthorityModel::Exclusive(owner),
        TargetDeviceAuthorityModel::Public { owner, .. } => OriginDeviceAuthorityModel::Exclusive(owner),
    }
}

} // verus!
