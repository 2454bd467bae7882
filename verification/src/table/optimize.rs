//! Optimizing a table: compacting its files, pruning its old versions and
//! bringing its indices up to date, and in which order.

use vstd::prelude::*;

verus! {

/// The number of days after which [`OptimizeAction::All`] prunes a version.
pub const PRUNE_AFTER_DAYS: i64 = 7;

/// The number of seconds in a day.
pub const SECS_PER_DAY: i64 = 86_400;

/// The most days that a [`Duration`] can span, in either direction.
pub const MAX_DAYS: i64 = 106_751_991_167;

/// A span of time: whole seconds, and the nanoseconds beyond them.
#[derive(Clone, Copy, Debug, PartialEq, Eq, Structural)]
pub struct Duration {
    pub secs: i64,
    pub nanos: i32,
}

/// The span of `days` days.
pub open spec fn spec_days(days: i64) -> Duration {
    Duration { secs: (days * SECS_PER_DAY) as i64, nanos: 0 }
}

/// Calls `chrono::TimeDelta::days` and reads the span back with
/// `num_seconds` and `subsec_nanos`. Claimed, and not proved: the span of
/// `days` days is `days` times 86 400 whole seconds and no nanoseconds
/// beyond them. The call panics where the span is out of range, which is
/// where its milliseconds do not fit in 64 bits; `requires` keeps to the
/// days that are in range.
#[verifier::external_body]
fn span_of_days(days: i64) -> (d: Duration)
    requires
        -MAX_DAYS <= days <= MAX_DAYS,
    ensures
        d == spec_days(days),
{
    let delta = chrono::TimeDelta::days(days);
    Duration { secs: delta.num_seconds(), nanos: delta.subsec_nanos() }
}

impl Duration {
    /// A span of `days` days, where that is in range.
    pub fn try_days(days: i64) -> (r: Option<Duration>)
        ensures
            r is Some <==> -MAX_DAYS <= days <= MAX_DAYS,
            r matches Some(d) ==> d == spec_days(days) && d.secs == days * SECS_PER_DAY,
    {
        if -MAX_DAYS <= days && days <= MAX_DAYS {
            Some(span_of_days(days))
        } else {
            None
        }
    }

    /// A span of `days` days.
    pub fn days(days: i64) -> (d: Duration)
        requires
            -MAX_DAYS <= days <= MAX_DAYS,
        ensures
            d == spec_days(days),
            d.secs == days * SECS_PER_DAY,
    {
        span_of_days(days)
    }
}

/// Optimize the dataset.
///
/// The options of the compaction, of its index remapping and of the index
/// optimization are those of the dataset layer and are handed on as they
/// are.
#[derive(Clone, Debug, PartialEq, Eq)]
pub enum OptimizeAction<C, R, I> {
    /// Run every optimization, in order and with default options: compact,
    /// prune the versions older than seven days, optimize the indices.
    All,
    /// Compact files in the dataset.
    Compact { options: C, remap_options: Option<R> },
    /// Prune old versions of the dataset.
    Prune {
        /// Versions older than this are removed.
        older_than: Duration,
        /// Because they may be part of an in-progress transaction, files
        /// newer than 7 days old are not deleted by default. Where no
        /// transaction is in progress, setting this to true deletes all
        /// files older than `older_than`.
        delete_unverified: Option<bool>,
    },
    /// Optimize the indices.
    Index(I),
}

impl<C, R, I> Default for OptimizeAction<C, R, I> {
    fn default() -> (r: Self)
        ensures
            r is All,
    {
        OptimizeAction::All
    }
}

/// One call into the dataset layer. Options that are `None` stand for the
/// defaults of that layer.
#[derive(Clone, Debug, PartialEq, Eq)]
pub enum OptimizeStep<C, R, I> {
    Compact { options: Option<C>, remap_options: Option<R> },
    Prune { older_than: Duration, delete_unverified: Option<bool> },
    Index(Option<I>),
}

/// What one step of an optimization has done: the metrics of a compaction,
/// the statistics of a pruning. Optimizing the indices reports nothing.
#[derive(Clone, Debug, PartialEq, Eq)]
pub enum StepOutcome<M, S> {
    Compacted(M),
    Pruned(S),
    Indexed,
}

/// Statistics about the optimization.
#[derive(Clone, Debug, PartialEq, Eq)]
pub struct OptimizeStats<M, S> {
    /// Stats of the file compaction.
    pub compaction: Option<M>,
    /// Stats of the version pruning.
    pub prune: Option<S>,
}

/// The steps that `action` is carried out in.
pub open spec fn spec_steps<C, R, I>(action: OptimizeAction<C, R, I>) -> Seq<
    OptimizeStep<C, R, I>,
> {
    match action {
        OptimizeAction::All => seq![
            OptimizeStep::Compact { options: None, remap_options: None },
            OptimizeStep::Prune {
                older_than: spec_days(PRUNE_AFTER_DAYS),
                delete_unverified: None,
            },
            OptimizeStep::Index(None),
        ],
        OptimizeAction::Compact { options, remap_options } => seq![
            OptimizeStep::Compact { options: Some(options), remap_options },
        ],
        OptimizeAction::Prune { older_than, delete_unverified } => seq![
            OptimizeStep::Prune { older_than, delete_unverified },
        ],
        OptimizeAction::Index(options) => seq![OptimizeStep::Index(Some(options))],
    }
}

/// The statistics after a step with the outcome `outcome`.
pub open spec fn spec_record<M, S>(stats: OptimizeStats<M, S>, outcome: StepOutcome<M, S>)
    -> OptimizeStats<M, S> {
    match outcome {
        StepOutcome::Compacted(metrics) => OptimizeStats {
            compaction: Some(metrics),
            prune: stats.prune,
        },
        StepOutcome::Pruned(removed) => OptimizeStats {
            compaction: stats.compaction,
            prune: Some(removed),
        },
        StepOutcome::Indexed => stats,
    }
}

/// The statistics after steps with the outcomes `outcomes`, in order.
pub open spec fn spec_record_all<M, S>(
    stats: OptimizeStats<M, S>,
    outcomes: Seq<StepOutcome<M, S>>,
) -> OptimizeStats<M, S>
    decreases outcomes.len(),
{
    if outcomes.len() == 0 {
        stats
    } else {
        spec_record(spec_record_all(stats, outcomes.drop_last()), outcomes.last())
    }
}

impl<C, R, I> OptimizeAction<C, R, I> {
    /// The steps that this action is carried out in. They are run in order,
    /// and the first that fails ends the optimization.
    pub fn steps(self) -> (steps: Vec<OptimizeStep<C, R, I>>)
        ensures
            steps@ == spec_steps(self),
    {
        let mut steps: Vec<OptimizeStep<C, R, I>> = Vec::new();
        match self {
            OptimizeAction::All => {
                steps.push(OptimizeStep::Compact { options: None, remap_options: None });
                steps.push(
                    OptimizeStep::Prune {
                        older_than: Duration::days(PRUNE_AFTER_DAYS),
                        delete_unverified: None,
                    },
                );
                steps.push(OptimizeStep::Index(None));
            },
            OptimizeAction::Compact { options, remap_options } => {
                steps.push(OptimizeStep::Compact { options: Some(options), remap_options });
            },
            OptimizeAction::Prune { older_than, delete_unverified } => {
                steps.push(OptimizeStep::Prune { older_than, delete_unverified });
            },
            OptimizeAction::Index(options) => {
                steps.push(OptimizeStep::Index(Some(options)));
            },
        }
        proof {
            assert(steps@ =~= spec_steps(self));
        }
        steps
    }
}

impl<M, S> OptimizeStats<M, S> {
    /// The statistics of an optimization that has done nothing yet.
    pub fn new() -> (stats: Self)
        ensures
            stats.compaction is None,
            stats.prune is None,
    {
        OptimizeStats { compaction: None, prune: None }
    }

    /// Takes in what one step has done.
    pub fn record(&mut self, outcome: StepOutcome<M, S>)
        ensures
            *final(self) == spec_record(*old(self), outcome),
    {
        match outcome {
            StepOutcome::Compacted(metrics) => {
                self.compaction = Some(metrics);
            },
            StepOutcome::Pruned(removed) => {
                self.prune = Some(removed);
            },
            StepOutcome::Indexed => {},
        }
    }
}

/// Optimizing everything compacts first, then prunes what is older than
/// seven days without deleting unverified files, then optimizes the indices,
/// each with the default options.
pub proof fn lemma_all_runs_in_order<C, R, I>()
    ensures
        spec_steps(OptimizeAction::<C, R, I>::All).len() == 3,
        spec_steps(OptimizeAction::<C, R, I>::All)[0] == (OptimizeStep::<C, R, I>::Compact {
            options: None,
            remap_options: None,
        }),
        spec_steps(OptimizeAction::<C, R, I>::All)[1] == (OptimizeStep::<C, R, I>::Prune {
            older_than: Duration { secs: 604_800, nanos: 0 },
            delete_unverified: None,
        }),
        spec_steps(OptimizeAction::<C, R, I>::All)[2] == OptimizeStep::<C, R, I>::Index(None),
{
}

/// The statistics of optimizing everything are the metrics of the compaction
/// and the statistics of the pruning; optimizing the indices adds nothing.
pub proof fn lemma_all_reports_compaction_and_prune<M, S>(metrics: M, removed: S)
    ensures
        spec_record_all(
            OptimizeStats::<M, S> { compaction: None, prune: None },
            seq![
                StepOutcome::Compacted(metrics),
                StepOutcome::Pruned(removed),
                StepOutcome::Indexed,
            ],
        ) == (OptimizeStats { compaction: Some(metrics), prune: Some(removed) }),
{
    let start = OptimizeStats::<M, S> { compaction: None, prune: None };
    let all = seq![
        StepOutcome::Compacted(metrics),
        StepOutcome::Pruned(removed),
        StepOutcome::Indexed,
    ];
    let two = seq![StepOutcome::<M, S>::Compacted(metrics), StepOutcome::Pruned(removed)];
    let one = seq![StepOutcome::<M, S>::Compacted(metrics)];
    assert(all.drop_last() =~= two);
    assert(two.drop_last() =~= one);
    assert(one.drop_last() =~= Seq::<StepOutcome<M, S>>::empty());
    assert(spec_record_all(start, one.drop_last()) == start);
    assert(spec_record_all(start, one) == spec_record(start, StepOutcome::Compacted(metrics)));
    assert(spec_record_all(start, two) == spec_record(
        spec_record_all(start, one),
        StepOutcome::Pruned(removed),
    ));
}

} // verus!
