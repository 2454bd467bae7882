use chrono::TimeDelta;
use lancedb::table::optimize::{
    Duration, OptimizeAction, OptimizeStats, OptimizeStep, StepOutcome,
};

type Action = OptimizeAction<&'static str, u8, u32>;
type Step = OptimizeStep<&'static str, u8, u32>;

#[test]
fn seven_days_are_their_seconds() {
    assert_eq!(Duration::days(7), Duration { secs: 604_800, nanos: 0 });
    assert_eq!(Duration::days(0), Duration { secs: 0, nanos: 0 });
    assert_eq!(Duration::days(-2), Duration { secs: -172_800, nanos: 0 });
    assert_eq!(Duration::try_days(1), Some(Duration { secs: 86_400, nanos: 0 }));
}

#[test]
fn spans_of_days_are_those_of_chrono() {
    for days in [-400i64, -1, 0, 1, 7, 365, 106_751_991_167, -106_751_991_167] {
        let span = Duration::try_days(days).unwrap();
        let delta = TimeDelta::try_days(days).unwrap();
        assert_eq!(span.secs, delta.num_seconds());
        assert_eq!(span.nanos, delta.subsec_nanos());
        assert_eq!(TimeDelta::new(span.secs, span.nanos as u32), Some(delta));
    }
    assert_eq!(TimeDelta::try_days(106_751_991_168), None);
    assert_eq!(TimeDelta::try_days(-106_751_991_168), None);
}

#[test]
fn spans_end_where_their_milliseconds_overflow() {
    let most = 106_751_991_167;
    assert_eq!(Duration::try_days(most), Some(Duration { secs: most * 86_400, nanos: 0 }));
    assert_eq!(Duration::try_days(-most), Some(Duration { secs: -most * 86_400, nanos: 0 }));
    assert_eq!(Duration::try_days(most + 1), None);
    assert_eq!(Duration::try_days(-most - 1), None);
    assert_eq!(Duration::try_days(i64::MAX), None);
    assert_eq!(Duration::try_days(i64::MIN), None);
}

#[test]
fn optimizing_everything_runs_three_steps_in_order() {
    let steps: Vec<Step> = Action::All.steps();
    assert_eq!(
        steps,
        vec![
            OptimizeStep::Compact { options: None, remap_options: None },
            OptimizeStep::Prune {
                older_than: Duration { secs: 7 * 24 * 60 * 60, nanos: 0 },
                delete_unverified: None
            },
            OptimizeStep::Index(None),
        ]
    );
    assert_eq!(Action::default(), OptimizeAction::All);
}

#[test]
fn single_actions_run_one_step_with_their_options() {
    let compact: Action = OptimizeAction::Compact { options: "wide", remap_options: Some(3) };
    assert_eq!(
        compact.steps(),
        vec![OptimizeStep::Compact { options: Some("wide"), remap_options: Some(3) }]
    );
    let prune: Action = OptimizeAction::Prune {
        older_than: Duration { secs: 60, nanos: 5 },
        delete_unverified: Some(true),
    };
    assert_eq!(
        prune.steps(),
        vec![OptimizeStep::Prune {
            older_than: Duration { secs: 60, nanos: 5 },
            delete_unverified: Some(true)
        }]
    );
    let index: Action = OptimizeAction::Index(4);
    assert_eq!(index.steps(), vec![OptimizeStep::Index(Some(4))]);
}

#[test]
fn statistics_gather_compaction_and_pruning() {
    let mut stats: OptimizeStats<u32, u64> = OptimizeStats::new();
    assert_eq!(stats, OptimizeStats { compaction: None, prune: None });
    stats.record(StepOutcome::Compacted(12));
    assert_eq!(stats, OptimizeStats { compaction: Some(12), prune: None });
    stats.record(StepOutcome::Pruned(4096));
    assert_eq!(stats, OptimizeStats { compaction: Some(12), prune: Some(4096) });
    stats.record(StepOutcome::Indexed);
    assert_eq!(stats, OptimizeStats { compaction: Some(12), prune: Some(4096) });
}

#[test]
fn single_actions_report_their_own_statistics_only() {
    let mut pruned: OptimizeStats<u32, u64> = OptimizeStats::new();
    pruned.record(StepOutcome::Pruned(1));
    assert_eq!(pruned, OptimizeStats { compaction: None, prune: Some(1) });
    let mut indexed: OptimizeStats<u32, u64> = OptimizeStats::new();
    indexed.record(StepOutcome::Indexed);
    assert_eq!(indexed, OptimizeStats { compaction: None, prune: None });
}
