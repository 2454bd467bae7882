use lancedb::table::merge::{
    MergeInsertBuilder, MergePlan, RowAction, RowCategory, WhenMatched, WhenMatchedBuilder,
    WhenNotMatched, WhenNotMatchedBuilder, WhenNotMatchedBySource, WhenNotMatchedBySourceBuilder,
};

fn on_i() -> MergeInsertBuilder {
    MergeInsertBuilder::new(vec!["i".to_string()])
}

#[test]
fn a_new_merge_insert_changes_nothing() {
    let builder = on_i();
    assert_eq!(builder.when_matched, None);
    assert_eq!(builder.when_not_matched, None);
    assert_eq!(builder.when_not_matched_by_source, None);
    assert_eq!(
        builder.plan(),
        MergePlan {
            on: vec!["i".to_string()],
            when_matched: WhenMatched::DoNothing,
            when_not_matched: WhenNotMatched::DoNothing,
            when_not_matched_by_source: WhenNotMatchedBySource::Keep,
        }
    );
}

#[test]
fn clauses_are_set_one_by_one() {
    let mut builder = on_i();
    builder.when_matched_update();
    assert_eq!(builder.when_matched, Some(WhenMatchedBuilder { condition: None }));
    builder.when_not_matched_insert();
    assert_eq!(builder.when_not_matched, Some(WhenNotMatchedBuilder {}));
    builder.when_not_matched_by_source_delete("true");
    assert_eq!(
        builder.when_not_matched_by_source,
        Some(WhenNotMatchedBySourceBuilder::Delete("true".to_string()))
    );
    assert_eq!(
        builder.plan(),
        MergePlan {
            on: vec!["i".to_string()],
            when_matched: WhenMatched::UpdateAll,
            when_not_matched: WhenNotMatched::InsertAll,
            when_not_matched_by_source: WhenNotMatchedBySource::DeleteIf("true".to_string()),
        }
    );
}

#[test]
fn a_condition_is_kept_on_the_update_clause() {
    let mut builder = on_i();
    builder.when_matched_update().only_if("target.age = 0");
    assert_eq!(
        builder.when_matched,
        Some(WhenMatchedBuilder { condition: Some("target.age = 0".to_string()) })
    );
    assert_eq!(builder.plan().when_matched, WhenMatched::UpdateIf("target.age = 0".to_string()));

    let mut clause = WhenMatchedBuilder::default();
    clause.only_if("a").only_if("target.last_update < source.last_update");
    assert_eq!(clause.condition, Some("target.last_update < source.last_update".to_string()));

    builder.when_matched_update();
    assert_eq!(builder.plan().when_matched, WhenMatched::UpdateAll);
}

fn rows_after(plan: &MergePlan, rows: &[(RowCategory, bool)], before: i64) -> i64 {
    rows.iter().fold(before, |n, (category, holds)| {
        n + plan.row_action(*category, *holds).row_delta() as i64
    })
}

#[test]
fn insert_if_not_exists_adds_the_new_keys_only() {
    let mut builder = on_i();
    builder.when_not_matched_insert();
    let plan = builder.plan();
    let mut rows = Vec::new();
    for key in 0..15 {
        let category = if key < 5 {
            RowCategory::NotMatchedBySource
        } else if key < 10 {
            RowCategory::Matched
        } else {
            RowCategory::NotMatched
        };
        rows.push((category, true));
    }
    assert_eq!(rows_after(&plan, &rows, 10), 15);
    assert_eq!(plan.row_action(RowCategory::NotMatchedBySource, true), RowAction::KeepTarget);
    assert_eq!(plan.row_action(RowCategory::Matched, true), RowAction::KeepTarget);
    assert_eq!(plan.row_action(RowCategory::NotMatched, false), RowAction::InsertSource);
}

#[test]
fn a_bulk_update_inserts_nothing() {
    let mut builder = on_i();
    builder.when_matched_update();
    let plan = builder.plan();
    let rows: Vec<(RowCategory, bool)> = (15..25).map(|_| (RowCategory::NotMatched, true)).collect();
    assert_eq!(rows_after(&plan, &rows, 15), 15);
    assert_eq!(plan.row_action(RowCategory::NotMatched, true), RowAction::DropSource);
    assert_eq!(plan.row_action(RowCategory::Matched, false), RowAction::ReplaceWithSource);
}

#[test]
fn a_conditional_update_replaces_where_the_condition_holds() {
    let mut builder = on_i();
    builder.when_matched_update().only_if("target.age = 0");
    let plan = builder.plan();
    let ages = [0, 0, 0, 0, 0, 0, 0, 0, 0, 0, 1, 1, 1, 1, 1];
    let mut replaced = 0;
    let mut total: i64 = 15;
    for key in 5..15 {
        let action = plan.row_action(RowCategory::Matched, ages[key] == 0);
        if action == RowAction::ReplaceWithSource {
            replaced += 1;
        }
        total += action.row_delta() as i64;
    }
    assert_eq!(replaced, 5);
    assert_eq!(total, 15);
    assert_eq!(plan.row_action(RowCategory::Matched, true), RowAction::ReplaceWithSource);
    assert_eq!(plan.row_action(RowCategory::Matched, false), RowAction::KeepTarget);
    assert_eq!(plan.row_action(RowCategory::NotMatched, true), RowAction::DropSource);
}

#[test]
fn deleting_by_source_removes_what_the_filter_holds_of() {
    let mut builder = on_i();
    builder.when_not_matched_by_source_delete("age > 1");
    let plan = builder.plan();
    assert_eq!(plan.row_action(RowCategory::NotMatchedBySource, true), RowAction::DeleteTarget);
    assert_eq!(plan.row_action(RowCategory::NotMatchedBySource, false), RowAction::KeepTarget);
    assert_eq!(plan.row_action(RowCategory::Matched, true), RowAction::KeepTarget);
    assert_eq!(RowAction::DeleteTarget.row_delta(), -1);
    assert_eq!(RowAction::InsertSource.row_delta(), 1);
    assert_eq!(RowAction::KeepTarget.row_delta(), 0);
    assert_eq!(RowAction::ReplaceWithSource.row_delta(), 0);
    assert_eq!(RowAction::DropSource.row_delta(), 0);
}
