//! Merge insert: what happens to the rows that are in both the new data and
//! the table, in the new data only, and in the table only.

use vstd::prelude::*;
use vstd::string::StringExecFns;
use crate::text::{clone_strings, text_of};

verus! {

/// A builder to specify how exactly to update matched rows.
#[derive(Clone, Debug, PartialEq, Eq)]
pub struct WhenMatchedBuilder {
    pub condition: Option<String>,
}

impl Default for WhenMatchedBuilder {
    fn default() -> (r: WhenMatchedBuilder)
        ensures
            r.condition is None,
    {
        WhenMatchedBuilder { condition: None }
    }
}

impl WhenMatchedBuilder {
    /// Only update rows matching the given condition.
    ///
    /// Any rows that do not satisfy the condition will be left as they are.
    /// Failing to satisfy the condition does not cause a matched row to
    /// become a row that is not matched.
    ///
    /// The condition is an expression over the columns of both rows: the
    /// prefix `target.` refers to the row in the table (old data) and the
    /// prefix `source.` to the row in the new data.
    pub fn only_if(&mut self, condition: &str) -> (r: &mut Self)
        ensures
            r.condition matches Some(c) && c@ == condition@,
            *final(self) == *final(r),
    {
        self.condition = Some(String::from_str(condition));
        self
    }
}

/// A builder to specify how exactly to insert rows that exist only in the
/// new data.
///
/// There are no methods on this builder: the incoming rows have the schema
/// of the table and are inserted whole.
#[derive(Clone, Debug, PartialEq, Eq)]
pub struct WhenNotMatchedBuilder {}

impl Default for WhenNotMatchedBuilder {
    fn default() -> (r: WhenNotMatchedBuilder) {
        WhenNotMatchedBuilder {  }
    }
}

/// What to do with rows that exist only in the table: delete those that
/// match a filter.
#[derive(Clone, Debug, PartialEq, Eq)]
pub enum WhenNotMatchedBySourceBuilder {
    Delete(String),
}

/// A builder used to create and run a merge insert operation.
///
/// The new data is joined with the table on the columns `on`. A clause that
/// is set says what happens to the rows of one side of the join; one that
/// is not set leaves those rows as they are.
#[derive(Clone, Debug, PartialEq, Eq)]
pub struct MergeInsertBuilder {
    pub on: Vec<String>,
    pub when_matched: Option<WhenMatchedBuilder>,
    pub when_not_matched: Option<WhenNotMatchedBuilder>,
    pub when_not_matched_by_source: Option<WhenNotMatchedBySourceBuilder>,
}

/// What happens to the rows that are in both the new data and the table.
#[derive(Clone, Debug, PartialEq, Eq)]
pub enum WhenMatched {
    /// The row in the table stays as it is.
    DoNothing,
    /// The row in the table is replaced by the row in the new data.
    UpdateAll,
    /// The row in the table is replaced where the expression holds of the
    /// two rows, and else stays as it is.
    UpdateIf(String),
}

/// What happens to the rows that are in the new data only.
#[derive(Clone, Copy, Debug, PartialEq, Eq, Structural)]
pub enum WhenNotMatched {
    /// The row is inserted into the table.
    InsertAll,
    /// The row is dropped.
    DoNothing,
}

/// What happens to the rows that are in the table only.
#[derive(Clone, Debug, PartialEq, Eq)]
pub enum WhenNotMatchedBySource {
    /// The row stays in the table.
    Keep,
    /// The row is deleted where the filter holds of it, and else stays.
    DeleteIf(String),
}

/// What a merge insert asks of the dataset.
#[derive(Clone, Debug, PartialEq, Eq)]
pub struct MergePlan {
    pub on: Vec<String>,
    pub when_matched: WhenMatched,
    pub when_not_matched: WhenNotMatched,
    pub when_not_matched_by_source: WhenNotMatchedBySource,
}

/// The mathematical value of a [`MergeInsertBuilder`]: the join columns,
/// and of each clause whether it is set and with which expression.
pub struct MergeInsertView {
    pub on: Seq<Seq<char>>,
    /// `Some` where matched rows are updated; inside, the condition if
    /// there is one.
    pub when_matched: Option<Option<Seq<char>>>,
    /// Whether rows of the new data only are inserted.
    pub when_not_matched: bool,
    /// `Some` where rows of the table only are deleted; inside, the filter.
    pub when_not_matched_by_source: Option<Seq<char>>,
}

impl View for MergeInsertBuilder {
    type V = MergeInsertView;

    open spec fn view(&self) -> MergeInsertView {
        MergeInsertView {
            on: self.on.deep_view(),
            when_matched: match self.when_matched {
                Some(clause) => Some(text_of(clause.condition)),
                None => None,
            },
            when_not_matched: self.when_not_matched is Some,
            when_not_matched_by_source: match self.when_not_matched_by_source {
                Some(WhenNotMatchedBySourceBuilder::Delete(filter)) => Some(filter@),
                None => None,
            },
        }
    }
}

/// The mathematical value of a [`WhenMatched`].
pub enum WhenMatchedView {
    DoNothing,
    UpdateAll,
    UpdateIf(Seq<char>),
}

/// The mathematical value of a [`WhenNotMatchedBySource`].
pub enum WhenNotMatchedBySourceView {
    Keep,
    DeleteIf(Seq<char>),
}

/// The mathematical value of a [`MergePlan`].
pub struct MergePlanView {
    pub on: Seq<Seq<char>>,
    pub when_matched: WhenMatchedView,
    pub when_not_matched: WhenNotMatched,
    pub when_not_matched_by_source: WhenNotMatchedBySourceView,
}

impl View for WhenMatched {
    type V = WhenMatchedView;

    open spec fn view(&self) -> WhenMatchedView {
        match self {
            WhenMatched::DoNothing => WhenMatchedView::DoNothing,
            WhenMatched::UpdateAll => WhenMatchedView::UpdateAll,
            WhenMatched::UpdateIf(condition) => WhenMatchedView::UpdateIf(condition@),
        }
    }
}

impl View for WhenNotMatchedBySource {
    type V = WhenNotMatchedBySourceView;

    open spec fn view(&self) -> WhenNotMatchedBySourceView {
        match self {
            WhenNotMatchedBySource::Keep => WhenNotMatchedBySourceView::Keep,
            WhenNotMatchedBySource::DeleteIf(filter) => WhenNotMatchedBySourceView::DeleteIf(
                filter@,
            ),
        }
    }
}

impl View for MergePlan {
    type V = MergePlanView;

    open spec fn view(&self) -> MergePlanView {
        MergePlanView {
            on: self.on.deep_view(),
            when_matched: self.when_matched@,
            when_not_matched: self.when_not_matched,
            when_not_matched_by_source: self.when_not_matched_by_source@,
        }
    }
}

/// What the merge insert that `builder` describes asks of the dataset: for
/// each clause that is not set, that nothing be done.
pub open spec fn spec_plan(builder: MergeInsertView) -> MergePlanView {
    MergePlanView {
        on: builder.on,
        when_matched: match builder.when_matched {
            None => WhenMatchedView::DoNothing,
            Some(None) => WhenMatchedView::UpdateAll,
            Some(Some(condition)) => WhenMatchedView::UpdateIf(condition),
        },
        when_not_matched: if builder.when_not_matched {
            WhenNotMatched::InsertAll
        } else {
            WhenNotMatched::DoNothing
        },
        when_not_matched_by_source: match builder.when_not_matched_by_source {
            None => WhenNotMatchedBySourceView::Keep,
            Some(filter) => WhenNotMatchedBySourceView::DeleteIf(filter),
        },
    }
}

impl MergeInsertBuilder {
    /// A merge insert that joins on the columns `on` and changes nothing.
    pub fn new(on: Vec<String>) -> (r: MergeInsertBuilder)
        ensures
            r@ == (MergeInsertView {
                on: on.deep_view(),
                when_matched: None,
                when_not_matched: false,
                when_not_matched_by_source: None,
            }),
    {
        MergeInsertBuilder {
            on,
            when_matched: None,
            when_not_matched: None,
            when_not_matched_by_source: None,
        }
    }

    /// Rows that exist in both the new data and the table will be updated,
    /// replacing the old row with the corresponding matching row.
    ///
    /// If there are multiple matches then the behavior is undefined.
    ///
    /// By default this will update all rows that match. To customize that
    /// behavior see the methods on the returned builder.
    pub fn when_matched_update(&mut self) -> (r: &mut WhenMatchedBuilder)
        ensures
            r.condition is None,
            final(self).when_matched == Some(*final(r)),
            final(self).on == old(self).on,
            final(self).when_not_matched == old(self).when_not_matched,
            final(self).when_not_matched_by_source == old(self).when_not_matched_by_source,
    {
        self.when_matched.insert(WhenMatchedBuilder::default())
    }

    /// Rows that exist only in the new data will be inserted into the
    /// table.
    pub fn when_not_matched_insert(&mut self) -> (r: &mut WhenNotMatchedBuilder)
        ensures
            final(self).when_not_matched == Some(*final(r)),
            final(self).on == old(self).on,
            final(self).when_matched == old(self).when_matched,
            final(self).when_not_matched_by_source == old(self).when_not_matched_by_source,
    {
        self.when_not_matched.insert(WhenNotMatchedBuilder::default())
    }

    /// Rows that exist only in the table will be deleted where they satisfy
    /// `filter`. To delete all such rows, use the filter `true`.
    pub fn when_not_matched_by_source_delete(&mut self, filter: &str)
        ensures
            final(self)@ == (MergeInsertView {
                when_not_matched_by_source: Some(filter@),
                ..old(self)@
            }),
    {
        self.when_not_matched_by_source = Some(
            WhenNotMatchedBySourceBuilder::Delete(String::from_str(filter)),
        );
    }

    /// What this merge insert asks of the dataset.
    pub fn plan(&self) -> (r: MergePlan)
        ensures
            r@ == spec_plan(self@),
    {
        let when_matched = match &self.when_matched {
            None => WhenMatched::DoNothing,
            Some(clause) => match &clause.condition {
                None => WhenMatched::UpdateAll,
                Some(condition) => WhenMatched::UpdateIf(condition.clone()),
            },
        };
        let when_not_matched = match &self.when_not_matched {
            None => WhenNotMatched::DoNothing,
            Some(_) => WhenNotMatched::InsertAll,
        };
        let when_not_matched_by_source = match &self.when_not_matched_by_source {
            None => WhenNotMatchedBySource::Keep,
            Some(WhenNotMatchedBySourceBuilder::Delete(filter)) => {
                WhenNotMatchedBySource::DeleteIf(filter.clone())
            },
        };
        MergePlan {
            on: clone_strings(&self.on),
            when_matched,
            when_not_matched,
            when_not_matched_by_source,
        }
    }
}

/// The side of the join that a row is on.
#[derive(Clone, Copy, Debug, PartialEq, Eq, Structural)]
pub enum RowCategory {
    /// The join columns of the row are in both the new data and the table.
    Matched,
    /// The row is in the new data only.
    NotMatched,
    /// The row is in the table only.
    NotMatchedBySource,
}

/// What a merge insert does with one row.
#[derive(Clone, Copy, Debug, PartialEq, Eq, Structural)]
pub enum RowAction {
    /// The row in the table stays as it is.
    KeepTarget,
    /// The row in the table is replaced by the row in the new data.
    ReplaceWithSource,
    /// The row in the new data is inserted into the table.
    InsertSource,
    /// The row in the new data is dropped.
    DropSource,
    /// The row in the table is deleted.
    DeleteTarget,
}

impl RowAction {
    /// By how much the action changes the number of rows in the table.
    pub open spec fn spec_row_delta(self) -> int {
        match self {
            RowAction::InsertSource => 1,
            RowAction::DeleteTarget => -1,
            _ => 0,
        }
    }

    /// By how much the action changes the number of rows in the table.
    pub fn row_delta(self) -> (d: i8)
        ensures
            d == self.spec_row_delta(),
    {
        match self {
            RowAction::InsertSource => 1,
            RowAction::DeleteTarget => -1,
            _ => 0,
        }
    }
}

/// What the merge insert `plan` does with a row of the side `category`.
/// Where the clause for that side has an expression, `holds` says whether the
/// expression holds of the row.
pub open spec fn spec_row_action(plan: MergePlanView, category: RowCategory, holds: bool)
    -> RowAction {
    match category {
        RowCategory::Matched => match plan.when_matched {
            WhenMatchedView::DoNothing => RowAction::KeepTarget,
            WhenMatchedView::UpdateAll => RowAction::ReplaceWithSource,
            WhenMatchedView::UpdateIf(_) => if holds {
                RowAction::ReplaceWithSource
            } else {
                RowAction::KeepTarget
            },
        },
        RowCategory::NotMatched => match plan.when_not_matched {
            WhenNotMatched::InsertAll => RowAction::InsertSource,
            WhenNotMatched::DoNothing => RowAction::DropSource,
        },
        RowCategory::NotMatchedBySource => match plan.when_not_matched_by_source {
            WhenNotMatchedBySourceView::Keep => RowAction::KeepTarget,
            WhenNotMatchedBySourceView::DeleteIf(_) => if holds {
                RowAction::DeleteTarget
            } else {
                RowAction::KeepTarget
            },
        },
    }
}

impl MergePlan {
    /// What this merge insert does with a row of the side `category`. Where
    /// the clause for that side has an expression, `holds` says whether the
    /// expression holds of the row.
    pub fn row_action(&self, category: RowCategory, holds: bool) -> (action: RowAction)
        ensures
            action == spec_row_action(self@, category, holds),
    {
        match category {
            RowCategory::Matched => match &self.when_matched {
                WhenMatched::DoNothing => RowAction::KeepTarget,
                WhenMatched::UpdateAll => RowAction::ReplaceWithSource,
                WhenMatched::UpdateIf(_) => if holds {
                    RowAction::ReplaceWithSource
                } else {
                    RowAction::KeepTarget
                },
            },
            RowCategory::NotMatched => match self.when_not_matched {
                WhenNotMatched::InsertAll => RowAction::InsertSource,
                WhenNotMatched::DoNothing => RowAction::DropSource,
            },
            RowCategory::NotMatchedBySource => match &self.when_not_matched_by_source {
                WhenNotMatchedBySource::Keep => RowAction::KeepTarget,
                WhenNotMatchedBySource::DeleteIf(_) => if holds {
                    RowAction::DeleteTarget
                } else {
                    RowAction::KeepTarget
                },
            },
        }
    }
}

/// A merge insert without a clause changes no row of the table and inserts
/// none.
pub proof fn lemma_no_clause_changes_nothing(builder: MergeInsertView, holds: bool)
    requires
        builder.when_matched is None,
        !builder.when_not_matched,
        builder.when_not_matched_by_source is None,
    ensures
        spec_row_action(spec_plan(builder), RowCategory::Matched, holds) == RowAction::KeepTarget,
        spec_row_action(spec_plan(builder), RowCategory::NotMatched, holds)
            == RowAction::DropSource,
        spec_row_action(spec_plan(builder), RowCategory::NotMatchedBySource, holds)
            == RowAction::KeepTarget,
{
}

/// Insert if not exists: with the insert clause alone, every row of the
/// table stays as it is, and every row of the new data that matches none is
/// inserted, so that the table grows by the number of those rows.
pub proof fn lemma_insert_if_not_exists(builder: MergeInsertView, holds: bool)
    requires
        builder.when_matched is None,
        builder.when_not_matched,
        builder.when_not_matched_by_source is None,
    ensures
        spec_row_action(spec_plan(builder), RowCategory::Matched, holds) == RowAction::KeepTarget,
        spec_row_action(spec_plan(builder), RowCategory::NotMatchedBySource, holds)
            == RowAction::KeepTarget,
        spec_row_action(spec_plan(builder), RowCategory::NotMatched, holds)
            == RowAction::InsertSource,
        spec_row_action(spec_plan(builder), RowCategory::NotMatched, holds).spec_row_delta() == 1,
        spec_row_action(spec_plan(builder), RowCategory::Matched, holds).spec_row_delta() == 0,
{
}

/// Conditional update: with a condition on the update clause, a matched row
/// is replaced where the condition holds of it and stays as it is where it
/// does not; it is never inserted or deleted.
pub proof fn lemma_conditional_update(builder: MergeInsertView, holds: bool)
    requires
        builder.when_matched matches Some(Some(_)),
    ensures
        holds ==> spec_row_action(spec_plan(builder), RowCategory::Matched, holds)
            == RowAction::ReplaceWithSource,
        !holds ==> spec_row_action(spec_plan(builder), RowCategory::Matched, holds)
            == RowAction::KeepTarget,
        spec_row_action(spec_plan(builder), RowCategory::Matched, holds).spec_row_delta() == 0,
{
}

} // verus!
