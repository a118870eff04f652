//! What holds of a model over its whole life: over any run of additions and
//! removals, and over any number of solves.

use vstd::prelude::*;
use crate::coefficients::extent;
use crate::engine::SolutionView;
use crate::model::{ModelView, MAX_COUNT};
use crate::scalar::Real;

verus! {

/// One change of the columns and rows of a model.
pub enum Edit {
    /// A column with these coefficients is appended.
    AddCol(Seq<Real>),
    /// A row with these coefficients is appended.
    AddRow(Seq<Real>),
    /// The column at this position is removed.
    RemoveCol(nat),
    /// The row at this position is removed.
    RemoveRow(nat),
}

impl<H> ModelView<H> {
    /// Whether the model can be changed so: a column or a row that is removed
    /// is there, and one that is added can still be numbered.
    pub open spec fn admits(self, edit: Edit) -> bool {
        match edit {
            Edit::AddCol(entries) => self.num_cols < MAX_COUNT && entries.len() <= MAX_COUNT,
            Edit::AddRow(entries) => self.num_rows < MAX_COUNT && entries.len() <= MAX_COUNT,
            Edit::RemoveCol(index) => index < self.num_cols,
            Edit::RemoveRow(index) => index < self.num_rows,
        }
    }

    /// Whether the change stays within the columns and rows that are there:
    /// a column that is added has no entry that differs from zero beyond the
    /// last row, and a row none beyond the last column.
    pub open spec fn keeps_within(self, edit: Edit) -> bool {
        match edit {
            Edit::AddCol(entries) => extent(entries) <= self.num_rows,
            Edit::AddRow(entries) => extent(entries) <= self.num_cols,
            Edit::RemoveCol(_) => true,
            Edit::RemoveRow(_) => true,
        }
    }

    /// The model after the change.
    pub open spec fn apply(self, edit: Edit) -> Self {
        match edit {
            Edit::AddCol(entries) => self.add_col(entries),
            Edit::AddRow(entries) => self.add_row(entries),
            Edit::RemoveCol(_) => self.remove_col(),
            Edit::RemoveRow(_) => self.remove_row(),
        }
    }

    /// The model after the changes, made in order.
    pub open spec fn apply_all(self, edits: Seq<Edit>) -> Self
        decreases edits.len(),
    {
        if edits.len() == 0 {
            self
        } else {
            self.apply_all(edits.drop_last()).apply(edits.last())
        }
    }

    /// Whether the changes can be made in order, and each stays within the
    /// columns and rows that are there when it is made.
    pub open spec fn admits_all(self, edits: Seq<Edit>) -> bool
        decreases edits.len(),
    {
        edits.len() > 0 ==> {
            let before = self.apply_all(edits.drop_last());
            &&& self.admits_all(edits.drop_last())
            &&& before.admits(edits.last())
            &&& before.keeps_within(edits.last())
        }
    }

    /// The model after `solutions.len()` rounds of solving it and turning
    /// the solved model into a model again.
    pub open spec fn solve_cycles(self, solutions: Seq<SolutionView>) -> Self
        decreases solutions.len(),
    {
        if solutions.len() == 0 {
            self
        } else {
            self.solve_cycles(solutions.drop_last()).solved(solutions.last()).model()
        }
    }
}

/// How many of the changes add a column.
pub open spec fn cols_added(edits: Seq<Edit>) -> nat
    decreases edits.len(),
{
    if edits.len() == 0 {
        0
    } else if edits.last() is AddCol {
        cols_added(edits.drop_last()) + 1
    } else {
        cols_added(edits.drop_last())
    }
}

/// How many of the changes remove a column.
pub open spec fn cols_removed(edits: Seq<Edit>) -> nat
    decreases edits.len(),
{
    if edits.len() == 0 {
        0
    } else if edits.last() is RemoveCol {
        cols_removed(edits.drop_last()) + 1
    } else {
        cols_removed(edits.drop_last())
    }
}

/// How many of the changes add a row.
pub open spec fn rows_added(edits: Seq<Edit>) -> nat
    decreases edits.len(),
{
    if edits.len() == 0 {
        0
    } else if edits.last() is AddRow {
        rows_added(edits.drop_last()) + 1
    } else {
        rows_added(edits.drop_last())
    }
}

/// How many of the changes remove a row.
pub open spec fn rows_removed(edits: Seq<Edit>) -> nat
    decreases edits.len(),
{
    if edits.len() == 0 {
        0
    } else if edits.last() is RemoveRow {
        rows_removed(edits.drop_last()) + 1
    } else {
        rows_removed(edits.drop_last())
    }
}

/// After any run of changes that stay within the columns and rows that are
/// there, a model holds as many columns as it held before, plus those that
/// were added, less those that were removed; and so for the rows. The handle
/// is the one it had.
pub proof fn lemma_counts_after_edits<H>(model: ModelView<H>, edits: Seq<Edit>)
    requires
        model.admits_all(edits),
    ensures
        model.apply_all(edits).num_cols == model.num_cols + cols_added(edits) - cols_removed(edits),
        model.apply_all(edits).num_rows == model.num_rows + rows_added(edits) - rows_removed(edits),
        model.apply_all(edits).handle == model.handle,
    decreases edits.len(),
{
    if edits.len() > 0 {
        lemma_counts_after_edits(model, edits.drop_last());
    }
}

/// In a model that was new, the number of columns is the number of additions
/// less the number of removals, and the id that the next added column gets is
/// that number: where no column was removed, the k-th column that is added
/// gets the id k - 1.
pub proof fn lemma_identifier_monotonicity<H>(handle: H, edits: Seq<Edit>, entries: Seq<Real>)
    requires
        ModelView::fresh(handle).admits_all(edits),
    ensures
        ModelView::fresh(handle).apply_all(edits).num_cols == cols_added(edits) - cols_removed(
            edits,
        ),
        cols_removed(edits) == 0 ==> ModelView::fresh(handle).apply_all(edits).num_cols
            == cols_added(edits.push(Edit::AddCol(entries))) - 1,
        ModelView::fresh(handle).apply_all(edits.push(Edit::AddCol(entries))).num_cols
            == ModelView::fresh(handle).apply_all(edits).num_cols + 1,
{
    lemma_counts_after_edits(ModelView::fresh(handle), edits);
    let longer = edits.push(Edit::AddCol(entries));
    assert(longer.drop_last() =~= edits);
    assert(longer.last() == Edit::AddCol(entries));
}

/// Solving a model and turning the solved model into a model again gives
/// the model that was solved: the same handle, as many columns and rows.
pub proof fn lemma_solve_round_trip<H>(model: ModelView<H>, solution: SolutionView)
    ensures
        model.solved(solution).model() == model,
        model.solved(solution).solution == solution,
{
}

/// However often a model is solved and turned into a model again, it stays
/// the model that it was: the same handle and as many columns and rows, so it
/// can be solved once more, with any solution that fits those numbers.
pub proof fn lemma_solve_cycles<H>(model: ModelView<H>, solutions: Seq<SolutionView>)
    ensures
        model.solve_cycles(solutions) == model,
    decreases solutions.len(),
{
    if solutions.len() > 0 {
        lemma_solve_cycles(model, solutions.drop_last());
        lemma_solve_round_trip(model, solutions.last());
    }
}

} // verus!
