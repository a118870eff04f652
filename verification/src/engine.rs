//! What passes between the model and the engine.
//!
//! The model never touches the engine. Each change of a model yields the call
//! that brings the engine's instance to the same state, with every argument
//! that the library decides, and the engine's answers come back as plain
//! values. Whoever holds the engine makes the calls, one for one and in order.

use vstd::prelude::*;
use crate::scalar::Real;

verus! {

/// One call of the engine, with its arguments.
#[allow(inconsistent_fields)]
#[derive(Debug, Clone, Copy, PartialEq, Eq, Structural)]
pub enum EngineCall {
    /// Append the column whose coefficients the caller gave: `size` of them,
    /// `nnonzeros` of which differ from zero.
    AddCol { size: i32, nnonzeros: i32, objval: Real, lb: Real, ub: Real },
    /// Append the row whose coefficients the caller gave: `size` of them,
    /// `nnonzeros` of which differ from zero.
    AddRow { size: i32, nnonzeros: i32, lhs: Real, rhs: Real },
    /// Remove the column at `index`; those behind it move down by one.
    RemoveCol { index: i32 },
    /// Remove the row at `index`; those behind it move down by one.
    RemoveRow { index: i32 },
    /// Give the column at `index` new bounds.
    ChangeColBounds { index: i32, lb: Real, ub: Real },
    /// Give the row at `index` a new range.
    ChangeRowRange { index: i32, lhs: Real, rhs: Real },
    /// Set the boolean parameter `id`: `value` is 1 for true and 0 for false.
    SetBoolParam { id: i32, value: i32 },
    /// Set the integer parameter `id`.
    SetIntParam { id: i32, value: i32 },
    /// Set the real parameter `id`.
    SetRealParam { id: i32, value: Real },
    /// Read the instance from the file whose name was just accepted.
    ReadInstanceFile,
}

/// What the engine reports of one solve, as it gave it.
#[derive(Debug, Clone, PartialEq, Eq)]
pub struct Solution {
    /// The status, as the engine's integer.
    pub status_code: i32,
    /// The objective value.
    pub objective: Real,
    /// The primal solution: one value for each column.
    pub primal: Vec<Real>,
    /// The dual solution: one value for each row.
    pub dual: Vec<Real>,
    /// The reduced costs: one value for each column.
    pub reduced_costs: Vec<Real>,
    /// The number of iterations that the solve took.
    pub iterations: i32,
    /// The time that the solve took, in seconds.
    pub solving_time: Real,
    /// The basis status of each column, as the engine's integer.
    pub col_basis: Vec<i32>,
    /// The basis status of each row, as the engine's integer.
    pub row_basis: Vec<i32>,
}

/// A solution as a mathematical value.
pub struct SolutionView {
    pub status_code: i32,
    pub objective: Real,
    pub primal: Seq<Real>,
    pub dual: Seq<Real>,
    pub reduced_costs: Seq<Real>,
    pub iterations: i32,
    pub solving_time: Real,
    pub col_basis: Seq<i32>,
    pub row_basis: Seq<i32>,
}

impl SolutionView {
    /// Whether the solution is one of an instance with `num_cols` columns and
    /// `num_rows` rows: it holds one value for each of them.
    pub open spec fn fits(self, num_cols: nat, num_rows: nat) -> bool {
        &&& self.primal.len() == num_cols
        &&& self.reduced_costs.len() == num_cols
        &&& self.col_basis.len() == num_cols
        &&& self.dual.len() == num_rows
        &&& self.row_basis.len() == num_rows
    }
}

impl View for Solution {
    type V = SolutionView;

    open spec fn view(&self) -> SolutionView {
        SolutionView {
            status_code: self.status_code,
            objective: self.objective,
            primal: self.primal@,
            dual: self.dual@,
            reduced_costs: self.reduced_costs@,
            iterations: self.iterations,
            solving_time: self.solving_time,
            col_basis: self.col_basis@,
            row_basis: self.row_basis@,
        }
    }
}

impl Solution {
    /// Tells whether the solution is one of an instance with `num_cols`
    /// columns and `num_rows` rows.
    pub fn fits(&self, num_cols: usize, num_rows: usize) -> (ok: bool)
        ensures
            ok == self@.fits(num_cols as nat, num_rows as nat),
    {
        self.primal.len() == num_cols && self.reduced_costs.len() == num_cols
            && self.col_basis.len() == num_cols && self.dual.len() == num_rows
            && self.row_basis.len() == num_rows
    }
}

} // verus!
