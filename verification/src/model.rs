//! A linear program while it is built, and after it was solved.
//!
//! A [`Model`] is the instance while it is built: it knows how many columns
//! and rows the engine holds, names each new one by its position, and turns
//! every change into the call that the engine needs. Solving consumes it and
//! gives a [`SolvedModel`], which answers from what the engine reported and
//! can be turned into a `Model` again. Both carry the handle of the engine's
//! instance along; neither copies it.

use vstd::prelude::*;
use vstd::string::*;
use crate::basis_status::{ColBasisStatus, RowBasisStatus};
use crate::coefficients::{extent, measure, nonzero_count};
use crate::engine::{EngineCall, Solution, SolutionView};
use crate::instance_file::{check, check_instance_file, ReadFileError};
use crate::param::{
    Algorithm, BoolParam, CheckMode, FactorUpdateType, HyperPricing, IntParam, ObjSense, Pricer,
    RatioTester, ReadMode, RealParam, Representation, Scalar, Simplifier, SolutionPolishing,
    SolveMode, Starter, SyncMode, Timer, Verbosity, ALGORITHM_PARAM_ID, CHECK_MODE_PARAM_ID,
    DECOMP_VERBOSITY_PARAM_ID, FACTOR_UPDATE_TYPE_PARAM_ID, HYPER_PRICING_PARAM_ID,
    OBJSENSE_PARAM_ID, PRICER_PARAM_ID, RATIO_TESTER_PARAM_ID, READ_MODE_PARAM_ID, REPR_PARAM_ID,
    SCALAR_PARAM_ID, SIMPLIFIER_PARAM_ID, SOLUTION_POLISHING_PARAM_ID, SOLVE_MODE_PARAM_ID,
    STARTER_PARAM_ID, STAT_TIMER_PARAM_ID, SYNC_MODE_PARAM_ID, TIMER_PARAM_ID, VERBOSITY_PARAM_ID,
};
use crate::scalar::Real;
use crate::status::Status;

verus! {

/// The most columns, and the most rows, that the engine can number.
pub const MAX_COUNT: usize = 0x7fff_ffff;

/// Id of a row in the model.
#[derive(Debug)]
pub struct RowId(usize);

/// Id of a column in the model.
#[derive(Debug)]
pub struct ColId(usize);

impl View for RowId {
    type V = nat;

    /// The position that the id names.
    closed spec fn view(&self) -> nat {
        self.0 as nat
    }
}

impl View for ColId {
    type V = nat;

    /// The position that the id names.
    closed spec fn view(&self) -> nat {
        self.0 as nat
    }
}

impl RowId {
    /// The position that the id names.
    pub fn index(&self) -> (i: usize)
        ensures
            i == self@,
    {
        self.0
    }
}

impl ColId {
    /// The position that the id names.
    pub fn index(&self) -> (i: usize)
        ensures
            i == self@,
    {
        self.0
    }
}

/// A linear programming model.
pub struct Model<H> {
    inner: H,
    num_cols: usize,
    num_rows: usize,
}

/// A model as a mathematical value: the handle of the engine's instance, and
/// how many columns and rows that instance holds.
pub struct ModelView<H> {
    pub handle: H,
    pub num_cols: nat,
    pub num_rows: nat,
}

impl<H> ModelView<H> {
    /// The model of an instance that the engine has just created.
    pub open spec fn fresh(handle: H) -> Self {
        ModelView { handle, num_cols: 0, num_rows: 0 }
    }

    /// The model after a column with the coefficients `entries` was appended.
    /// Where an entry that differs from zero stands at a position that no row
    /// has yet, the engine appends empty rows up to that position.
    pub open spec fn add_col(self, entries: Seq<Real>) -> Self {
        ModelView {
            num_cols: self.num_cols + 1,
            num_rows: if extent(entries) > self.num_rows {
                extent(entries)
            } else {
                self.num_rows
            },
            ..self
        }
    }

    /// The model after a row with the coefficients `entries` was appended.
    /// Where an entry that differs from zero stands at a position that no
    /// column has yet, the engine appends empty columns up to that position.
    pub open spec fn add_row(self, entries: Seq<Real>) -> Self {
        ModelView {
            num_rows: self.num_rows + 1,
            num_cols: if extent(entries) > self.num_cols {
                extent(entries)
            } else {
                self.num_cols
            },
            ..self
        }
    }

    /// The model after one of its columns was removed.
    pub open spec fn remove_col(self) -> Self
        recommends
            self.num_cols > 0,
    {
        ModelView { num_cols: (self.num_cols - 1) as nat, ..self }
    }

    /// The model after one of its rows was removed.
    pub open spec fn remove_row(self) -> Self
        recommends
            self.num_rows > 0,
    {
        ModelView { num_rows: (self.num_rows - 1) as nat, ..self }
    }

    /// The model after the engine read an instance with `num_cols` columns
    /// and `num_rows` rows in place of the one it held.
    pub open spec fn loaded(self, num_cols: nat, num_rows: nat) -> Self {
        ModelView { num_cols, num_rows, ..self }
    }

    /// The model once the engine has solved it and reported `solution`.
    pub open spec fn solved(self, solution: SolutionView) -> SolvedModelView<H> {
        SolvedModelView {
            handle: self.handle,
            num_cols: self.num_cols,
            num_rows: self.num_rows,
            solution,
        }
    }
}

impl<H> View for Model<H> {
    type V = ModelView<H>;

    closed spec fn view(&self) -> ModelView<H> {
        ModelView {
            handle: self.inner,
            num_cols: self.num_cols as nat,
            num_rows: self.num_rows as nat,
        }
    }
}

impl<H> Model<H> {
    /// The engine numbers columns and rows by 32-bit integers.
    #[verifier::type_invariant]
    spec fn counts_in_range(self) -> bool {
        self.num_cols <= MAX_COUNT && self.num_rows <= MAX_COUNT
    }

    /// Creates the model of the instance behind `handle`, which the engine
    /// has just created: it holds no column and no row.
    pub fn new(handle: H) -> (model: Self)
        ensures
            model@ == ModelView::fresh(handle),
    {
        Self { inner: handle, num_cols: 0, num_rows: 0 }
    }

    /// The handle of the engine's instance.
    pub fn handle(&self) -> (handle: &H)
        ensures
            *handle == self@.handle,
    {
        &self.inner
    }

    /// Returns the number of columns in the model.
    pub fn num_cols(&self) -> (n: usize)
        ensures
            n == self@.num_cols,
            n <= MAX_COUNT,
    {
        proof {
            use_type_invariant(self);
        }
        self.num_cols
    }

    /// Returns the number of rows in the model.
    pub fn num_rows(&self) -> (n: usize)
        ensures
            n == self@.num_rows,
            n <= MAX_COUNT,
    {
        proof {
            use_type_invariant(self);
        }
        self.num_rows
    }

    /// Adds a column to the model.
    ///
    /// # Arguments
    ///
    /// * `colentries` - The coefficients of the column, one for each row from
    ///   the first on.
    /// * `objval` - The objective value of the column.
    /// * `lb` - The lower bound of the column.
    /// * `ub` - The upper bound of the column.
    ///
    /// # Returns
    ///
    /// The `ColId` of the added column, which is the number of columns that
    /// the model held before, and the call that adds it to the engine's
    /// instance.
    pub fn add_col(&mut self, colentries: &[Real], objval: Real, lb: Real, ub: Real) -> (added: (
        ColId,
        EngineCall,
    ))
        requires
            old(self)@.num_cols < MAX_COUNT,
            colentries@.len() <= MAX_COUNT,
        ensures
            added.0@ == old(self)@.num_cols,
            final(self)@ == old(self)@.add_col(colentries@),
            added.1 == (EngineCall::AddCol {
                size: colentries@.len() as i32,
                nnonzeros: nonzero_count(colentries@) as i32,
                objval,
                lb,
                ub,
            }),
    {
        proof {
            use_type_invariant(&*self);
        }
        let (nnonzeros, reach) = measure(colentries);
        let colsize = colentries.len();
        let id = ColId(self.num_cols);
        self.num_cols = self.num_cols + 1;
        if reach > self.num_rows {
            self.num_rows = reach;
        }
        (id, EngineCall::AddCol { size: colsize as i32, nnonzeros: nnonzeros as i32, objval, lb, ub })
    }

    /// Adds a row to the model.
    ///
    /// # Arguments
    ///
    /// * `rowentries` - The coefficients of the row, one for each column from
    ///   the first on.
    /// * `lhs` - The left-hand side of the row.
    /// * `rhs` - The right-hand side of the row.
    ///
    /// # Returns
    ///
    /// The `RowId` of the added row, which is the number of rows that the
    /// model held before, and the call that adds it to the engine's instance.
    pub fn add_row(&mut self, rowentries: &[Real], lhs: Real, rhs: Real) -> (added: (
        RowId,
        EngineCall,
    ))
        requires
            old(self)@.num_rows < MAX_COUNT,
            rowentries@.len() <= MAX_COUNT,
        ensures
            added.0@ == old(self)@.num_rows,
            final(self)@ == old(self)@.add_row(rowentries@),
            added.1 == (EngineCall::AddRow {
                size: rowentries@.len() as i32,
                nnonzeros: nonzero_count(rowentries@) as i32,
                lhs,
                rhs,
            }),
    {
        proof {
            use_type_invariant(&*self);
        }
        let (nnonzeros, reach) = measure(rowentries);
        let rowsize = rowentries.len();
        let id = RowId(self.num_rows);
        self.num_rows = self.num_rows + 1;
        if reach > self.num_cols {
            self.num_cols = reach;
        }
        (id, EngineCall::AddRow { size: rowsize as i32, nnonzeros: nnonzeros as i32, lhs, rhs })
    }

    /// Remove a column from the model. The columns behind it move down by
    /// one, and ids that were given for them no longer name them.
    pub fn remove_col(&mut self, col_id: ColId) -> (call: EngineCall)
        requires
            col_id@ < old(self)@.num_cols,
        ensures
            final(self)@ == old(self)@.remove_col(),
            call == (EngineCall::RemoveCol { index: col_id@ as i32 }),
    {
        proof {
            use_type_invariant(&*self);
        }
        self.num_cols = self.num_cols - 1;
        EngineCall::RemoveCol { index: col_id.0 as i32 }
    }

    /// Remove a row from the model. The rows behind it move down by one, and
    /// ids that were given for them no longer name them.
    pub fn remove_row(&mut self, row_id: RowId) -> (call: EngineCall)
        requires
            row_id@ < old(self)@.num_rows,
        ensures
            final(self)@ == old(self)@.remove_row(),
            call == (EngineCall::RemoveRow { index: row_id@ as i32 }),
    {
        proof {
            use_type_invariant(&*self);
        }
        self.num_rows = self.num_rows - 1;
        EngineCall::RemoveRow { index: row_id.0 as i32 }
    }

    /// Read instance from lp/mps file.
    ///
    /// # Arguments
    /// * `filename` - The name of the lp/mps file to read from.
    /// * `exists` - Whether there is a file of that name.
    ///
    /// # Errors
    /// `FileNotFound` if the file does not exist, else `UnsupportedFormat` if
    /// its name ends neither in `.lp` nor in `.mps`.
    ///
    /// The model does not change yet: how many columns and rows the engine
    /// has read, [`Model::instance_loaded`] is told after the call.
    pub fn read_file(&mut self, filename: &str, exists: bool) -> (call: Result<
        EngineCall,
        ReadFileError,
    >)
        ensures
            final(self)@ == old(self)@,
            call == match check(filename.spec_bytes(), exists) {
                Ok(_) => Ok::<EngineCall, ReadFileError>(EngineCall::ReadInstanceFile),
                Err(e) => Err(e),
            },
    {
        match check_instance_file(filename, exists) {
            Ok(_) => Ok(EngineCall::ReadInstanceFile),
            Err(e) => Err(e),
        }
    }

    /// Takes note that the engine has read an instance in place of the one it
    /// held, with `num_cols` columns and `num_rows` rows.
    pub fn instance_loaded(&mut self, num_cols: usize, num_rows: usize)
        requires
            num_cols <= MAX_COUNT,
            num_rows <= MAX_COUNT,
        ensures
            final(self)@ == old(self)@.loaded(num_cols as nat, num_rows as nat),
    {
        proof {
            use_type_invariant(&*self);
        }
        self.num_cols = num_cols;
        self.num_rows = num_rows;
    }

    /// Sets boolean parameter.
    ///
    /// # Arguments
    /// * `param` - which `BoolParam` to set.
    /// * `value` - The value of the parameter.
    pub fn set_bool_param(&mut self, param: BoolParam, value: bool) -> (call: EngineCall)
        ensures
            final(self)@ == old(self)@,
            call == (EngineCall::SetBoolParam {
                id: param.spec_id(),
                value: if value {
                    1i32
                } else {
                    0i32
                },
            }),
    {
        let flag: i32 = if value {
            1
        } else {
            0
        };
        EngineCall::SetBoolParam { id: i32::from(param), value: flag }
    }

    /// Sets integer parameter.
    ///
    /// # Arguments
    /// * `param` - which `IntParam` to set.
    /// * `value` - The value of the parameter.
    pub fn set_int_param(&mut self, param: IntParam, value: i32) -> (call: EngineCall)
        ensures
            final(self)@ == old(self)@,
            call == (EngineCall::SetIntParam { id: param.spec_id(), value }),
    {
        EngineCall::SetIntParam { id: i32::from(param), value }
    }

    /// Sets real parameter.
    ///
    /// # Arguments
    /// * `param` - which `RealParam` to set.
    /// * `value` - The value of the parameter.
    pub fn set_real_param(&mut self, param: RealParam, value: Real) -> (call: EngineCall)
        ensures
            final(self)@ == old(self)@,
            call == (EngineCall::SetRealParam { id: param.spec_id(), value }),
    {
        EngineCall::SetRealParam { id: i32::from(param), value }
    }

    /// Change the bounds of a column.
    ///
    /// # Arguments
    /// * `col_id` - The `ColId` of the column to change.
    /// * `lb` - The new lower bound of the column.
    /// * `ub` - The new upper bound of the column.
    pub fn change_col_bounds(&mut self, col_id: ColId, lb: Real, ub: Real) -> (call: EngineCall)
        requires
            col_id@ < old(self)@.num_cols,
        ensures
            final(self)@ == old(self)@,
            call == (EngineCall::ChangeColBounds { index: col_id@ as i32, lb, ub }),
    {
        proof {
            use_type_invariant(&*self);
        }
        EngineCall::ChangeColBounds { index: col_id.0 as i32, lb, ub }
    }

    /// Change the range (bounds) of a row.
    ///
    /// # Arguments
    /// * `row_id` - The `RowId` of the row to change.
    /// * `lhs` - The new left-hand side of the row.
    /// * `rhs` - The new right-hand side of the row.
    pub fn change_row_range(&mut self, row_id: RowId, lhs: Real, rhs: Real) -> (call: EngineCall)
        requires
            row_id@ < old(self)@.num_rows,
        ensures
            final(self)@ == old(self)@,
            call == (EngineCall::ChangeRowRange { index: row_id@ as i32, lhs, rhs }),
    {
        proof {
            use_type_invariant(&*self);
        }
        EngineCall::ChangeRowRange { index: row_id.0 as i32, lhs, rhs }
    }

    /// Sets the objective sense of the model.
    ///
    /// # Arguments
    /// * `sense` - The objective sense of the model.
    pub fn set_obj_sense(&mut self, sense: ObjSense) -> (call: EngineCall)
        ensures
            final(self)@ == old(self)@,
            call == (EngineCall::SetIntParam { id: OBJSENSE_PARAM_ID, value: sense.spec_value() }),
    {
        EngineCall::SetIntParam { id: OBJSENSE_PARAM_ID, value: i32::from(sense) }
    }

    /// Sets the algorithm to use.
    ///
    /// # Arguments
    /// * `algorithm` - The `Algorithm` to use.
    pub fn set_algorithm(&mut self, algorithm: Algorithm) -> (call: EngineCall)
        ensures
            final(self)@ == old(self)@,
            call == (EngineCall::SetIntParam { id: ALGORITHM_PARAM_ID, value: algorithm.spec_value() }),
    {
        EngineCall::SetIntParam { id: ALGORITHM_PARAM_ID, value: i32::from(algorithm) }
    }

    /// Sets the representation of the model.
    ///
    /// # Arguments
    /// * `representation` - The `Representation` of the model.
    pub fn set_representation(&mut self, representation: Representation) -> (call: EngineCall)
        ensures
            final(self)@ == old(self)@,
            call == (EngineCall::SetIntParam { id: REPR_PARAM_ID, value: representation.spec_value() }),
    {
        EngineCall::SetIntParam { id: REPR_PARAM_ID, value: i32::from(representation) }
    }

    /// Sets the verbosity level.
    ///
    /// # Arguments
    /// * `verbosity` - The verbosity level.
    pub fn set_verbosity(&mut self, verbosity: i32) -> (call: EngineCall)
        ensures
            final(self)@ == old(self)@,
            call == (EngineCall::SetIntParam { id: VERBOSITY_PARAM_ID, value: verbosity }),
    {
        EngineCall::SetIntParam { id: VERBOSITY_PARAM_ID, value: verbosity }
    }

    /// Sets the factor update type.
    ///
    /// # Arguments
    /// * `factor_update_type` - The factor update type.
    pub fn set_factor_update_type(&mut self, factor_update_type: FactorUpdateType) -> (call: EngineCall)
        ensures
            final(self)@ == old(self)@,
            call == (EngineCall::SetIntParam { id: FACTOR_UPDATE_TYPE_PARAM_ID, value: factor_update_type.spec_value() }),
    {
        EngineCall::SetIntParam { id: FACTOR_UPDATE_TYPE_PARAM_ID, value: i32::from(factor_update_type) }
    }

    /// Sets the simplifier type.
    ///
    /// # Arguments
    /// * `simplifier_type` - The simplifier type.
    pub fn set_simplifier_type(&mut self, simplifier_type: Simplifier) -> (call: EngineCall)
        ensures
            final(self)@ == old(self)@,
            call == (EngineCall::SetIntParam { id: SIMPLIFIER_PARAM_ID, value: simplifier_type.spec_value() }),
    {
        EngineCall::SetIntParam { id: SIMPLIFIER_PARAM_ID, value: i32::from(simplifier_type) }
    }

    /// Sets the starter type.
    ///
    /// # Arguments
    /// * `starter_type` - The starter type.
    pub fn set_starter_type(&mut self, starter_type: Starter) -> (call: EngineCall)
        ensures
            final(self)@ == old(self)@,
            call == (EngineCall::SetIntParam { id: STARTER_PARAM_ID, value: starter_type.spec_value() }),
    {
        EngineCall::SetIntParam { id: STARTER_PARAM_ID, value: i32::from(starter_type) }
    }

    /// Sets the pricer type.
    ///
    /// # Arguments
    /// * `pricer_type` - The pricer type.
    pub fn set_pricer_type(&mut self, pricer_type: Pricer) -> (call: EngineCall)
        ensures
            final(self)@ == old(self)@,
            call == (EngineCall::SetIntParam { id: PRICER_PARAM_ID, value: pricer_type.spec_value() }),
    {
        EngineCall::SetIntParam { id: PRICER_PARAM_ID, value: i32::from(pricer_type) }
    }

    /// Sets the ratio tester type.
    ///
    /// # Arguments
    /// * `ratio_tester_type` - The ratio tester type.
    pub fn set_ratio_tester_type(&mut self, ratio_tester_type: RatioTester) -> (call: EngineCall)
        ensures
            final(self)@ == old(self)@,
            call == (EngineCall::SetIntParam { id: RATIO_TESTER_PARAM_ID, value: ratio_tester_type.spec_value() }),
    {
        EngineCall::SetIntParam { id: RATIO_TESTER_PARAM_ID, value: i32::from(ratio_tester_type) }
    }

    /// Sets the sync mode.
    ///
    /// # Arguments
    /// * `sync_mode` - The sync mode.
    pub fn set_sync_mode(&mut self, sync_mode: SyncMode) -> (call: EngineCall)
        ensures
            final(self)@ == old(self)@,
            call == (EngineCall::SetIntParam { id: SYNC_MODE_PARAM_ID, value: sync_mode.spec_value() }),
    {
        EngineCall::SetIntParam { id: SYNC_MODE_PARAM_ID, value: i32::from(sync_mode) }
    }

    /// Sets the read mode.
    ///
    /// # Arguments
    /// * `read_mode` - The read mode.
    pub fn set_read_mode(&mut self, read_mode: ReadMode) -> (call: EngineCall)
        ensures
            final(self)@ == old(self)@,
            call == (EngineCall::SetIntParam { id: READ_MODE_PARAM_ID, value: read_mode.spec_value() }),
    {
        EngineCall::SetIntParam { id: READ_MODE_PARAM_ID, value: i32::from(read_mode) }
    }

    /// Sets the solve mode.
    ///
    /// # Arguments
    /// * `solve_mode` - The solve mode.
    pub fn set_solve_mode(&mut self, solve_mode: SolveMode) -> (call: EngineCall)
        ensures
            final(self)@ == old(self)@,
            call == (EngineCall::SetIntParam { id: SOLVE_MODE_PARAM_ID, value: solve_mode.spec_value() }),
    {
        EngineCall::SetIntParam { id: SOLVE_MODE_PARAM_ID, value: i32::from(solve_mode) }
    }

    /// Sets the check mode.
    ///
    /// # Arguments
    /// * `check_mode` - The check mode.
    pub fn set_check_mode(&mut self, check_mode: CheckMode) -> (call: EngineCall)
        ensures
            final(self)@ == old(self)@,
            call == (EngineCall::SetIntParam { id: CHECK_MODE_PARAM_ID, value: check_mode.spec_value() }),
    {
        EngineCall::SetIntParam { id: CHECK_MODE_PARAM_ID, value: i32::from(check_mode) }
    }

    /// Sets the timer mode.
    ///
    /// # Arguments
    /// * `timer_mode` - The timer mode.
    pub fn set_timer_mode(&mut self, timer_mode: Timer) -> (call: EngineCall)
        ensures
            final(self)@ == old(self)@,
            call == (EngineCall::SetIntParam { id: TIMER_PARAM_ID, value: timer_mode.spec_value() }),
    {
        EngineCall::SetIntParam { id: TIMER_PARAM_ID, value: i32::from(timer_mode) }
    }

    /// Sets the hyper pricing parameter.
    ///
    /// # Arguments
    /// * `hyper_pricing` - The hyper pricing parameter.
    pub fn set_hyper_pricing(&mut self, hyper_pricing: HyperPricing) -> (call: EngineCall)
        ensures
            final(self)@ == old(self)@,
            call == (EngineCall::SetIntParam { id: HYPER_PRICING_PARAM_ID, value: hyper_pricing.spec_value() }),
    {
        EngineCall::SetIntParam { id: HYPER_PRICING_PARAM_ID, value: i32::from(hyper_pricing) }
    }

    /// Sets the solution polishing type.
    ///
    /// # Arguments
    /// * `solution_polishing` - The solution polishing type.
    pub fn set_solution_polishing(&mut self, solution_polishing: SolutionPolishing) -> (call: EngineCall)
        ensures
            final(self)@ == old(self)@,
            call == (EngineCall::SetIntParam { id: SOLUTION_POLISHING_PARAM_ID, value: solution_polishing.spec_value() }),
    {
        EngineCall::SetIntParam { id: SOLUTION_POLISHING_PARAM_ID, value: i32::from(solution_polishing) }
    }

    /// Sets the decomposition verbosity.
    ///
    /// # Arguments
    /// * `decomp_verbosity` - The decomposition verbosity.
    pub fn set_decomp_verbosity(&mut self, decomp_verbosity: Verbosity) -> (call: EngineCall)
        ensures
            final(self)@ == old(self)@,
            call == (EngineCall::SetIntParam { id: DECOMP_VERBOSITY_PARAM_ID, value: decomp_verbosity.spec_value() }),
    {
        EngineCall::SetIntParam { id: DECOMP_VERBOSITY_PARAM_ID, value: i32::from(decomp_verbosity) }
    }

    /// Sets the statistics timer parameter.
    ///
    /// # Arguments
    /// * `stat_timer` - The statistics timer parameter.
    pub fn set_stat_timer(&mut self, stat_timer: Timer) -> (call: EngineCall)
        ensures
            final(self)@ == old(self)@,
            call == (EngineCall::SetIntParam { id: STAT_TIMER_PARAM_ID, value: stat_timer.spec_value() }),
    {
        EngineCall::SetIntParam { id: STAT_TIMER_PARAM_ID, value: i32::from(stat_timer) }
    }

    /// Sets the scalar type.
    ///
    /// # Arguments
    /// * `scalar_type` - The scalar type.
    pub fn set_scalar_type(&mut self, scalar_type: Scalar) -> (call: EngineCall)
        ensures
            final(self)@ == old(self)@,
            call == (EngineCall::SetIntParam { id: SCALAR_PARAM_ID, value: scalar_type.spec_value() }),
    {
        EngineCall::SetIntParam { id: SCALAR_PARAM_ID, value: i32::from(scalar_type) }
    }

    /// Optimizes the model and returns the solved model.
    ///
    /// # Arguments
    /// * `solution` - What the engine reported of the one solve that it made
    ///   of this model's instance.
    pub fn optimize(self, solution: Solution) -> (solved: SolvedModel<H>)
        requires
            solution@.fits(self@.num_cols, self@.num_rows),
        ensures
            solved@ == self@.solved(solution@),
    {
        proof {
            use_type_invariant(&self);
        }
        SolvedModel {
            inner: self.inner,
            num_cols: self.num_cols,
            num_rows: self.num_rows,
            solution,
        }
    }
}

/// A solved linear programming model.
pub struct SolvedModel<H> {
    inner: H,
    num_cols: usize,
    num_rows: usize,
    solution: Solution,
}

/// A solved model as a mathematical value: the handle of the engine's
/// instance, how many columns and rows that instance holds, and what the
/// engine reported of the solve.
pub struct SolvedModelView<H> {
    pub handle: H,
    pub num_cols: nat,
    pub num_rows: nat,
    pub solution: SolutionView,
}


impl<H> SolvedModelView<H> {
    /// The model that the solved model turns into: the same instance, with
    /// as many columns and rows.
    pub open spec fn model(self) -> ModelView<H> {
        ModelView { handle: self.handle, num_cols: self.num_cols, num_rows: self.num_rows }
    }
}

impl<H> View for SolvedModel<H> {
    type V = SolvedModelView<H>;

    closed spec fn view(&self) -> SolvedModelView<H> {
        SolvedModelView {
            handle: self.inner,
            num_cols: self.num_cols as nat,
            num_rows: self.num_rows as nat,
            solution: self.solution@,
        }
    }
}

/// A vector with the values of `values`.
fn copy_of(values: &Vec<Real>) -> (copy: Vec<Real>)
    ensures
        copy@ == values@,
{
    let mut copy: Vec<Real> = Vec::new();
    let mut i: usize = 0;
    while i < values.len()
        invariant
            i <= values.len(),
            copy@ == values@.take(i as int),
        decreases values.len() - i,
    {
        copy.push(values[i]);
        assert(values@.take(i + 1) =~= values@.take(i as int).push(values@[i as int]));
        i = i + 1;
    }
    assert(values@.take(i as int) =~= values@);
    copy
}

impl<H> SolvedModel<H> {
    /// The engine numbers columns and rows by 32-bit integers, and reported
    /// one value for each of them.
    #[verifier::type_invariant]
    spec fn solution_fits(self) -> bool {
        &&& self.num_cols <= MAX_COUNT
        &&& self.num_rows <= MAX_COUNT
        &&& self.solution@.fits(self.num_cols as nat, self.num_rows as nat)
    }

    /// The handle of the engine's instance.
    pub fn handle(&self) -> (handle: &H)
        ensures
            *handle == self@.handle,
    {
        &self.inner
    }

    /// What the engine reported of the solve.
    pub fn solution(&self) -> (solution: &Solution)
        ensures
            solution@ == self@.solution,
            solution@.fits(self@.num_cols, self@.num_rows),
    {
        proof {
            use_type_invariant(self);
        }
        &self.solution
    }

    /// Returns the number of columns in the model.
    pub fn num_cols(&self) -> (n: usize)
        ensures
            n == self@.num_cols,
            n <= MAX_COUNT,
    {
        proof {
            use_type_invariant(self);
        }
        self.num_cols
    }

    /// Returns the number of rows in the model.
    pub fn num_rows(&self) -> (n: usize)
        ensures
            n == self@.num_rows,
            n <= MAX_COUNT,
    {
        proof {
            use_type_invariant(self);
        }
        self.num_rows
    }

    /// Returns the `Status` of the model.
    pub fn status(&self) -> (status: Status)
        requires
            Status::is_code(self@.solution.status_code),
        ensures
            status == Status::of_code(self@.solution.status_code),
    {
        Status::from(self.solution.status_code)
    }

    /// Returns the objective value of the model.
    pub fn obj_val(&self) -> (value: Real)
        ensures
            value == self@.solution.objective,
    {
        self.solution.objective
    }

    /// Returns the primal solution of the model: one value for each column.
    pub fn primal_solution(&self) -> (primal: Vec<Real>)
        ensures
            primal@ == self@.solution.primal,
            primal@.len() == self@.num_cols,
    {
        proof {
            use_type_invariant(self);
        }
        copy_of(&self.solution.primal)
    }

    /// Returns the dual solution of the model: one value for each row.
    pub fn dual_solution(&self) -> (dual: Vec<Real>)
        ensures
            dual@ == self@.solution.dual,
            dual@.len() == self@.num_rows,
    {
        proof {
            use_type_invariant(self);
        }
        copy_of(&self.solution.dual)
    }

    /// Returns the solving time of the model in seconds.
    pub fn solving_time(&self) -> (seconds: Real)
        ensures
            seconds == self@.solution.solving_time,
    {
        self.solution.solving_time
    }

    /// Returns the reduced costs of the model: one value for each column.
    pub fn reduced_costs(&self) -> (redcosts: Vec<Real>)
        ensures
            redcosts@ == self@.solution.reduced_costs,
            redcosts@.len() == self@.num_cols,
    {
        proof {
            use_type_invariant(self);
        }
        copy_of(&self.solution.reduced_costs)
    }

    /// Returns the number of iterations it took to solve the model.
    pub fn num_iterations(&self) -> (iterations: i32)
        ensures
            iterations == self@.solution.iterations,
    {
        self.solution.iterations
    }

    /// Returns the basis status of a column.
    ///
    /// # Arguments
    /// * `col_id` - The `ColId` of the column.
    ///
    /// # Returns
    /// The `BasisStatus` of the column.
    pub fn col_basis_status(&self, col_id: ColId) -> (status: ColBasisStatus)
        requires
            col_id@ < self@.num_cols,
            ColBasisStatus::is_code(self@.solution.col_basis[col_id@ as int]),
        ensures
            status == ColBasisStatus::of_code(self@.solution.col_basis[col_id@ as int]),
    {
        proof {
            use_type_invariant(self);
        }
        ColBasisStatus::from(self.solution.col_basis[col_id.0])
    }

    /// Returns the basis status of a row.
    ///
    /// # Arguments
    /// * `row_id` - The `RowId` of the row.
    ///
    /// # Returns
    /// The `BasisStatus` of the row.
    pub fn row_basis_status(&self, row_id: RowId) -> (status: RowBasisStatus)
        requires
            row_id@ < self@.num_rows,
            RowBasisStatus::is_code(self@.solution.row_basis[row_id@ as int]),
        ensures
            status == RowBasisStatus::of_code(self@.solution.row_basis[row_id@ as int]),
    {
        proof {
            use_type_invariant(self);
        }
        RowBasisStatus::from(self.solution.row_basis[row_id.0])
    }
}

impl<H> From<SolvedModel<H>> for Model<H> {
    /// Turns the solved model into a model that can be changed again: the
    /// same instance of the engine, with as many columns and rows.
    fn from(solved_model: SolvedModel<H>) -> (model: Model<H>)
        ensures
            model@ == solved_model@.model(),
    {
        proof {
            use_type_invariant(&solved_model);
        }
        Self {
            inner: solved_model.inner,
            num_cols: solved_model.num_cols,
            num_rows: solved_model.num_rows,
        }
    }
}

impl<H> vstd::std_specs::convert::FromSpecImpl<SolvedModel<H>> for Model<H> {
    open spec fn obeys_from_spec() -> bool {
        true
    }

    closed spec fn from_spec(solved_model: SolvedModel<H>) -> Model<H> {
        Model {
            inner: solved_model.inner,
            num_cols: solved_model.num_cols,
            num_rows: solved_model.num_rows,
        }
    }
}

} // verus!
