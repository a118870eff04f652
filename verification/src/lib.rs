//! A verified modeling layer for linear programs solved by the SoPlex engine.
//!
//! A [`Model`] is built column by column and row by row, configured through
//! typed parameters, and solved; the [`SolvedModel`] that comes out answers
//! questions about the solution and can be turned into a `Model` again.
//!
//! The library holds the rules and none of the engine: how columns and rows
//! are numbered, which call of the engine each change amounts to
//! ([`EngineCall`]), and what the integers mean that the engine answers with
//! ([`Status`], [`ColBasisStatus`], [`RowBasisStatus`]). Whoever holds the
//! engine makes the calls and hands back what it reported ([`Solution`]).
//! Real numbers pass through as their bit patterns ([`Real`]).

pub mod basis_status;
pub mod coefficients;
pub mod engine;
pub mod instance_file;
pub mod lifecycle;
pub mod model;
pub mod param;
pub mod scalar;
pub mod status;

pub use basis_status::{ColBasisStatus, RowBasisStatus};
pub use engine::{EngineCall, Solution};
pub use instance_file::ReadFileError;
pub use model::{ColId, Model, RowId, SolvedModel};
pub use param::{
    Algorithm, BoolParam, CheckMode, FactorUpdateType, HyperPricing, IntParam, ObjSense, Pricer,
    RatioTester, ReadMode, RealParam, Representation, Scalar, Simplifier, SolutionPolishing,
    SolveMode, Starter, SyncMode, Timer, Verbosity,
};
pub use scalar::Real;
pub use status::Status;
