//! The outcome of a solve, and the integers by which the engine reports it.

use vstd::prelude::*;

verus! {

/// Status of the solver
#[derive(Debug, Clone, Copy, PartialEq, Eq, Structural)]
pub enum Status {
    /// An error occurred
    Error,
    /// No ratiotester loaded
    NoRatioTester,
    /// No pricer loaded
    NoPricer,
    /// No linear solver loaded
    NoSolver,
    /// Not initialised error
    NotInit,
    /// Solve() aborted to exit decomposition simplex
    AbortExdecomp,
    /// Solve() aborted due to commence decomposition simplex
    AbortDecomp,
    /// Solve() aborted due to detection of cycling
    AbortCycling,
    /// Solve() aborted due to time limit
    AbortTime,
    /// Solve() aborted due to iteration limit
    AbortIter,
    /// Solve() aborted due to objective limit
    AbortValue,
    /// Basis is singular, numerical troubles?
    Singular,
    /// No Problem has been loaded
    NoProblem,
    /// LP has a usable Basis (maybe LP is changed)
    Regular,
    /// Algorithm is running
    Running,
    /// Nothing known on loaded problem
    Unknown,
    /// LP has been solved to optimality
    Optimal,
    /// LP has been proven to be primal unbounded
    Unbounded,
    /// LP has been proven to be primal infeasible
    Infeasible,
    /// LP is primal infeasible or unbounded
    InForUnbd,
    /// LP has been solved to optimality but unscaled solution contains violations
    OptimalUnscaledViolations,
}

impl Status {
    /// The integer by which the engine reports this status.
    pub open spec fn spec_code(self) -> i32 {
        match self {
            Status::Error => -15i32,
            Status::NoRatioTester => -14i32,
            Status::NoPricer => -13i32,
            Status::NoSolver => -12i32,
            Status::NotInit => -11i32,
            Status::AbortExdecomp => -10i32,
            Status::AbortDecomp => -9i32,
            Status::AbortCycling => -8i32,
            Status::AbortTime => -7i32,
            Status::AbortIter => -6i32,
            Status::AbortValue => -5i32,
            Status::Singular => -4i32,
            Status::NoProblem => -3i32,
            Status::Regular => -2i32,
            Status::Running => -1i32,
            Status::Unknown => 0i32,
            Status::Optimal => 1i32,
            Status::Unbounded => 2i32,
            Status::Infeasible => 3i32,
            Status::InForUnbd => 4i32,
            Status::OptimalUnscaledViolations => 5i32,
        }
    }

    /// Whether the engine's table of statuses holds `item`.
    pub open spec fn is_code(item: i32) -> bool {
        -15 <= item <= 5
    }

    /// The status that the engine's table gives for `item`; for an integer
    /// outside the table the result is of no use.
    pub open spec fn of_code(item: i32) -> Status {
        if item == -15 {
            Status::Error
        } else if item == -14 {
            Status::NoRatioTester
        } else if item == -13 {
            Status::NoPricer
        } else if item == -12 {
            Status::NoSolver
        } else if item == -11 {
            Status::NotInit
        } else if item == -10 {
            Status::AbortExdecomp
        } else if item == -9 {
            Status::AbortDecomp
        } else if item == -8 {
            Status::AbortCycling
        } else if item == -7 {
            Status::AbortTime
        } else if item == -6 {
            Status::AbortIter
        } else if item == -5 {
            Status::AbortValue
        } else if item == -4 {
            Status::Singular
        } else if item == -3 {
            Status::NoProblem
        } else if item == -2 {
            Status::Regular
        } else if item == -1 {
            Status::Running
        } else if item == 0 {
            Status::Unknown
        } else if item == 1 {
            Status::Optimal
        } else if item == 2 {
            Status::Unbounded
        } else if item == 3 {
            Status::Infeasible
        } else if item == 4 {
            Status::InForUnbd
        } else {
            Status::OptimalUnscaledViolations
        }
    }

    /// Decodes an integer of the engine's table. Outside the table there is no
    /// status to give: `None`.
    pub fn from_code(item: i32) -> (status: Option<Status>)
        ensures
            status.is_some() <==> Status::is_code(item),
            status matches Some(s) ==> s == Status::of_code(item) && s.spec_code() == item,
    {
        match item {
            -15 => Some(Status::Error),
            -14 => Some(Status::NoRatioTester),
            -13 => Some(Status::NoPricer),
            -12 => Some(Status::NoSolver),
            -11 => Some(Status::NotInit),
            -10 => Some(Status::AbortExdecomp),
            -9 => Some(Status::AbortDecomp),
            -8 => Some(Status::AbortCycling),
            -7 => Some(Status::AbortTime),
            -6 => Some(Status::AbortIter),
            -5 => Some(Status::AbortValue),
            -4 => Some(Status::Singular),
            -3 => Some(Status::NoProblem),
            -2 => Some(Status::Regular),
            -1 => Some(Status::Running),
            0 => Some(Status::Unknown),
            1 => Some(Status::Optimal),
            2 => Some(Status::Unbounded),
            3 => Some(Status::Infeasible),
            4 => Some(Status::InForUnbd),
            5 => Some(Status::OptimalUnscaledViolations),
            _ => None,
        }
    }

    /// Decodes an integer that the engine's table holds.
    pub fn from(item: i32) -> (status: Status)
        requires
            Status::is_code(item),
        ensures
            status == Status::of_code(item),
            status.spec_code() == item,
    {
        match Status::from_code(item) {
            Some(status) => status,
            None => vstd::pervasive::unreached(),
        }
    }

    /// The integer by which the engine reports this status.
    #[verifier::when_used_as_spec(spec_code)]
    pub fn code(self) -> (item: i32)
        ensures
            item == self.spec_code(),
            Status::is_code(item),
    {
        match self {
            Status::Error => -15,
            Status::NoRatioTester => -14,
            Status::NoPricer => -13,
            Status::NoSolver => -12,
            Status::NotInit => -11,
            Status::AbortExdecomp => -10,
            Status::AbortDecomp => -9,
            Status::AbortCycling => -8,
            Status::AbortTime => -7,
            Status::AbortIter => -6,
            Status::AbortValue => -5,
            Status::Singular => -4,
            Status::NoProblem => -3,
            Status::Regular => -2,
            Status::Running => -1,
            Status::Unknown => 0,
            Status::Optimal => 1,
            Status::Unbounded => 2,
            Status::Infeasible => 3,
            Status::InForUnbd => 4,
            Status::OptimalUnscaledViolations => 5,
        }
    }
}

/// Every integer of the engine's table decodes to the status that encodes
/// back to it.
pub proof fn lemma_status_code_round_trip(item: i32)
    requires
        Status::is_code(item),
    ensures
        Status::of_code(item).spec_code() == item,
{
}

/// Every status encodes to an integer of the engine's table, which decodes
/// back to that status.
pub proof fn lemma_status_round_trip(status: Status)
    ensures
        Status::is_code(status.spec_code()),
        Status::of_code(status.spec_code()) == status,
{
}

/// Two statuses with the same integer are the same status.
pub proof fn lemma_status_code_injective(a: Status, b: Status)
    requires
        a.spec_code() == b.spec_code(),
    ensures
        a == b,
{
    lemma_status_round_trip(a);
    lemma_status_round_trip(b);
}

} // verus!
