//! The engine's parameters: which there are, the identifier of each, and the
//! integers that stand for the values of those with a closed set of values.

use vstd::prelude::*;

verus! {

/// Represents the boolean parameters for some LP solver.
#[derive(Debug, Clone, Copy, PartialEq, Eq, Structural)]
pub enum BoolParam {
    /// Should lifting be used to reduce range of nonzero matrix coefficients?
    Lifting,
    /// Should LP be transformed to equality form before a rational solve?
    EqTrans,
    /// Should dual infeasibility be tested in order to try to return a dual solution even if primal infeasible?
    TestDualInf,
    /// Should a rational factorization be performed after iterative refinement?
    RatFac,
    /// Should the decomposition based dual simplex be used to solve the LP?
    /// Setting this to true forces the solve mode to SOLVEMODE_REAL and the basis representation to REPRESENTATION_ROW
    UseDecompDualSimplex,
    /// Should the degeneracy be computed for each basis?
    ComputeDegen,
    /// Should the dual of the complementary problem be used in the decomposition simplex?
    UseCompDual,
    /// Should row and bound violations be computed explicitly in the update of reduced problem in the decomposition simplex
    ExplicitViol,
    /// Should cycling solutions be accepted during iterative refinement?
    AcceptCycling,
    /// Apply rational reconstruction after each iterative refinement?
    RatRec,
    /// Round scaling factors for iterative refinement to powers of two?
    PowerScaling,
    /// Continue iterative refinement with exact basic solution if not optimal?
    RatFacJump,
    /// Use bound flipping also for row representation?
    RowBoundFlips,
    /// Use persistent scaling?
    PersistentScaling,
    /// Perturb the entire problem or only the relevant bounds of a single pivot?
    FullPerturbation,
    /// Re-optimize the original problem to get a proof (ray) of infeasibility/unboundedness?
    EnsureRay,
    /// Try to enforce that the optimal solution is a basic solution
    ForceBasic,
    /// Enable presolver SingletonCols in PaPILO?
    SimplifierSingletonCols,
    /// Enable presolver ConstraintPropagation in PaPILO?
    SimplifierConstraintPropagation,
    /// Enable presolver ParallelRowDetection in PaPILO?
    SimplifierParallelRowDetection,
    /// Enable presolver ParallelColDetection in PaPILO?
    SimplifierParallelColDetection,
    /// Enable presolver SingletonStuffing in PaPILO?
    SimplifierSingletonStuffing,
    /// Enable presolver DualFix in PaPILO?
    SimplifierDualFix,
    /// Enable presolver FixContinuous in PaPILO?
    SimplifierFixContinuous,
    /// Enable presolver DominatedCols in PaPILO?
    SimplifierDominatedCols,
}

impl BoolParam {
    /// The identifier under which the engine knows this parameter.
    pub open spec fn spec_id(self) -> i32 {
        match self {
            BoolParam::Lifting => 0i32,
            BoolParam::EqTrans => 1i32,
            BoolParam::TestDualInf => 2i32,
            BoolParam::RatFac => 3i32,
            BoolParam::UseDecompDualSimplex => 4i32,
            BoolParam::ComputeDegen => 5i32,
            BoolParam::UseCompDual => 6i32,
            BoolParam::ExplicitViol => 7i32,
            BoolParam::AcceptCycling => 8i32,
            BoolParam::RatRec => 9i32,
            BoolParam::PowerScaling => 10i32,
            BoolParam::RatFacJump => 11i32,
            BoolParam::RowBoundFlips => 12i32,
            BoolParam::PersistentScaling => 13i32,
            BoolParam::FullPerturbation => 14i32,
            BoolParam::EnsureRay => 15i32,
            BoolParam::ForceBasic => 16i32,
            BoolParam::SimplifierSingletonCols => 17i32,
            BoolParam::SimplifierConstraintPropagation => 18i32,
            BoolParam::SimplifierParallelRowDetection => 19i32,
            BoolParam::SimplifierParallelColDetection => 20i32,
            BoolParam::SimplifierSingletonStuffing => 21i32,
            BoolParam::SimplifierDualFix => 22i32,
            BoolParam::SimplifierFixContinuous => 23i32,
            BoolParam::SimplifierDominatedCols => 24i32,
        }
    }

    /// The identifier under which the engine knows this parameter.
    #[verifier::when_used_as_spec(spec_id)]
    pub fn id(self) -> (id: i32)
        ensures
            id == self.spec_id(),
    {
        match self {
            BoolParam::Lifting => 0,
            BoolParam::EqTrans => 1,
            BoolParam::TestDualInf => 2,
            BoolParam::RatFac => 3,
            BoolParam::UseDecompDualSimplex => 4,
            BoolParam::ComputeDegen => 5,
            BoolParam::UseCompDual => 6,
            BoolParam::ExplicitViol => 7,
            BoolParam::AcceptCycling => 8,
            BoolParam::RatRec => 9,
            BoolParam::PowerScaling => 10,
            BoolParam::RatFacJump => 11,
            BoolParam::RowBoundFlips => 12,
            BoolParam::PersistentScaling => 13,
            BoolParam::FullPerturbation => 14,
            BoolParam::EnsureRay => 15,
            BoolParam::ForceBasic => 16,
            BoolParam::SimplifierSingletonCols => 17,
            BoolParam::SimplifierConstraintPropagation => 18,
            BoolParam::SimplifierParallelRowDetection => 19,
            BoolParam::SimplifierParallelColDetection => 20,
            BoolParam::SimplifierSingletonStuffing => 21,
            BoolParam::SimplifierDualFix => 22,
            BoolParam::SimplifierFixContinuous => 23,
            BoolParam::SimplifierDominatedCols => 24,
        }
    }
}

impl From<BoolParam> for i32 {
    fn from(param: BoolParam) -> (id: i32) {
        param.id()
    }
}

impl vstd::std_specs::convert::FromSpecImpl<BoolParam> for i32 {
    open spec fn obeys_from_spec() -> bool {
        true
    }

    open spec fn from_spec(param: BoolParam) -> i32 {
        param.spec_id()
    }
}

/// Identifier of the integer parameter: objective sense.
pub const OBJSENSE_PARAM_ID: i32 = 0;

/// Identifier of the integer parameter: representation of the basis.
pub const REPR_PARAM_ID: i32 = 1;

/// Identifier of the integer parameter: type of algorithm.
pub const ALGORITHM_PARAM_ID: i32 = 2;

/// Identifier of the integer parameter: type of LU update.
pub const FACTOR_UPDATE_TYPE_PARAM_ID: i32 = 3;

/// Identifier of the integer parameter: verbosity level.
pub const VERBOSITY_PARAM_ID: i32 = 9;

/// Identifier of the integer parameter: type of simplifier.
pub const SIMPLIFIER_PARAM_ID: i32 = 10;

/// Identifier of the integer parameter: type of scaler.
pub const SCALAR_PARAM_ID: i32 = 11;

/// Identifier of the integer parameter: type of starter used to create the crash basis.
pub const STARTER_PARAM_ID: i32 = 12;

/// Identifier of the integer parameter: type of pricer.
pub const PRICER_PARAM_ID: i32 = 13;

/// Identifier of the integer parameter: type of ratio test.
pub const RATIO_TESTER_PARAM_ID: i32 = 14;

/// Identifier of the integer parameter: mode for synchronizing real and rational LP.
pub const SYNC_MODE_PARAM_ID: i32 = 15;

/// Identifier of the integer parameter: mode for reading LP files.
pub const READ_MODE_PARAM_ID: i32 = 16;

/// Identifier of the integer parameter: mode for iterative refinement strategy.
pub const SOLVE_MODE_PARAM_ID: i32 = 17;

/// Identifier of the integer parameter: mode for a posteriori feasibility checks.
pub const CHECK_MODE_PARAM_ID: i32 = 18;

/// Identifier of the integer parameter: type of timer.
pub const TIMER_PARAM_ID: i32 = 19;

/// Identifier of the integer parameter: mode for hyper sparse pricing.
pub const HYPER_PRICING_PARAM_ID: i32 = 20;

/// Identifier of the integer parameter: mode for solution polishing.
pub const SOLUTION_POLISHING_PARAM_ID: i32 = 23;

/// Identifier of the integer parameter: verbosity of the decomposition based simplex.
pub const DECOMP_VERBOSITY_PARAM_ID: i32 = 27;

/// Identifier of the integer parameter: type of the timer for statistics.
pub const STAT_TIMER_PARAM_ID: i32 = 29;

/// Enum representing the objective sense for optimization.
#[derive(Debug, Clone, Copy, PartialEq, Eq, Structural)]
pub enum ObjSense {
    /// Minimize the objective function.
    Minimize,
    /// Maximize the objective function.
    Maximize,
}

impl ObjSense {
    /// The integer that stands for this value at the engine.
    pub open spec fn spec_value(self) -> i32 {
        match self {
            ObjSense::Minimize => -1i32,
            ObjSense::Maximize => 1i32,
        }
    }

    /// The integer that stands for this value at the engine.
    #[verifier::when_used_as_spec(spec_value)]
    pub fn value(self) -> (value: i32)
        ensures
            value == self.spec_value(),
    {
        match self {
            ObjSense::Minimize => -1,
            ObjSense::Maximize => 1,
        }
    }

    /// Whether `value` stands for an objective sense.
    pub open spec fn is_value(value: i32) -> bool {
        value == -1 || value == 1
    }

    /// The objective sense that `value` stands for; for another integer the
    /// result is of no use.
    pub open spec fn of_value(value: i32) -> ObjSense {
        if value == -1 {
            ObjSense::Minimize
        } else {
            ObjSense::Maximize
        }
    }

    /// Decodes an integer that may stand for an objective sense: `None` where
    /// it stands for none.
    pub fn from_value(value: i32) -> (sense: Option<ObjSense>)
        ensures
            sense.is_some() <==> ObjSense::is_value(value),
            sense matches Some(s) ==> s == ObjSense::of_value(value) && s.spec_value() == value,
    {
        match value {
            -1 => Some(ObjSense::Minimize),
            1 => Some(ObjSense::Maximize),
            _ => None,
        }
    }

    /// Decodes an integer that stands for an objective sense.
    pub fn from(value: i32) -> (sense: ObjSense)
        requires
            ObjSense::is_value(value),
        ensures
            sense == ObjSense::of_value(value),
            sense.spec_value() == value,
    {
        match ObjSense::from_value(value) {
            Some(sense) => sense,
            None => vstd::pervasive::unreached(),
        }
    }
}

impl From<ObjSense> for i32 {
    fn from(param: ObjSense) -> (value: i32) {
        param.value()
    }
}

impl vstd::std_specs::convert::FromSpecImpl<ObjSense> for i32 {
    open spec fn obeys_from_spec() -> bool {
        true
    }

    open spec fn from_spec(param: ObjSense) -> i32 {
        param.spec_value()
    }
}

/// Enum representing the type of representation.
#[derive(Debug, Clone, Copy, PartialEq, Eq, Structural)]
pub enum Representation {
    /// Automatically determine the representation type.
    Auto,
    /// Column-based representation.
    Column,
    /// Row-based representation.
    Row,
}

impl Representation {
    /// The integer that stands for this value at the engine.
    pub open spec fn spec_value(self) -> i32 {
        match self {
            Representation::Auto => 0i32,
            Representation::Column => 1i32,
            Representation::Row => 2i32,
        }
    }

    /// The integer that stands for this value at the engine.
    #[verifier::when_used_as_spec(spec_value)]
    pub fn value(self) -> (value: i32)
        ensures
            value == self.spec_value(),
    {
        match self {
            Representation::Auto => 0,
            Representation::Column => 1,
            Representation::Row => 2,
        }
    }
}

impl From<Representation> for i32 {
    fn from(param: Representation) -> (value: i32) {
        param.value()
    }
}

impl vstd::std_specs::convert::FromSpecImpl<Representation> for i32 {
    open spec fn obeys_from_spec() -> bool {
        true
    }

    open spec fn from_spec(param: Representation) -> i32 {
        param.spec_value()
    }
}

/// Enum representing the type of algorithm used.
#[derive(Debug, Clone, Copy, PartialEq, Eq, Structural)]
pub enum Algorithm {
    /// Primal algorithm.
    Primal,
    /// Dual algorithm.
    Dual,
}

impl Algorithm {
    /// The integer that stands for this value at the engine.
    pub open spec fn spec_value(self) -> i32 {
        match self {
            Algorithm::Primal => 0i32,
            Algorithm::Dual => 1i32,
        }
    }

    /// The integer that stands for this value at the engine.
    #[verifier::when_used_as_spec(spec_value)]
    pub fn value(self) -> (value: i32)
        ensures
            value == self.spec_value(),
    {
        match self {
            Algorithm::Primal => 0,
            Algorithm::Dual => 1,
        }
    }
}

impl From<Algorithm> for i32 {
    fn from(param: Algorithm) -> (value: i32) {
        param.value()
    }
}

impl vstd::std_specs::convert::FromSpecImpl<Algorithm> for i32 {
    open spec fn obeys_from_spec() -> bool {
        true
    }

    open spec fn from_spec(param: Algorithm) -> i32 {
        param.spec_value()
    }
}

/// Enum representing the factor update type.
#[derive(Debug, Clone, Copy, PartialEq, Eq, Structural)]
pub enum FactorUpdateType {
    /// ETA update type.
    Eta,
    /// FT update type.
    Ft,
}

impl FactorUpdateType {
    /// The integer that stands for this value at the engine.
    pub open spec fn spec_value(self) -> i32 {
        match self {
            FactorUpdateType::Eta => 0i32,
            FactorUpdateType::Ft => 1i32,
        }
    }

    /// The integer that stands for this value at the engine.
    #[verifier::when_used_as_spec(spec_value)]
    pub fn value(self) -> (value: i32)
        ensures
            value == self.spec_value(),
    {
        match self {
            FactorUpdateType::Eta => 0,
            FactorUpdateType::Ft => 1,
        }
    }
}

impl From<FactorUpdateType> for i32 {
    fn from(param: FactorUpdateType) -> (value: i32) {
        param.value()
    }
}

impl vstd::std_specs::convert::FromSpecImpl<FactorUpdateType> for i32 {
    open spec fn obeys_from_spec() -> bool {
        true
    }

    open spec fn from_spec(param: FactorUpdateType) -> i32 {
        param.spec_value()
    }
}

/// Enum representing verbosity levels.
#[derive(Debug, Clone, Copy, PartialEq, Eq, Structural)]
pub enum Verbosity {
    /// Only show errors.
    Error,
    /// Show warnings and errors.
    Warning,
    /// Show debug information.
    Debug,
    /// Show normal information.
    Normal,
    /// Show high-level information.
    High,
    /// Show full details.
    Full,
}

impl Verbosity {
    /// The integer that stands for this value at the engine.
    pub open spec fn spec_value(self) -> i32 {
        match self {
            Verbosity::Error => 0i32,
            Verbosity::Warning => 1i32,
            Verbosity::Debug => 2i32,
            Verbosity::Normal => 3i32,
            Verbosity::High => 4i32,
            Verbosity::Full => 5i32,
        }
    }

    /// The integer that stands for this value at the engine.
    #[verifier::when_used_as_spec(spec_value)]
    pub fn value(self) -> (value: i32)
        ensures
            value == self.spec_value(),
    {
        match self {
            Verbosity::Error => 0,
            Verbosity::Warning => 1,
            Verbosity::Debug => 2,
            Verbosity::Normal => 3,
            Verbosity::High => 4,
            Verbosity::Full => 5,
        }
    }
}

impl From<Verbosity> for i32 {
    fn from(param: Verbosity) -> (value: i32) {
        param.value()
    }
}

impl vstd::std_specs::convert::FromSpecImpl<Verbosity> for i32 {
    open spec fn obeys_from_spec() -> bool {
        true
    }

    open spec fn from_spec(param: Verbosity) -> i32 {
        param.spec_value()
    }
}

/// Enum representing the simplifier type.
#[derive(Debug, Clone, Copy, PartialEq, Eq, Structural)]
pub enum Simplifier {
    /// Simplification is turned off.
    Off,
    /// Use internal simplifier.
    Internal,
    /// Use Papilo simplifier.
    Papilo,
    /// Automatically choose the simplifier.
    Auto,
}

impl Simplifier {
    /// The integer that stands for this value at the engine.
    pub open spec fn spec_value(self) -> i32 {
        match self {
            Simplifier::Off => 0i32,
            Simplifier::Internal => 3i32,
            Simplifier::Papilo => 2i32,
            Simplifier::Auto => 1i32,
        }
    }

    /// The integer that stands for this value at the engine.
    #[verifier::when_used_as_spec(spec_value)]
    pub fn value(self) -> (value: i32)
        ensures
            value == self.spec_value(),
    {
        match self {
            Simplifier::Off => 0,
            Simplifier::Internal => 3,
            Simplifier::Papilo => 2,
            Simplifier::Auto => 1,
        }
    }
}

impl From<Simplifier> for i32 {
    fn from(param: Simplifier) -> (value: i32) {
        param.value()
    }
}

impl vstd::std_specs::convert::FromSpecImpl<Simplifier> for i32 {
    open spec fn obeys_from_spec() -> bool {
        true
    }

    open spec fn from_spec(param: Simplifier) -> i32 {
        param.spec_value()
    }
}

/// Enum representing the scalar type.
#[derive(Debug, Clone, Copy, PartialEq, Eq, Structural)]
pub enum Scalar {
    /// Scalar operation is turned off.
    Off,
    /// Use uniequi scalar.
    Uniequi,
    /// Use biequi scalar.
    Biequi,
    /// GE01 scalar.
    Ge01,
    /// GE08 scalar.
    Ge08,
    /// Least squares scalar.
    Leastsq,
    /// Geometric equivalence scalar.
    Geoequi,
}

impl Scalar {
    /// The integer that stands for this value at the engine.
    pub open spec fn spec_value(self) -> i32 {
        match self {
            Scalar::Off => 0i32,
            Scalar::Uniequi => 1i32,
            Scalar::Biequi => 2i32,
            Scalar::Ge01 => 3i32,
            Scalar::Ge08 => 4i32,
            Scalar::Leastsq => 5i32,
            Scalar::Geoequi => 6i32,
        }
    }

    /// The integer that stands for this value at the engine.
    #[verifier::when_used_as_spec(spec_value)]
    pub fn value(self) -> (value: i32)
        ensures
            value == self.spec_value(),
    {
        match self {
            Scalar::Off => 0,
            Scalar::Uniequi => 1,
            Scalar::Biequi => 2,
            Scalar::Ge01 => 3,
            Scalar::Ge08 => 4,
            Scalar::Leastsq => 5,
            Scalar::Geoequi => 6,
        }
    }
}

impl From<Scalar> for i32 {
    fn from(param: Scalar) -> (value: i32) {
        param.value()
    }
}

impl vstd::std_specs::convert::FromSpecImpl<Scalar> for i32 {
    open spec fn obeys_from_spec() -> bool {
        true
    }

    open spec fn from_spec(param: Scalar) -> i32 {
        param.spec_value()
    }
}

/// Enum representing the starter type.
#[derive(Debug, Clone, Copy, PartialEq, Eq, Structural)]
pub enum Starter {
    /// Starter is turned off.
    Off,
    /// Use weight-based starter.
    Weight,
    /// Use sum-based starter.
    Sum,
    /// Use vector-based starter.
    Vector,
}

impl Starter {
    /// The integer that stands for this value at the engine.
    pub open spec fn spec_value(self) -> i32 {
        match self {
            Starter::Off => 0i32,
            Starter::Weight => 1i32,
            Starter::Sum => 2i32,
            Starter::Vector => 3i32,
        }
    }

    /// The integer that stands for this value at the engine.
    #[verifier::when_used_as_spec(spec_value)]
    pub fn value(self) -> (value: i32)
        ensures
            value == self.spec_value(),
    {
        match self {
            Starter::Off => 0,
            Starter::Weight => 1,
            Starter::Sum => 2,
            Starter::Vector => 3,
        }
    }
}

impl From<Starter> for i32 {
    fn from(param: Starter) -> (value: i32) {
        param.value()
    }
}

impl vstd::std_specs::convert::FromSpecImpl<Starter> for i32 {
    open spec fn obeys_from_spec() -> bool {
        true
    }

    open spec fn from_spec(param: Starter) -> i32 {
        param.spec_value()
    }
}

/// Enum representing the pricer type.
#[derive(Debug, Clone, Copy, PartialEq, Eq, Structural)]
pub enum Pricer {
    /// Automatically choose the pricer.
    Auto,
    /// Use Dantzig pricer.
    Dantzig,
    /// Use parallel multiple pricer.
    Parmult,
    /// Use Devex pricer.
    Devex,
    /// Use quick steepest edge pricer.
    Quicksteep,
    /// Use steepest edge pricer.
    Steep,
}

impl Pricer {
    /// The integer that stands for this value at the engine.
    pub open spec fn spec_value(self) -> i32 {
        match self {
            Pricer::Auto => 0i32,
            Pricer::Dantzig => 1i32,
            Pricer::Parmult => 2i32,
            Pricer::Devex => 3i32,
            Pricer::Quicksteep => 4i32,
            Pricer::Steep => 5i32,
        }
    }

    /// The integer that stands for this value at the engine.
    #[verifier::when_used_as_spec(spec_value)]
    pub fn value(self) -> (value: i32)
        ensures
            value == self.spec_value(),
    {
        match self {
            Pricer::Auto => 0,
            Pricer::Dantzig => 1,
            Pricer::Parmult => 2,
            Pricer::Devex => 3,
            Pricer::Quicksteep => 4,
            Pricer::Steep => 5,
        }
    }
}

impl From<Pricer> for i32 {
    fn from(param: Pricer) -> (value: i32) {
        param.value()
    }
}

impl vstd::std_specs::convert::FromSpecImpl<Pricer> for i32 {
    open spec fn obeys_from_spec() -> bool {
        true
    }

    open spec fn from_spec(param: Pricer) -> i32 {
        param.spec_value()
    }
}

/// Enum representing the ratio tester type.
#[derive(Debug, Clone, Copy, PartialEq, Eq, Structural)]
pub enum RatioTester {
    /// Use textbook ratio test.
    Textbook,
    /// Use Harris ratio test.
    Harris,
    /// Use fast ratio test.
    Fast,
    /// Use bound flipping ratio test.
    Boundflipping,
}

impl RatioTester {
    /// The integer that stands for this value at the engine.
    pub open spec fn spec_value(self) -> i32 {
        match self {
            RatioTester::Textbook => 0i32,
            RatioTester::Harris => 1i32,
            RatioTester::Fast => 2i32,
            RatioTester::Boundflipping => 3i32,
        }
    }

    /// The integer that stands for this value at the engine.
    #[verifier::when_used_as_spec(spec_value)]
    pub fn value(self) -> (value: i32)
        ensures
            value == self.spec_value(),
    {
        match self {
            RatioTester::Textbook => 0,
            RatioTester::Harris => 1,
            RatioTester::Fast => 2,
            RatioTester::Boundflipping => 3,
        }
    }
}

impl From<RatioTester> for i32 {
    fn from(param: RatioTester) -> (value: i32) {
        param.value()
    }
}

impl vstd::std_specs::convert::FromSpecImpl<RatioTester> for i32 {
    open spec fn obeys_from_spec() -> bool {
        true
    }

    open spec fn from_spec(param: RatioTester) -> i32 {
        param.spec_value()
    }
}

/// Enum representing the synchronization mode.
#[derive(Debug, Clone, Copy, PartialEq, Eq, Structural)]
pub enum SyncMode {
    /// Only sync real values.
    Onlyreal,
    /// Automatically sync.
    Auto,
    /// Manually sync.
    Manual,
}

impl SyncMode {
    /// The integer that stands for this value at the engine.
    pub open spec fn spec_value(self) -> i32 {
        match self {
            SyncMode::Onlyreal => 0i32,
            SyncMode::Auto => 1i32,
            SyncMode::Manual => 2i32,
        }
    }

    /// The integer that stands for this value at the engine.
    #[verifier::when_used_as_spec(spec_value)]
    pub fn value(self) -> (value: i32)
        ensures
            value == self.spec_value(),
    {
        match self {
            SyncMode::Onlyreal => 0,
            SyncMode::Auto => 1,
            SyncMode::Manual => 2,
        }
    }
}

impl From<SyncMode> for i32 {
    fn from(param: SyncMode) -> (value: i32) {
        param.value()
    }
}

impl vstd::std_specs::convert::FromSpecImpl<SyncMode> for i32 {
    open spec fn obeys_from_spec() -> bool {
        true
    }

    open spec fn from_spec(param: SyncMode) -> i32 {
        param.spec_value()
    }
}

/// Enum representing the read mode.
#[derive(Debug, Clone, Copy, PartialEq, Eq, Structural)]
pub enum ReadMode {
    /// Read real values.
    Real,
    /// Read rational values.
    Rational,
}

impl ReadMode {
    /// The integer that stands for this value at the engine.
    pub open spec fn spec_value(self) -> i32 {
        match self {
            ReadMode::Real => 0i32,
            ReadMode::Rational => 1i32,
        }
    }

    /// The integer that stands for this value at the engine.
    #[verifier::when_used_as_spec(spec_value)]
    pub fn value(self) -> (value: i32)
        ensures
            value == self.spec_value(),
    {
        match self {
            ReadMode::Real => 0,
            ReadMode::Rational => 1,
        }
    }
}

impl From<ReadMode> for i32 {
    fn from(param: ReadMode) -> (value: i32) {
        param.value()
    }
}

impl vstd::std_specs::convert::FromSpecImpl<ReadMode> for i32 {
    open spec fn obeys_from_spec() -> bool {
        true
    }

    open spec fn from_spec(param: ReadMode) -> i32 {
        param.spec_value()
    }
}

/// Enum representing the solve mode.
#[derive(Debug, Clone, Copy, PartialEq, Eq, Structural)]
pub enum SolveMode {
    /// Solve with real values.
    Real,
    /// Automatically determine the solve mode.
    Auto,
    /// Solve with rational values.
    Rational,
}

impl SolveMode {
    /// The integer that stands for this value at the engine.
    pub open spec fn spec_value(self) -> i32 {
        match self {
            SolveMode::Real => 0i32,
            SolveMode::Auto => 1i32,
            SolveMode::Rational => 2i32,
        }
    }

    /// The integer that stands for this value at the engine.
    #[verifier::when_used_as_spec(spec_value)]
    pub fn value(self) -> (value: i32)
        ensures
            value == self.spec_value(),
    {
        match self {
            SolveMode::Real => 0,
            SolveMode::Auto => 1,
            SolveMode::Rational => 2,
        }
    }
}

impl From<SolveMode> for i32 {
    fn from(param: SolveMode) -> (value: i32) {
        param.value()
    }
}

impl vstd::std_specs::convert::FromSpecImpl<SolveMode> for i32 {
    open spec fn obeys_from_spec() -> bool {
        true
    }

    open spec fn from_spec(param: SolveMode) -> i32 {
        param.spec_value()
    }
}

/// Enum representing the check mode.
#[derive(Debug, Clone, Copy, PartialEq, Eq, Structural)]
pub enum CheckMode {
    /// Check real values.
    Real,
    /// Automatically determine the check mode.
    Auto,
    /// Check rational values.
    Rational,
}

impl CheckMode {
    /// The integer that stands for this value at the engine.
    pub open spec fn spec_value(self) -> i32 {
        match self {
            CheckMode::Real => 0i32,
            CheckMode::Auto => 1i32,
            CheckMode::Rational => 2i32,
        }
    }

    /// The integer that stands for this value at the engine.
    #[verifier::when_used_as_spec(spec_value)]
    pub fn value(self) -> (value: i32)
        ensures
            value == self.spec_value(),
    {
        match self {
            CheckMode::Real => 0,
            CheckMode::Auto => 1,
            CheckMode::Rational => 2,
        }
    }
}

impl From<CheckMode> for i32 {
    fn from(param: CheckMode) -> (value: i32) {
        param.value()
    }
}

impl vstd::std_specs::convert::FromSpecImpl<CheckMode> for i32 {
    open spec fn obeys_from_spec() -> bool {
        true
    }

    open spec fn from_spec(param: CheckMode) -> i32 {
        param.spec_value()
    }
}

/// Enum representing the timer type.
#[derive(Debug, Clone, Copy, PartialEq, Eq, Structural)]
pub enum Timer {
    /// Timer is turned off.
    Off,
    /// Use CPU timer.
    Cpu,
    /// Use wall clock timer.
    Wallclock,
}

impl Timer {
    /// The integer that stands for this value at the engine.
    pub open spec fn spec_value(self) -> i32 {
        match self {
            Timer::Off => 0i32,
            Timer::Cpu => 1i32,
            Timer::Wallclock => 2i32,
        }
    }

    /// The integer that stands for this value at the engine.
    #[verifier::when_used_as_spec(spec_value)]
    pub fn value(self) -> (value: i32)
        ensures
            value == self.spec_value(),
    {
        match self {
            Timer::Off => 0,
            Timer::Cpu => 1,
            Timer::Wallclock => 2,
        }
    }
}

impl From<Timer> for i32 {
    fn from(param: Timer) -> (value: i32) {
        param.value()
    }
}

impl vstd::std_specs::convert::FromSpecImpl<Timer> for i32 {
    open spec fn obeys_from_spec() -> bool {
        true
    }

    open spec fn from_spec(param: Timer) -> i32 {
        param.spec_value()
    }
}

/// Enum representing the hyperpricing mode.
#[derive(Debug, Clone, Copy, PartialEq, Eq, Structural)]
pub enum HyperPricing {
    /// Hyperpricing is turned off.
    Off,
    /// Automatically choose hyperpricing.
    Auto,
    /// Hyperpricing is turned on.
    On,
}

impl HyperPricing {
    /// The integer that stands for this value at the engine.
    pub open spec fn spec_value(self) -> i32 {
        match self {
            HyperPricing::Off => 0i32,
            HyperPricing::Auto => 1i32,
            HyperPricing::On => 2i32,
        }
    }

    /// The integer that stands for this value at the engine.
    #[verifier::when_used_as_spec(spec_value)]
    pub fn value(self) -> (value: i32)
        ensures
            value == self.spec_value(),
    {
        match self {
            HyperPricing::Off => 0,
            HyperPricing::Auto => 1,
            HyperPricing::On => 2,
        }
    }
}

impl From<HyperPricing> for i32 {
    fn from(param: HyperPricing) -> (value: i32) {
        param.value()
    }
}

impl vstd::std_specs::convert::FromSpecImpl<HyperPricing> for i32 {
    open spec fn obeys_from_spec() -> bool {
        true
    }

    open spec fn from_spec(param: HyperPricing) -> i32 {
        param.spec_value()
    }
}

/// Enum representing the solution polishing mode.
#[derive(Debug, Clone, Copy, PartialEq, Eq, Structural)]
pub enum SolutionPolishing {
    /// Solution polishing is turned off.
    Off,
    /// Polishing for integrality.
    Integrality,
    /// Polishing for fractionality.
    Fractionality,
}

impl SolutionPolishing {
    /// The integer that stands for this value at the engine.
    pub open spec fn spec_value(self) -> i32 {
        match self {
            SolutionPolishing::Off => 0i32,
            SolutionPolishing::Integrality => 1i32,
            SolutionPolishing::Fractionality => 2i32,
        }
    }

    /// The integer that stands for this value at the engine.
    #[verifier::when_used_as_spec(spec_value)]
    pub fn value(self) -> (value: i32)
        ensures
            value == self.spec_value(),
    {
        match self {
            SolutionPolishing::Off => 0,
            SolutionPolishing::Integrality => 1,
            SolutionPolishing::Fractionality => 2,
        }
    }
}

impl From<SolutionPolishing> for i32 {
    fn from(param: SolutionPolishing) -> (value: i32) {
        param.value()
    }
}

impl vstd::std_specs::convert::FromSpecImpl<SolutionPolishing> for i32 {
    open spec fn obeys_from_spec() -> bool {
        true
    }

    open spec fn from_spec(param: SolutionPolishing) -> i32 {
        param.spec_value()
    }
}

/// Represents the integer parameters for some LP solver.
#[derive(Debug, Clone, Copy, PartialEq, Eq, Structural)]
pub enum IntParam {
    /// Maximum number of updates without fresh factorization
    FactorUpdateMax,
    /// Iteration limit (-1 if unlimited)
    IterLimit,
    /// Refinement limit (-1 if unlimited)
    RefLimit,
    /// Stalling refinement limit (-1 if unlimited)
    StallRefLimit,
    /// Display frequency
    DisplayFreq,
    /// Minimum number of stalling refinements since last pivot to trigger rational factorization
    RatFacMinStalls,
    /// Maximum number of conjugate gradient iterations in least square scaling
    LeastSqMaxRounds,
    /// Number of iterations before the decomposition simplex initialization is terminated
    DecompIterLimit,
    /// Maximum number of rows added in each iteration of the decomposition based simplex
    DecompMaxAddedRows,
    /// Iteration frequency at which the decomposition solve output is displayed
    DecompDisplayFreq,
    /// Print condition number during the solve
    PrintBasisMetric,
}

impl IntParam {
    /// The identifier under which the engine knows this parameter.
    pub open spec fn spec_id(self) -> i32 {
        match self {
            IntParam::FactorUpdateMax => 4i32,
            IntParam::IterLimit => 5i32,
            IntParam::RefLimit => 6i32,
            IntParam::StallRefLimit => 7i32,
            IntParam::DisplayFreq => 8i32,
            IntParam::RatFacMinStalls => 21i32,
            IntParam::LeastSqMaxRounds => 22i32,
            IntParam::DecompIterLimit => 24i32,
            IntParam::DecompMaxAddedRows => 25i32,
            IntParam::DecompDisplayFreq => 26i32,
            IntParam::PrintBasisMetric => 28i32,
        }
    }

    /// The identifier under which the engine knows this parameter.
    #[verifier::when_used_as_spec(spec_id)]
    pub fn id(self) -> (id: i32)
        ensures
            id == self.spec_id(),
    {
        match self {
            IntParam::FactorUpdateMax => 4,
            IntParam::IterLimit => 5,
            IntParam::RefLimit => 6,
            IntParam::StallRefLimit => 7,
            IntParam::DisplayFreq => 8,
            IntParam::RatFacMinStalls => 21,
            IntParam::LeastSqMaxRounds => 22,
            IntParam::DecompIterLimit => 24,
            IntParam::DecompMaxAddedRows => 25,
            IntParam::DecompDisplayFreq => 26,
            IntParam::PrintBasisMetric => 28,
        }
    }
}

impl From<IntParam> for i32 {
    fn from(param: IntParam) -> (id: i32) {
        param.id()
    }
}

impl vstd::std_specs::convert::FromSpecImpl<IntParam> for i32 {
    open spec fn obeys_from_spec() -> bool {
        true
    }

    open spec fn from_spec(param: IntParam) -> i32 {
        param.spec_id()
    }
}

/// Represents the real number parameters for some LP solver.
#[derive(Debug, Clone, Copy, PartialEq, Eq, Structural)]
pub enum RealParam {
    /// Primal feasibility tolerance
    FeasTol,
    /// Dual feasibility tolerance
    OptTol,
    /// General zero tolerance
    EpsilonZero,
    /// Zero tolerance used in factorization
    EpsilonFactorization,
    /// Zero tolerance used in update of the factorization
    EpsilonUpdate,
    /// Pivot zero tolerance used in factorization
    EpsilonPivot,
    /// Infinity threshold
    Infty,
    /// Time limit in seconds (INFTY if unlimited)
    TimeLimit,
    /// Lower limit on objective value
    ObjLimitLower,
    /// Upper limit on objective value
    ObjLimitUpper,
    /// Working tolerance for feasibility in floating-point solver during iterative refinement
    FpFeasTol,
    /// Working tolerance for optimality in floating-point solver during iterative refinement
    FpOptTol,
    /// Maximum increase of scaling factors between refinements
    MaxScaleIncr,
    /// Lower threshold in lifting (nonzero matrix coefficients with smaller absolute value will be reformulated)
    LiftMinVal,
    /// Upper threshold in lifting (nonzero matrix coefficients with larger absolute value will be reformulated)
    LiftMaxVal,
    /// Sparse pricing threshold (#violations < dimension * SPARSITY_THRESHOLD activates sparse pricing)
    SparsityThreshold,
    /// Threshold on number of rows vs. number of columns for switching from column to row representations in auto mode
    RepresentationSwitch,
    /// Geometric frequency at which to apply rational reconstruction
    RatRecFreq,
    /// Minimal reduction (sum of removed rows/cols) to continue simplification
    MinRed,
    /// Refactor threshold for nonzeros in last factorized basis matrix compared to updated basis matrix
    RefacBasisNnz,
    /// Refactor threshold for fill-in in current factor update compared to fill-in in last factorization
    RefacUpdateFill,
    /// Refactor threshold for memory growth in factorization since last refactorization
    RefacMemFactor,
    /// Accuracy of conjugate gradient method in least squares scaling (higher value leads to more iterations)
    LeastSqAcrcy,
    /// Objective offset
    ObjOffset,
    /// Minimal Markowitz threshold to control sparsity/stability in LU factorization
    MinMarkowitz,
    /// Minimal modification threshold to apply presolve reductions
    SimplifierModifyRowFac,
}

impl RealParam {
    /// The identifier under which the engine knows this parameter.
    pub open spec fn spec_id(self) -> i32 {
        match self {
            RealParam::FeasTol => 0i32,
            RealParam::OptTol => 1i32,
            RealParam::EpsilonZero => 2i32,
            RealParam::EpsilonFactorization => 3i32,
            RealParam::EpsilonUpdate => 4i32,
            RealParam::EpsilonPivot => 5i32,
            RealParam::Infty => 6i32,
            RealParam::TimeLimit => 7i32,
            RealParam::ObjLimitLower => 8i32,
            RealParam::ObjLimitUpper => 9i32,
            RealParam::FpFeasTol => 10i32,
            RealParam::FpOptTol => 11i32,
            RealParam::MaxScaleIncr => 12i32,
            RealParam::LiftMinVal => 13i32,
            RealParam::LiftMaxVal => 14i32,
            RealParam::SparsityThreshold => 15i32,
            RealParam::RepresentationSwitch => 16i32,
            RealParam::RatRecFreq => 17i32,
            RealParam::MinRed => 18i32,
            RealParam::RefacBasisNnz => 19i32,
            RealParam::RefacUpdateFill => 20i32,
            RealParam::RefacMemFactor => 21i32,
            RealParam::LeastSqAcrcy => 22i32,
            RealParam::ObjOffset => 23i32,
            RealParam::MinMarkowitz => 24i32,
            RealParam::SimplifierModifyRowFac => 25i32,
        }
    }

    /// The identifier under which the engine knows this parameter.
    #[verifier::when_used_as_spec(spec_id)]
    pub fn id(self) -> (id: i32)
        ensures
            id == self.spec_id(),
    {
        match self {
            RealParam::FeasTol => 0,
            RealParam::OptTol => 1,
            RealParam::EpsilonZero => 2,
            RealParam::EpsilonFactorization => 3,
            RealParam::EpsilonUpdate => 4,
            RealParam::EpsilonPivot => 5,
            RealParam::Infty => 6,
            RealParam::TimeLimit => 7,
            RealParam::ObjLimitLower => 8,
            RealParam::ObjLimitUpper => 9,
            RealParam::FpFeasTol => 10,
            RealParam::FpOptTol => 11,
            RealParam::MaxScaleIncr => 12,
            RealParam::LiftMinVal => 13,
            RealParam::LiftMaxVal => 14,
            RealParam::SparsityThreshold => 15,
            RealParam::RepresentationSwitch => 16,
            RealParam::RatRecFreq => 17,
            RealParam::MinRed => 18,
            RealParam::RefacBasisNnz => 19,
            RealParam::RefacUpdateFill => 20,
            RealParam::RefacMemFactor => 21,
            RealParam::LeastSqAcrcy => 22,
            RealParam::ObjOffset => 23,
            RealParam::MinMarkowitz => 24,
            RealParam::SimplifierModifyRowFac => 25,
        }
    }
}

impl From<RealParam> for i32 {
    fn from(param: RealParam) -> (id: i32) {
        param.id()
    }
}

impl vstd::std_specs::convert::FromSpecImpl<RealParam> for i32 {
    open spec fn obeys_from_spec() -> bool {
        true
    }

    open spec fn from_spec(param: RealParam) -> i32 {
        param.spec_id()
    }
}
/// The identifiers of the integer parameters that have a setter of their own,
/// each with its own closed set of values, in the order of their declaration.
pub open spec fn dedicated_int_param_ids() -> Seq<i32> {
    seq![
        OBJSENSE_PARAM_ID,
        REPR_PARAM_ID,
        ALGORITHM_PARAM_ID,
        FACTOR_UPDATE_TYPE_PARAM_ID,
        VERBOSITY_PARAM_ID,
        SIMPLIFIER_PARAM_ID,
        SCALAR_PARAM_ID,
        STARTER_PARAM_ID,
        PRICER_PARAM_ID,
        RATIO_TESTER_PARAM_ID,
        SYNC_MODE_PARAM_ID,
        READ_MODE_PARAM_ID,
        SOLVE_MODE_PARAM_ID,
        CHECK_MODE_PARAM_ID,
        TIMER_PARAM_ID,
        HYPER_PRICING_PARAM_ID,
        SOLUTION_POLISHING_PARAM_ID,
        DECOMP_VERBOSITY_PARAM_ID,
        STAT_TIMER_PARAM_ID,
    ]
}

/// Two boolean parameters with the same identifier are the same parameter,
/// and the identifiers of the boolean parameters are the integers from 0 to 24.
pub proof fn lemma_bool_param_ids(a: BoolParam, b: BoolParam)
    ensures
        a.spec_id() == b.spec_id() ==> a == b,
        0 <= a.spec_id() <= 24,
{
}

/// Every integer from 0 to 24 is the identifier of a boolean parameter.
pub proof fn lemma_bool_param_ids_onto(id: i32) -> (param: BoolParam)
    requires
        0 <= id <= 24,
    ensures
        param.spec_id() == id,
{
    if id == 0 {
        BoolParam::Lifting
    } else if id == 1 {
        BoolParam::EqTrans
    } else if id == 2 {
        BoolParam::TestDualInf
    } else if id == 3 {
        BoolParam::RatFac
    } else if id == 4 {
        BoolParam::UseDecompDualSimplex
    } else if id == 5 {
        BoolParam::ComputeDegen
    } else if id == 6 {
        BoolParam::UseCompDual
    } else if id == 7 {
        BoolParam::ExplicitViol
    } else if id == 8 {
        BoolParam::AcceptCycling
    } else if id == 9 {
        BoolParam::RatRec
    } else if id == 10 {
        BoolParam::PowerScaling
    } else if id == 11 {
        BoolParam::RatFacJump
    } else if id == 12 {
        BoolParam::RowBoundFlips
    } else if id == 13 {
        BoolParam::PersistentScaling
    } else if id == 14 {
        BoolParam::FullPerturbation
    } else if id == 15 {
        BoolParam::EnsureRay
    } else if id == 16 {
        BoolParam::ForceBasic
    } else if id == 17 {
        BoolParam::SimplifierSingletonCols
    } else if id == 18 {
        BoolParam::SimplifierConstraintPropagation
    } else if id == 19 {
        BoolParam::SimplifierParallelRowDetection
    } else if id == 20 {
        BoolParam::SimplifierParallelColDetection
    } else if id == 21 {
        BoolParam::SimplifierSingletonStuffing
    } else if id == 22 {
        BoolParam::SimplifierDualFix
    } else if id == 23 {
        BoolParam::SimplifierFixContinuous
    } else {
        BoolParam::SimplifierDominatedCols
    }
}

/// Two real parameters with the same identifier are the same parameter, and
/// the identifiers of the real parameters are the integers from 0 to 25.
pub proof fn lemma_real_param_ids(a: RealParam, b: RealParam)
    ensures
        a.spec_id() == b.spec_id() ==> a == b,
        0 <= a.spec_id() <= 25,
{
}

/// Every integer from 0 to 25 is the identifier of a real parameter.
pub proof fn lemma_real_param_ids_onto(id: i32) -> (param: RealParam)
    requires
        0 <= id <= 25,
    ensures
        param.spec_id() == id,
{
    if id == 0 {
        RealParam::FeasTol
    } else if id == 1 {
        RealParam::OptTol
    } else if id == 2 {
        RealParam::EpsilonZero
    } else if id == 3 {
        RealParam::EpsilonFactorization
    } else if id == 4 {
        RealParam::EpsilonUpdate
    } else if id == 5 {
        RealParam::EpsilonPivot
    } else if id == 6 {
        RealParam::Infty
    } else if id == 7 {
        RealParam::TimeLimit
    } else if id == 8 {
        RealParam::ObjLimitLower
    } else if id == 9 {
        RealParam::ObjLimitUpper
    } else if id == 10 {
        RealParam::FpFeasTol
    } else if id == 11 {
        RealParam::FpOptTol
    } else if id == 12 {
        RealParam::MaxScaleIncr
    } else if id == 13 {
        RealParam::LiftMinVal
    } else if id == 14 {
        RealParam::LiftMaxVal
    } else if id == 15 {
        RealParam::SparsityThreshold
    } else if id == 16 {
        RealParam::RepresentationSwitch
    } else if id == 17 {
        RealParam::RatRecFreq
    } else if id == 18 {
        RealParam::MinRed
    } else if id == 19 {
        RealParam::RefacBasisNnz
    } else if id == 20 {
        RealParam::RefacUpdateFill
    } else if id == 21 {
        RealParam::RefacMemFactor
    } else if id == 22 {
        RealParam::LeastSqAcrcy
    } else if id == 23 {
        RealParam::ObjOffset
    } else if id == 24 {
        RealParam::MinMarkowitz
    } else {
        RealParam::SimplifierModifyRowFac
    }
}

/// Two integer parameters with the same identifier are the same parameter;
/// their identifiers lie between 0 and 29, and none of them is the identifier
/// of a parameter that has a setter of its own.
pub proof fn lemma_int_param_ids(a: IntParam, b: IntParam)
    ensures
        a.spec_id() == b.spec_id() ==> a == b,
        0 <= a.spec_id() <= 29,
        !dedicated_int_param_ids().contains(a.spec_id()),
{
    let ids = dedicated_int_param_ids();
    assert forall|i: int| 0 <= i < ids.len() implies ids[i] != a.spec_id() by {}
}

/// No two of the parameters that have a setter of their own share an
/// identifier, and each of their identifiers lies between 0 and 29.
pub proof fn lemma_dedicated_int_param_ids_distinct()
    ensures
        dedicated_int_param_ids().len() == 19,
        dedicated_int_param_ids().no_duplicates(),
        forall|i: int|
            0 <= i < 19 ==> 0 <= #[trigger] dedicated_int_param_ids()[i] <= 29,
{
}

/// Every integer from 0 to 29 is the identifier of exactly one integer
/// parameter: of one that is set by its name and an integer, or of one that has
/// a setter of its own.
pub proof fn lemma_int_param_ids_partition(id: i32)
    requires
        0 <= id <= 29,
    ensures
        dedicated_int_param_ids().contains(id) != (exists|p: IntParam| p.spec_id() == id),
{
    let ids = dedicated_int_param_ids();
    if id == 4 {
        assert(IntParam::FactorUpdateMax.spec_id() == id);
    } else if id == 5 {
        assert(IntParam::IterLimit.spec_id() == id);
    } else if id == 6 {
        assert(IntParam::RefLimit.spec_id() == id);
    } else if id == 7 {
        assert(IntParam::StallRefLimit.spec_id() == id);
    } else if id == 8 {
        assert(IntParam::DisplayFreq.spec_id() == id);
    } else if id == 21 {
        assert(IntParam::RatFacMinStalls.spec_id() == id);
    } else if id == 22 {
        assert(IntParam::LeastSqMaxRounds.spec_id() == id);
    } else if id == 24 {
        assert(IntParam::DecompIterLimit.spec_id() == id);
    } else if id == 25 {
        assert(IntParam::DecompMaxAddedRows.spec_id() == id);
    } else if id == 26 {
        assert(IntParam::DecompDisplayFreq.spec_id() == id);
    } else if id == 28 {
        assert(IntParam::PrintBasisMetric.spec_id() == id);
    } else {
        assert(forall|p: IntParam| p.spec_id() != id);
        let i: int = if id <= 3 {
            id as int
        } else if id <= 20 {
            id - 5
        } else if id == 23 {
            16
        } else if id == 27 {
            17
        } else {
            18
        };
        assert(ids[i] == id);
    }
    if exists|p: IntParam| p.spec_id() == id {
        let p = choose|p: IntParam| p.spec_id() == id;
        lemma_int_param_ids(p, p);
    }
}

/// The integer that stands for an objective sense decodes to that sense, and
/// an integer that stands for an objective sense is the integer of the sense
/// that it decodes to.
pub proof fn lemma_obj_sense_round_trip(sense: ObjSense, value: i32)
    ensures
        ObjSense::is_value(sense.spec_value()),
        ObjSense::of_value(sense.spec_value()) == sense,
        ObjSense::is_value(value) ==> ObjSense::of_value(value).spec_value() == value,
{
}

} // verus!
