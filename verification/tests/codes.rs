use soplex_rs::param::{
    ALGORITHM_PARAM_ID, CHECK_MODE_PARAM_ID, DECOMP_VERBOSITY_PARAM_ID,
    FACTOR_UPDATE_TYPE_PARAM_ID, HYPER_PRICING_PARAM_ID, OBJSENSE_PARAM_ID, PRICER_PARAM_ID,
    RATIO_TESTER_PARAM_ID, READ_MODE_PARAM_ID, REPR_PARAM_ID, SCALAR_PARAM_ID,
    SIMPLIFIER_PARAM_ID, SOLUTION_POLISHING_PARAM_ID, SOLVE_MODE_PARAM_ID, STARTER_PARAM_ID,
    STAT_TIMER_PARAM_ID, SYNC_MODE_PARAM_ID, TIMER_PARAM_ID, VERBOSITY_PARAM_ID,
};
use soplex_rs::{
    Algorithm, BoolParam, CheckMode, ColBasisStatus, FactorUpdateType, HyperPricing, IntParam,
    ObjSense, Pricer, RatioTester, ReadMode, RealParam, Representation, RowBasisStatus, Scalar,
    Simplifier, SolutionPolishing, SolveMode, Starter, Status, SyncMode, Timer, Verbosity,
};

#[test]
fn status_table() {
    let table = [
        (-15, Status::Error),
        (-14, Status::NoRatioTester),
        (-13, Status::NoPricer),
        (-12, Status::NoSolver),
        (-11, Status::NotInit),
        (-10, Status::AbortExdecomp),
        (-9, Status::AbortDecomp),
        (-8, Status::AbortCycling),
        (-7, Status::AbortTime),
        (-6, Status::AbortIter),
        (-5, Status::AbortValue),
        (-4, Status::Singular),
        (-3, Status::NoProblem),
        (-2, Status::Regular),
        (-1, Status::Running),
        (0, Status::Unknown),
        (1, Status::Optimal),
        (2, Status::Unbounded),
        (3, Status::Infeasible),
        (4, Status::InForUnbd),
        (5, Status::OptimalUnscaledViolations),
    ];
    for (code, status) in table {
        assert_eq!(Status::from(code), status);
        assert_eq!(Status::from_code(code), Some(status));
        assert_eq!(status.code(), code);
    }
}

#[test]
fn status_outside_the_table_is_none() {
    assert_eq!(Status::from_code(-16), None);
    assert_eq!(Status::from_code(6), None);
    assert_eq!(Status::from_code(i32::MIN), None);
    assert_eq!(Status::from_code(i32::MAX), None);
    for code in -1000..1000 {
        assert_eq!(Status::from_code(code).is_some(), (-15..=5).contains(&code));
    }
}

#[test]
fn col_basis_status_table() {
    let table = [
        (0, ColBasisStatus::AtUpper),
        (1, ColBasisStatus::AtLower),
        (2, ColBasisStatus::Fixed),
        (3, ColBasisStatus::Free),
        (4, ColBasisStatus::Basic),
        (5, ColBasisStatus::Unknown),
    ];
    for (code, status) in table {
        assert_eq!(ColBasisStatus::from(code), status);
        assert_eq!(ColBasisStatus::from_code(code), Some(status));
        assert_eq!(status.code(), code);
    }
    assert_eq!(ColBasisStatus::from_code(-1), None);
    assert_eq!(ColBasisStatus::from_code(6), None);
}

#[test]
fn row_basis_status_table() {
    let table = [
        (0, RowBasisStatus::AtUpper),
        (1, RowBasisStatus::AtLower),
        (2, RowBasisStatus::Fixed),
        (4, RowBasisStatus::Basic),
        (5, RowBasisStatus::Unknown),
    ];
    for (code, status) in table {
        assert_eq!(RowBasisStatus::from(code), status);
        assert_eq!(RowBasisStatus::from_code(code), Some(status));
        assert_eq!(status.code(), code);
    }
    assert_eq!(RowBasisStatus::from_code(3), None);
    assert_eq!(RowBasisStatus::from_code(-1), None);
    assert_eq!(RowBasisStatus::from_code(6), None);
}

#[test]
fn obj_sense_values() {
    assert_eq!(ObjSense::from(-1), ObjSense::Minimize);
    assert_eq!(ObjSense::from(1), ObjSense::Maximize);
    assert_eq!(ObjSense::from_value(0), None);
    assert_eq!(ObjSense::from_value(2), None);
    assert_eq!(ObjSense::from_value(-2), None);
    assert_eq!(i32::from(ObjSense::Minimize), -1);
    assert_eq!(i32::from(ObjSense::Maximize), 1);
    assert_eq!(ObjSense::Minimize.value(), -1);
}

#[test]
fn bool_param_ids() {
    let params = [
        BoolParam::Lifting,
        BoolParam::EqTrans,
        BoolParam::TestDualInf,
        BoolParam::RatFac,
        BoolParam::UseDecompDualSimplex,
        BoolParam::ComputeDegen,
        BoolParam::UseCompDual,
        BoolParam::ExplicitViol,
        BoolParam::AcceptCycling,
        BoolParam::RatRec,
        BoolParam::PowerScaling,
        BoolParam::RatFacJump,
        BoolParam::RowBoundFlips,
        BoolParam::PersistentScaling,
        BoolParam::FullPerturbation,
        BoolParam::EnsureRay,
        BoolParam::ForceBasic,
        BoolParam::SimplifierSingletonCols,
        BoolParam::SimplifierConstraintPropagation,
        BoolParam::SimplifierParallelRowDetection,
        BoolParam::SimplifierParallelColDetection,
        BoolParam::SimplifierSingletonStuffing,
        BoolParam::SimplifierDualFix,
        BoolParam::SimplifierFixContinuous,
        BoolParam::SimplifierDominatedCols,
    ];
    for (id, param) in params.into_iter().enumerate() {
        assert_eq!(i32::from(param), id as i32);
        assert_eq!(param.id(), id as i32);
    }
}

#[test]
fn real_param_ids() {
    let params = [
        RealParam::FeasTol,
        RealParam::OptTol,
        RealParam::EpsilonZero,
        RealParam::EpsilonFactorization,
        RealParam::EpsilonUpdate,
        RealParam::EpsilonPivot,
        RealParam::Infty,
        RealParam::TimeLimit,
        RealParam::ObjLimitLower,
        RealParam::ObjLimitUpper,
        RealParam::FpFeasTol,
        RealParam::FpOptTol,
        RealParam::MaxScaleIncr,
        RealParam::LiftMinVal,
        RealParam::LiftMaxVal,
        RealParam::SparsityThreshold,
        RealParam::RepresentationSwitch,
        RealParam::RatRecFreq,
        RealParam::MinRed,
        RealParam::RefacBasisNnz,
        RealParam::RefacUpdateFill,
        RealParam::RefacMemFactor,
        RealParam::LeastSqAcrcy,
        RealParam::ObjOffset,
        RealParam::MinMarkowitz,
        RealParam::SimplifierModifyRowFac,
    ];
    for (id, param) in params.into_iter().enumerate() {
        assert_eq!(i32::from(param), id as i32);
        assert_eq!(param.id(), id as i32);
    }
}

#[test]
fn int_param_ids() {
    let table = [
        (IntParam::FactorUpdateMax, 4),
        (IntParam::IterLimit, 5),
        (IntParam::RefLimit, 6),
        (IntParam::StallRefLimit, 7),
        (IntParam::DisplayFreq, 8),
        (IntParam::RatFacMinStalls, 21),
        (IntParam::LeastSqMaxRounds, 22),
        (IntParam::DecompIterLimit, 24),
        (IntParam::DecompMaxAddedRows, 25),
        (IntParam::DecompDisplayFreq, 26),
        (IntParam::PrintBasisMetric, 28),
    ];
    for (param, id) in table {
        assert_eq!(i32::from(param), id);
        assert_eq!(param.id(), id);
    }
}

#[test]
fn integer_parameter_ids_are_each_used_once() {
    let dedicated = [
        OBJSENSE_PARAM_ID,
        REPR_PARAM_ID,
        ALGORITHM_PARAM_ID,
        FACTOR_UPDATE_TYPE_PARAM_ID,
        VERBOSITY_PARAM_ID,
        SIMPLIFIER_PARAM_ID,
        SCALAR_PARAM_ID,
        STARTER_PARAM_ID,
        PRICER_PARAM_ID,
        RATIO_TESTER_PARAM_ID,
        SYNC_MODE_PARAM_ID,
        READ_MODE_PARAM_ID,
        SOLVE_MODE_PARAM_ID,
        CHECK_MODE_PARAM_ID,
        TIMER_PARAM_ID,
        HYPER_PRICING_PARAM_ID,
        SOLUTION_POLISHING_PARAM_ID,
        DECOMP_VERBOSITY_PARAM_ID,
        STAT_TIMER_PARAM_ID,
    ];
    assert_eq!(
        dedicated,
        [0, 1, 2, 3, 9, 10, 11, 12, 13, 14, 15, 16, 17, 18, 19, 20, 23, 27, 29]
    );
    let by_name = [4, 5, 6, 7, 8, 21, 22, 24, 25, 26, 28];
    let mut seen = [0u32; 30];
    for id in dedicated.iter().chain(by_name.iter()) {
        seen[*id as usize] += 1;
    }
    assert_eq!(seen, [1u32; 30]);
}

#[test]
fn parameter_values() {
    assert_eq!(i32::from(Representation::Auto), 0);
    assert_eq!(i32::from(Representation::Column), 1);
    assert_eq!(i32::from(Representation::Row), 2);
    assert_eq!(i32::from(Algorithm::Primal), 0);
    assert_eq!(i32::from(Algorithm::Dual), 1);
    assert_eq!(i32::from(FactorUpdateType::Eta), 0);
    assert_eq!(i32::from(FactorUpdateType::Ft), 1);
    assert_eq!(i32::from(Verbosity::Error), 0);
    assert_eq!(i32::from(Verbosity::Warning), 1);
    assert_eq!(i32::from(Verbosity::Debug), 2);
    assert_eq!(i32::from(Verbosity::Normal), 3);
    assert_eq!(i32::from(Verbosity::High), 4);
    assert_eq!(i32::from(Verbosity::Full), 5);
    assert_eq!(i32::from(Simplifier::Off), 0);
    assert_eq!(i32::from(Simplifier::Internal), 3);
    assert_eq!(i32::from(Simplifier::Papilo), 2);
    assert_eq!(i32::from(Simplifier::Auto), 1);
    assert_eq!(i32::from(Scalar::Off), 0);
    assert_eq!(i32::from(Scalar::Uniequi), 1);
    assert_eq!(i32::from(Scalar::Biequi), 2);
    assert_eq!(i32::from(Scalar::Ge01), 3);
    assert_eq!(i32::from(Scalar::Ge08), 4);
    assert_eq!(i32::from(Scalar::Leastsq), 5);
    assert_eq!(i32::from(Scalar::Geoequi), 6);
    assert_eq!(i32::from(Starter::Off), 0);
    assert_eq!(i32::from(Starter::Weight), 1);
    assert_eq!(i32::from(Starter::Sum), 2);
    assert_eq!(i32::from(Starter::Vector), 3);
    assert_eq!(i32::from(Pricer::Auto), 0);
    assert_eq!(i32::from(Pricer::Dantzig), 1);
    assert_eq!(i32::from(Pricer::Parmult), 2);
    assert_eq!(i32::from(Pricer::Devex), 3);
    assert_eq!(i32::from(Pricer::Quicksteep), 4);
    assert_eq!(i32::from(Pricer::Steep), 5);
    assert_eq!(i32::from(RatioTester::Textbook), 0);
    assert_eq!(i32::from(RatioTester::Harris), 1);
    assert_eq!(i32::from(RatioTester::Fast), 2);
    assert_eq!(i32::from(RatioTester::Boundflipping), 3);
    assert_eq!(i32::from(SyncMode::Onlyreal), 0);
    assert_eq!(i32::from(SyncMode::Auto), 1);
    assert_eq!(i32::from(SyncMode::Manual), 2);
    assert_eq!(i32::from(ReadMode::Real), 0);
    assert_eq!(i32::from(ReadMode::Rational), 1);
    assert_eq!(i32::from(SolveMode::Real), 0);
    assert_eq!(i32::from(SolveMode::Auto), 1);
    assert_eq!(i32::from(SolveMode::Rational), 2);
    assert_eq!(i32::from(CheckMode::Real), 0);
    assert_eq!(i32::from(CheckMode::Auto), 1);
    assert_eq!(i32::from(CheckMode::Rational), 2);
    assert_eq!(i32::from(Timer::Off), 0);
    assert_eq!(i32::from(Timer::Cpu), 1);
    assert_eq!(i32::from(Timer::Wallclock), 2);
    assert_eq!(i32::from(HyperPricing::Off), 0);
    assert_eq!(i32::from(HyperPricing::Auto), 1);
    assert_eq!(i32::from(HyperPricing::On), 2);
    assert_eq!(i32::from(SolutionPolishing::Off), 0);
    assert_eq!(i32::from(SolutionPolishing::Integrality), 1);
    assert_eq!(i32::from(SolutionPolishing::Fractionality), 2);
    assert_eq!(Simplifier::Internal.value(), 3);
}
