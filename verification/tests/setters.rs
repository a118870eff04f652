use soplex_rs::engine::EngineCall;
use soplex_rs::model::Model;
use soplex_rs::{
    CheckMode, FactorUpdateType, HyperPricing, ObjSense, Pricer, RatioTester, ReadMode,
    Representation, Scalar, Simplifier, SolutionPolishing, SolveMode, Starter, SyncMode, Timer,
    Verbosity,
};

fn int_param(id: i32, value: i32) -> EngineCall {
    EngineCall::SetIntParam { id, value }
}

#[test]
fn each_setter_names_its_parameter() {
    let mut lp = Model::new(());
    assert_eq!(lp.set_obj_sense(ObjSense::Maximize), int_param(0, 1));
    assert_eq!(lp.set_representation(Representation::Row), int_param(1, 2));
    assert_eq!(lp.set_factor_update_type(FactorUpdateType::Ft), int_param(3, 1));
    assert_eq!(lp.set_verbosity(4), int_param(9, 4));
    assert_eq!(lp.set_verbosity(-3), int_param(9, -3));
    assert_eq!(lp.set_simplifier_type(Simplifier::Internal), int_param(10, 3));
    assert_eq!(lp.set_simplifier_type(Simplifier::Auto), int_param(10, 1));
    assert_eq!(lp.set_scalar_type(Scalar::Geoequi), int_param(11, 6));
    assert_eq!(lp.set_starter_type(Starter::Vector), int_param(12, 3));
    assert_eq!(lp.set_pricer_type(Pricer::Steep), int_param(13, 5));
    assert_eq!(lp.set_ratio_tester_type(RatioTester::Boundflipping), int_param(14, 3));
    assert_eq!(lp.set_sync_mode(SyncMode::Manual), int_param(15, 2));
    assert_eq!(lp.set_read_mode(ReadMode::Rational), int_param(16, 1));
    assert_eq!(lp.set_solve_mode(SolveMode::Rational), int_param(17, 2));
    assert_eq!(lp.set_check_mode(CheckMode::Auto), int_param(18, 1));
    assert_eq!(lp.set_timer_mode(Timer::Wallclock), int_param(19, 2));
    assert_eq!(lp.set_hyper_pricing(HyperPricing::On), int_param(20, 2));
    assert_eq!(lp.set_solution_polishing(SolutionPolishing::Fractionality), int_param(23, 2));
    assert_eq!(lp.set_decomp_verbosity(Verbosity::Full), int_param(27, 5));
    assert_eq!(lp.set_stat_timer(Timer::Cpu), int_param(29, 1));
    assert_eq!(lp.num_cols(), 0);
    assert_eq!(lp.num_rows(), 0);
}
