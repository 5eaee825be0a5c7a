use dobot_controller::experiment::{
    create_experiment_instance, enabled_selection, plan_from_draws, toggle_shape, validate_run,
};
use dobot_controller::orchestrator::{Orchestrator, StageAction};
use dobot_controller::results::aggregate_checked;
use dobot_controller::structs::{ExperimentStage, ParameterType, Parameters, Shapes};

fn filled_parameters(count: &str) -> Parameters {
    let mut p = Parameters::new();
    let values = [
        (ParameterType::SubjectName, "kim"),
        (ParameterType::TestCount, count),
        (ParameterType::Voltage, "10"),
        (ParameterType::Acceleration, "50"),
        (ParameterType::Speed, "40"),
        (ParameterType::ModulationType, "sine"),
        (ParameterType::ModulationFrequency, "20"),
        (ParameterType::CarrierType, "square"),
        (ParameterType::CarrierFrequency, "200"),
    ];
    for (t, v) in values {
        assert!(p.update_parameter(t, String::from(v)));
    }
    p
}

fn triangle_and_square() -> Vec<(Shapes, bool)> {
    let mut flags = Shapes::create_vec_shape_bool();
    toggle_shape(&mut flags, Shapes::Triangle);
    toggle_shape(&mut flags, Shapes::Square);
    flags
}

fn run_id_of(a: &StageAction) -> u64 {
    match a {
        StageAction::Settle(id) | StageAction::Simulate(id) | StageAction::Draw(id, _, _, _) => *id,
        _ => panic!("no run in this action"),
    }
}

#[test]
fn numeric_parameter_refuses_non_numbers() {
    let mut p = Parameters::new();
    assert!(!p.update_parameter(ParameterType::TestCount, String::from("two")));
    assert!(p.test_count.value.is_empty());
    assert!(p.update_parameter(ParameterType::SubjectName, String::from("two")));
    assert_eq!(p.subject_name.value, "two");
    assert!(p.update_parameter(ParameterType::TestCount, String::new()));
}

#[test]
fn first_empty_parameter_is_named() {
    let mut p = filled_parameters("3");
    assert_eq!(p.first_empty(), None);
    p.set_value(ParameterType::CarrierType, String::new());
    p.set_value(ParameterType::Voltage, String::new());
    assert_eq!(p.first_empty(), Some(ParameterType::Voltage));
    let err = validate_run(&p, &triangle_and_square()).err().unwrap();
    assert_eq!(err, "振駆電圧・Voltage is empty");
}

#[test]
fn run_without_shapes_is_refused() {
    let p = filled_parameters("3");
    let err = validate_run(&p, &Shapes::create_vec_shape_bool()).err().unwrap();
    assert_eq!(err, "Please select some shapes!");
}

#[test]
fn run_with_zero_trials_is_refused() {
    let p = filled_parameters("0");
    let err = validate_run(&p, &triangle_and_square()).err().unwrap();
    assert_eq!(err, "実験回数・Test Count must be at least 1");
}

#[test]
fn validated_run_reads_counts_and_speeds() {
    let s = validate_run(&filled_parameters("3"), &triangle_and_square()).ok().unwrap();
    assert_eq!(s.test_count, 3);
    assert_eq!(s.speed, 40000);
    assert_eq!(s.acceleration, 50000);
    assert_eq!(s.selection, vec![Shapes::Triangle, Shapes::Square]);
}

#[test]
fn selection_lists_each_enabled_shape_once() {
    let flags = vec![
        (Shapes::Hexagon, true),
        (Shapes::Square, false),
        (Shapes::Hexagon, true),
        (Shapes::Triangle, true),
    ];
    assert_eq!(enabled_selection(&flags), vec![Shapes::Hexagon, Shapes::Triangle]);
}

#[test]
fn toggling_twice_restores_selection() {
    let mut flags = Shapes::create_vec_shape_bool();
    toggle_shape(&mut flags, Shapes::Pentagon);
    assert_eq!(flags[2], (Shapes::Pentagon, true));
    toggle_shape(&mut flags, Shapes::Pentagon);
    assert_eq!(flags, Shapes::create_vec_shape_bool());
}

#[test]
fn plan_from_draws_maps_indices() {
    let p = plan_from_draws(vec![Shapes::Square, Shapes::Hexagon], &vec![1, 0, 1]);
    assert_eq!(p.list_of_shapes, vec![Shapes::Hexagon, Shapes::Square, Shapes::Hexagon]);
    assert_eq!(p.list_of_retries, vec![0, 0, 0]);
    assert!(p.list_of_guesses.is_empty());
    assert_eq!(p.experiment_index, 0);
}

#[test]
fn random_plan_has_requested_length_and_enabled_shapes() {
    for n in [1usize, 7, 50] {
        let sel = vec![Shapes::Triangle, Shapes::Pentagon];
        let p = create_experiment_instance(sel.clone(), n);
        assert_eq!(p.list_of_shapes.len(), n);
        assert!(p.list_of_shapes.iter().all(|s| sel.contains(s)));
        assert_eq!(p.list_of_retries, vec![0; n]);
    }
}

#[test]
fn simulated_run_of_two_trials_produces_two_records() {
    let mut o = Orchestrator::new(true);
    let params = filled_parameters("2");
    let mut a = o.begin(&params, &triangle_and_square()).ok().unwrap();
    assert_eq!(o.stage, ExperimentStage::BeginTiming);
    assert!(o.is_busy);
    let mut now: u128 = 1000;
    let mut finished = None;
    for _ in 0..2 {
        let id = run_id_of(&a);
        a = o.next_stage(id);
        assert!(matches!(a, StageAction::Settle(_)));
        assert_eq!(o.stage, ExperimentStage::Preparation);
        a = o.next_stage(id);
        assert!(matches!(a, StageAction::Simulate(_)));
        a = o.drawing_result(id, None, now);
        assert!(matches!(a, StageAction::Idle));
        assert_eq!(o.stage, ExperimentStage::Answering);
        now += 250;
        a = o.shape_selected(Shapes::Triangle, now);
        if let StageAction::Finished(p) = a {
            finished = Some(p);
            break;
        }
    }
    assert_eq!(o.stage, ExperimentStage::NotInExperiment);
    assert!(!o.is_busy);
    let plan = finished.unwrap();
    assert_eq!(plan.list_of_guesses.len(), 2);
    assert_eq!(plan.list_of_time, vec![250, 250]);
    let record = aggregate_checked(&plan, params).unwrap();
    assert_eq!(record.results.len(), 2);
    assert_eq!(record.avg_time, 250);
    assert_eq!(record.analyses.len(), 2);
}

#[test]
fn drawing_failure_aborts_the_run() {
    let mut o = Orchestrator::new(false);
    let a = o.begin(&filled_parameters("3"), &triangle_and_square()).ok().unwrap();
    let id = run_id_of(&a);
    o.next_stage(id);
    let draw = o.next_stage(id);
    assert!(matches!(draw, StageAction::Draw(_, _, 40000, 50000)));
    let a = o.drawing_result(id, Some(String::from("port busy")), 10);
    match a {
        StageAction::Aborted(e) => assert_eq!(e, "port busy"),
        _ => panic!("expected an abort"),
    }
    assert_eq!(o.stage, ExperimentStage::NotInExperiment);
    assert!(o.instance.is_none());
    assert!(!o.is_busy);
    // a late result for the aborted run changes nothing
    assert!(matches!(o.drawing_result(id, None, 20), StageAction::Idle));
    assert!(matches!(o.next_stage(id), StageAction::Idle));
    assert_eq!(o.stage, ExperimentStage::NotInExperiment);
}

#[test]
fn retry_counts_and_redraws_same_shape() {
    let mut o = Orchestrator::new(false);
    let a = o.begin(&filled_parameters("2"), &triangle_and_square()).ok().unwrap();
    let id = run_id_of(&a);
    o.next_stage(id);
    let first = match o.next_stage(id) {
        StageAction::Draw(_, s, _, _) => s,
        _ => panic!("expected a draw"),
    };
    o.drawing_result(id, None, 100);
    let a = o.retry();
    assert!(matches!(a, StageAction::Settle(_)));
    assert_eq!(o.stage, ExperimentStage::Preparation);
    {
        let p = o.instance.as_ref().unwrap();
        assert_eq!(p.list_of_retries[0], 1);
        assert!(p.list_of_guesses.is_empty());
        assert_eq!(p.experiment_index, 0);
    }
    match o.next_stage(id) {
        StageAction::Draw(_, s, _, _) => assert_eq!(s, first),
        _ => panic!("expected a draw"),
    }
    // the clock keeps its first start across the redraw
    o.drawing_result(id, None, 900);
    assert_eq!(o.time_start, 100);
}

#[test]
fn abort_from_any_active_stage_resets() {
    let mut o = Orchestrator::new(true);
    let a = o.begin(&filled_parameters("2"), &triangle_and_square()).ok().unwrap();
    let id = run_id_of(&a);
    o.next_stage(id);
    assert!(matches!(o.abort(), StageAction::Idle));
    assert_eq!(o.stage, ExperimentStage::NotInExperiment);
    assert!(o.instance.is_none());
    assert_eq!(o.time_start, 0);
    assert!(!o.is_busy);
    assert_ne!(o.run_id, id);
}

#[test]
fn events_out_of_stage_are_dropped() {
    let mut o = Orchestrator::new(true);
    assert!(matches!(o.shape_selected(Shapes::Square, 5), StageAction::Idle));
    assert!(matches!(o.retry(), StageAction::Idle));
    assert_eq!(o.stage, ExperimentStage::NotInExperiment);
    let err = o.begin(&Parameters::new(), &triangle_and_square()).err().unwrap();
    assert_eq!(err, "被験者名・Name is empty");
    assert_eq!(o.error_info, Some(err));
}
