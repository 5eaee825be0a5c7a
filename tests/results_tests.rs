use dobot_controller::experiment::plan_from_draws;
use dobot_controller::results::{
    aggregate_checked, candidate_path, classify_answer, decimal_text, pick_file_path,
    process_results, result_file_stem,
};
use dobot_controller::structs::{ParameterType, Parameters, ShapeAnalysis, Shapes};

fn answered_plan() -> dobot_controller::structs::ExperimentInstance {
    let sel = vec![Shapes::Triangle, Shapes::Square, Shapes::Hexagon];
    let mut p = plan_from_draws(sel, &vec![0, 0, 1, 2, 0]);
    p.list_of_guesses = vec![
        Shapes::Triangle,
        Shapes::Square,
        Shapes::Square,
        Shapes::Triangle,
        Shapes::Hexagon,
    ];
    p.list_of_time = vec![100, 300, 50, 70, 200];
    p.list_of_retries = vec![0, 2, 0, 1, 0];
    p
}

#[test]
fn new_analysis_lists_other_shapes_with_zero() {
    let a = ShapeAnalysis::new(Shapes::Square, vec![Shapes::Triangle, Shapes::Square, Shapes::Hexagon]);
    assert_eq!(a.wrong_shapes, vec![(Shapes::Triangle, 0), (Shapes::Hexagon, 0)]);
    assert_eq!(a.main_shape_count, 0);
    assert_eq!(a.calc_total_self_shape(), 0);
}

#[test]
fn classify_counts_correct_and_wrong_answers() {
    let mut a = ShapeAnalysis::new(Shapes::Triangle, vec![Shapes::Triangle, Shapes::Square]);
    classify_answer(Shapes::Triangle, &mut a, 40);
    classify_answer(Shapes::Square, &mut a, 60);
    classify_answer(Shapes::Square, &mut a, 20);
    assert_eq!(a.main_shape_count, 1);
    assert_eq!(a.wrong_shapes, vec![(Shapes::Square, 2)]);
    assert_eq!(a.time, 120);
    assert_eq!(a.calc_total_self_shape(), 3);
    a.calc_avg_time();
    assert_eq!(a.av_time, 40);
}

#[test]
fn average_time_is_zero_without_time_or_trials() {
    let mut a = ShapeAnalysis::new(Shapes::Hexagon, vec![Shapes::Hexagon]);
    a.calc_avg_time();
    assert_eq!(a.av_time, 0);
    a.time = 500;
    a.calc_avg_time();
    assert_eq!(a.av_time, 0);
    a.main_shape_count = 2;
    a.calc_avg_time();
    assert_eq!(a.av_time, 250);
}

#[test]
fn aggregate_counts_per_shape() {
    let p = answered_plan();
    let r = process_results(&p, Parameters::new());
    assert_eq!(r.results.len(), 5);
    assert_eq!(r.avg_correct_answers, 2);
    assert_eq!(r.avg_time, 144);
    assert!(r.results[1].retries == 2 && !r.results[1].is_correct);
    assert_eq!(r.results[1].true_shape, Shapes::Triangle);
    assert_eq!(r.results[1].guess_shape, Shapes::Square);
    let tri = &r.analyses[0];
    assert_eq!(tri.main_shape, Shapes::Triangle);
    assert_eq!(tri.main_shape_count, 1);
    assert_eq!(tri.wrong_shapes, vec![(Shapes::Square, 1), (Shapes::Hexagon, 1)]);
    assert_eq!(tri.time, 600);
    assert_eq!(tri.av_time, 200);
    let hex = &r.analyses[2];
    assert_eq!(hex.main_shape_count, 0);
    assert_eq!(hex.wrong_shapes, vec![(Shapes::Triangle, 1), (Shapes::Square, 0)]);
    for (a, shape) in r.analyses.iter().zip([Shapes::Triangle, Shapes::Square, Shapes::Hexagon]) {
        let trials = p.list_of_shapes.iter().filter(|s| **s == shape).count() as u32;
        assert_eq!(a.calc_total_self_shape(), trials);
    }
}

#[test]
fn aggregate_with_no_answers_has_zero_average() {
    let p = plan_from_draws(vec![Shapes::Square], &vec![0, 0]);
    let r = aggregate_checked(&p, Parameters::new()).unwrap();
    assert_eq!(r.avg_time, 0);
    assert!(r.results.is_empty());
}

#[test]
fn aggregate_refuses_duplicate_shapes_and_uneven_lists() {
    let mut p = answered_plan();
    p.list_of_time.pop();
    assert!(aggregate_checked(&p, Parameters::new()).is_none());
    let mut q = answered_plan();
    q.shapes_selection = vec![Shapes::Triangle, Shapes::Triangle];
    assert!(aggregate_checked(&q, Parameters::new()).is_none());
    let mut t = answered_plan();
    t.list_of_time = vec![u128::MAX, 1, 0, 0, 0];
    assert!(aggregate_checked(&t, Parameters::new()).is_none());
}

#[test]
fn decimal_text_of_numbers() {
    assert_eq!(decimal_text(0), "0");
    assert_eq!(decimal_text(7), "7");
    assert_eq!(decimal_text(120), "120");
    assert_eq!(decimal_text(u32::MAX), "4294967295");
}

#[test]
fn result_stem_concatenates_parameters() {
    let mut p = Parameters::new();
    p.set_value(ParameterType::SubjectName, String::from("kim"));
    p.set_value(ParameterType::TestCount, String::from("10"));
    p.set_value(ParameterType::CarrierFrequency, String::from("200"));
    assert_eq!(result_file_stem(&p), "Nkim_T10_V_A_S_MT_MF_CT_CF200");
}

#[test]
fn candidates_add_disambiguation_suffix() {
    assert_eq!(candidate_path("r/N", 0), "r/N.json");
    assert_eq!(candidate_path("r/N", 1), "r/N_D1.json");
    assert_eq!(candidate_path("r/N", 12), "r/N_D12.json");
}

#[test]
fn file_name_picks_first_free_candidate() {
    let base = "./results/Nkim";
    assert_eq!(pick_file_path(base, &vec![]).unwrap(), "./results/Nkim.json");
    let taken = vec![String::from("./results/Nkim.json")];
    assert_eq!(pick_file_path(base, &taken).unwrap(), "./results/Nkim_D1.json");
    let taken = vec![
        String::from("./results/Nkim_D1.json"),
        String::from("./results/other.json"),
        String::from("./results/Nkim.json"),
    ];
    assert_eq!(pick_file_path(base, &taken).unwrap(), "./results/Nkim_D2.json");
}
