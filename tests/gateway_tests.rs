use dobot_controller::gateway::{
    check_dobot_path, draw_plan, first_incomplete, relay_signal, relay_write_outcome, DrawStep,
    FailFastRun, RunAction,
};
use dobot_controller::helpers::{append_log, ERRBUFSIZE};
use dobot_controller::sequencer::dispatch_check;
use dobot_controller::structs::{
    Config, Coordinate, DobotPath, LogType, ParameterType, Position, Shapes, Tabpage,
};

#[test]
fn move_through_stops_at_first_failure() {
    let outcomes = [None, Some(String::from("timeout")), None];
    let mut run = FailFastRun::new(3);
    let mut attempts = Vec::new();
    let mut action = run.start();
    while let RunAction::Perform(i) = action {
        attempts.push(i);
        action = run.report(outcomes[i].clone());
    }
    assert_eq!(attempts, vec![0, 1]);
    assert_eq!(action, RunAction::Failed);
    assert_eq!(run.failure, Some(String::from("timeout")));
    assert_eq!(run.attempted, 2);
}

#[test]
fn move_through_runs_every_step_on_success() {
    let mut run = FailFastRun::new(3);
    let mut attempts = Vec::new();
    let mut action = run.start();
    while let RunAction::Perform(i) = action {
        attempts.push(i);
        action = run.report(None);
    }
    assert_eq!(attempts, vec![0, 1, 2]);
    assert_eq!(action, RunAction::Done);
    assert!(run.failure.is_none());
    let mut empty = FailFastRun::new(0);
    assert_eq!(empty.start(), RunAction::Done);
}

#[test]
fn empty_path_is_a_configuration_error() {
    let p = DobotPath { dobotpath: String::new() };
    assert_eq!(check_dobot_path(&p), Some(String::from("Dobot path not set.")));
    let q = DobotPath { dobotpath: Config::default().dobot_path };
    assert_eq!(check_dobot_path(&q), None);
    assert_eq!(dispatch_check(&p, &vec![]), Some(String::from("Dobot path not set.")));
}

#[test]
fn incomplete_waypoints_are_not_dispatched() {
    let seq = vec![Position::position(1, 2, 3, 4, 5, 6)];
    assert_eq!(first_incomplete(&seq), Some(0));
    let p = DobotPath { dobotpath: String::from("/dev/ttyUSB0") };
    assert_eq!(dispatch_check(&p, &seq), Some(String::from("A waypoint has an empty axis.")));
    assert_eq!(dispatch_check(&p, &vec![]), None);
}

#[test]
fn draw_plan_orders_its_phases() {
    let plan = draw_plan(Shapes::Square, 40000, 50000);
    assert_eq!(plan.len(), 9);
    assert!(matches!(plan[0], DrawStep::Wait(2000)));
    match &plan[1] {
        DrawStep::MoveTo(p) => assert_eq!((p.x.in_milli, p.y.in_milli, p.z.in_milli), (200000, -15000, 12500)),
        _ => panic!("expected a move"),
    }
    assert!(matches!(plan[2], DrawStep::Wait(500)));
    assert!(matches!(plan[3], DrawStep::Relay(true)));
    match &plan[4] {
        DrawStep::Traverse(t) => {
            assert_eq!(t.len(), 4);
            assert_eq!((t[0].y.in_milli, t[0].z.in_milli, t[0].v.in_milli, t[0].a.in_milli), (15000, 12500, 40000, 50000));
        }
        _ => panic!("expected a traversal"),
    }
    assert!(matches!(plan[5], DrawStep::Wait(500)));
    assert!(matches!(plan[6], DrawStep::Relay(false)));
    assert!(matches!(plan[7], DrawStep::Wait(500)));
    match &plan[8] {
        DrawStep::MoveTo(p) => assert_eq!((p.x.in_milli, p.y.in_milli, p.z.in_milli, p.v.in_milli), (200000, 0, 0, 200000)),
        _ => panic!("expected a move"),
    }
}

#[test]
fn shape_catalog_sizes_and_last_points() {
    let sizes: Vec<usize> = Shapes::into_iter().iter().map(|s| s.motion_data(1, 1).len()).collect();
    assert_eq!(sizes, vec![3, 4, 5, 6]);
    let hex = Shapes::Hexagon.motion_data(1000, 2000);
    assert_eq!((hex[5].y.in_milli, hex[5].z.in_milli), (-8000, 10000));
    assert!(hex[5].x.in_string.is_empty());
}

#[test]
fn relay_bytes_and_outcomes() {
    assert_eq!(relay_signal(true), b"1\n".to_vec());
    assert_eq!(relay_signal(false), b"0\n".to_vec());
    assert_eq!(relay_write_outcome(true, 2), None);
    assert!(relay_write_outcome(false, 1).is_some());
}

#[test]
fn log_ring_keeps_latest_lines() {
    let mut logs = Vec::new();
    append_log(&mut logs, LogType::I, String::from("first"));
    assert_eq!(logs[0].index, 0);
    for k in 1..25 {
        append_log(&mut logs, LogType::W, format!("line {}", k));
    }
    assert_eq!(logs.len(), ERRBUFSIZE);
    assert_eq!(logs[0].index, 5);
    assert_eq!(logs[ERRBUFSIZE - 1].index, 24);
    assert_eq!(logs[ERRBUFSIZE - 1].logmsg, "line 24");
}

#[test]
fn labels_and_titles() {
    assert_eq!(Shapes::Pentagon.show_name_en(), "Pentagon");
    assert_eq!(Shapes::Square.show_name_symbol(), "S・■・四");
    assert_eq!(ParameterType::Voltage.show_title(true), "駆動電圧");
    assert_eq!(ParameterType::Speed.show_unit(), Some(String::from(" [cm / s]")));
    assert_eq!(ParameterType::TestCount.show_unit(), None);
    assert_eq!(ParameterType::CarrierType.show_title_en(), "Carrier type");
    assert_eq!(Tabpage::into_iter().len(), 4);
    assert_eq!(Coordinate::R.label(), "R");
    assert_eq!(Config::default().results_path, "./results");
}
