use dobot_controller::sequencer::{sequence_file_path, DropMode, SaveError, Sequencer};
use dobot_controller::structs::{Coordinate, Position};

fn milli_of(p: &Position) -> Vec<i64> {
    p.into_iter().iter().map(|i| i.in_milli).collect()
}

fn filled(seq: &mut Sequencer, base: i64) {
    for (k, c) in Coordinate::into_iter().into_iter().enumerate() {
        assert!(seq.update_input(c, format!("{}", base + k as i64)));
    }
}

fn queue_with(n: i64) -> Sequencer {
    let mut seq = Sequencer::new();
    for b in 0..n {
        filled(&mut seq, b * 10);
        assert!(seq.add_input_to_queue());
    }
    seq
}

fn first_axes(seq: &Sequencer) -> Vec<i64> {
    seq.queue.iter().map(|p| p.x.in_milli).collect()
}

#[test]
fn axis_edit_parses_fixed_point() {
    let mut seq = Sequencer::new();
    assert!(seq.update_input(Coordinate::Y, String::from("-12.5")));
    assert_eq!(seq.input.y.in_milli, -12500);
    assert_eq!(seq.input.y.in_string, "-12.5");
    assert_eq!(seq.input.x.in_milli, 0);
}

#[test]
fn axis_edit_rejects_non_numbers_and_keeps_old_value() {
    let mut seq = Sequencer::new();
    assert!(seq.update_input(Coordinate::Z, String::from("7")));
    assert!(!seq.update_input(Coordinate::Z, String::from("7a")));
    assert_eq!(seq.input.z.in_milli, 7000);
    assert_eq!(seq.input.z.in_string, "7");
}

#[test]
fn clearing_edit_leaves_empty_text_and_zero() {
    for c in Coordinate::into_iter() {
        let mut seq = Sequencer::new();
        assert!(seq.update_input(c, String::from("3.25")));
        assert!(seq.update_input(c, String::new()));
        let item = seq.input.into_iter();
        for it in item {
            assert!(it.in_string.is_empty());
            assert_eq!(it.in_milli, 0);
        }
    }
}

#[test]
fn enqueue_refused_when_any_axis_is_empty() {
    for missing in Coordinate::into_iter() {
        let mut seq = queue_with(1);
        filled(&mut seq, 100);
        assert!(seq.update_input(missing, String::new()));
        assert!(!seq.add_input_to_queue());
        assert_eq!(seq.queue.len(), 1);
    }
}

#[test]
fn enqueue_appends_a_copy_of_the_input() {
    let mut seq = Sequencer::new();
    filled(&mut seq, 5);
    assert!(seq.add_input_to_queue());
    assert_eq!(seq.queue.len(), 1);
    assert_eq!(milli_of(&seq.queue[0]), vec![5000, 6000, 7000, 8000, 9000, 10000]);
}

#[test]
fn swap_twice_restores_order() {
    let mut seq = queue_with(4);
    seq.reorder(0, 3, DropMode::Swap);
    assert_eq!(first_axes(&seq), vec![30000, 10000, 20000, 0]);
    seq.reorder(0, 3, DropMode::Swap);
    assert_eq!(first_axes(&seq), vec![0, 10000, 20000, 30000]);
}

#[test]
fn swap_with_itself_is_no_op() {
    let mut seq = queue_with(3);
    seq.reorder(1, 1, DropMode::Swap);
    assert_eq!(first_axes(&seq), vec![0, 10000, 20000]);
}

#[test]
fn insert_moves_entry_and_keeps_length() {
    let mut seq = queue_with(4);
    seq.reorder(0, 3, DropMode::Before);
    assert_eq!(first_axes(&seq), vec![10000, 20000, 0, 30000]);
    seq.reorder(3, 0, DropMode::After);
    assert_eq!(first_axes(&seq), vec![30000, 10000, 20000, 0]);
    seq.reorder(1, 4, DropMode::After);
    assert_eq!(first_axes(&seq), vec![30000, 20000, 0, 10000]);
    assert_eq!(seq.queue.len(), 4);
}

#[test]
fn insert_at_own_or_next_position_is_no_op() {
    let mut seq = queue_with(3);
    seq.reorder(1, 1, DropMode::Before);
    seq.reorder(1, 2, DropMode::After);
    assert_eq!(first_axes(&seq), vec![0, 10000, 20000]);
}

#[test]
fn remove_load_and_clear() {
    let mut seq = queue_with(3);
    seq.remove_at(1);
    assert_eq!(first_axes(&seq), vec![0, 20000]);
    seq.load_to_input(1);
    assert_eq!(seq.input.x.in_milli, 20000);
    seq.clear_input();
    assert_eq!(milli_of(&seq.input), vec![0; 6]);
    seq.clear_queue();
    assert!(seq.queue.is_empty());
}

#[test]
fn save_refused_for_empty_queue_then_empty_name() {
    let mut seq = Sequencer::new();
    seq.set_save_name(String::from("square"));
    assert!(matches!(seq.prepare_save(), Err(SaveError::EmptyQueue)));
    let mut seq = queue_with(2);
    assert!(matches!(seq.prepare_save(), Err(SaveError::EmptyName)));
    seq.set_save_name(String::from("square"));
    let saved = seq.prepare_save().ok().unwrap();
    assert_eq!(saved.name, "square");
    assert_eq!(saved.sequences.len(), 2);
}

#[test]
fn loaded_sequence_goes_to_queue_or_aside() {
    let mut src = queue_with(2);
    src.set_save_name(String::from("s"));
    let loaded = src.prepare_save().ok().unwrap();
    let mut seq = Sequencer::new();
    seq.apply_loaded(loaded.clone(), true);
    assert_eq!(seq.to_perform.len(), 2);
    assert!(seq.queue.is_empty());
    seq.apply_loaded(loaded, false);
    assert_eq!(seq.queue.len(), 2);
}

#[test]
fn sequence_path_is_folder_name_and_extension() {
    assert_eq!(sequence_file_path("./sequences", "star"), "./sequences/star.json");
}
