//! The sequencer: one waypoint being typed, a queue of accepted waypoints,
//! and the name the queue is saved under.
use vstd::prelude::*;
use vstd::string::*;

use crate::numeric::{parse_milli, spec_parse_milli};
use crate::gateway::{check_dobot_path, first_incomplete, spec_path_not_set};
use crate::structs::{clone_positions, Coordinate, DobotPath, NamedSequence, Position, PositionItem};

verus! {

/// Where a dragged queue entry is dropped relative to its target.
#[derive(Clone, Copy, Debug, PartialEq, Eq, Structural)]
pub enum DropMode {
    Swap,
    Before,
    After,
}

/// Why a queue cannot be saved.
#[derive(Clone, Copy, Debug, PartialEq, Eq, Structural)]
pub enum SaveError {
    EmptyQueue,
    EmptyName,
}

/// The queue with entries `i` and `j` exchanged.
pub open spec fn spec_swap(q: Seq<Position>, i: int, j: int) -> Seq<Position> {
    if i == j {
        q
    } else {
        q.update(i, q[j]).update(j, q[i])
    }
}

/// The queue with entry `index` taken out and put back before `target`,
/// where `target` counts positions of the queue as it was.
pub open spec fn spec_move(q: Seq<Position>, index: int, target: int) -> Seq<Position> {
    if target == index || target == index + 1 {
        q
    } else {
        let at = if index < target {
            target - 1
        } else {
            target
        };
        q.remove(index).insert(at, q[index])
    }
}

pub open spec fn spec_reorder(q: Seq<Position>, index: int, target: int, mode: DropMode) -> Seq<Position> {
    match mode {
        DropMode::Swap => spec_swap(q, index, target),
        _ => spec_move(q, index, target),
    }
}

/// Indices that a drop of `mode` accepts on a queue of `len` entries.
pub open spec fn valid_drop(len: int, index: int, target: int, mode: DropMode) -> bool {
    &&& 0 <= index < len
    &&& 0 <= target
    &&& match mode {
        DropMode::Swap => target < len,
        _ => target <= len,
    }
}

/// The input waypoint after text `text` is typed into axis `c`.
pub open spec fn spec_edit(p: Position, c: Coordinate, text: String) -> Position {
    if text@.len() == 0 {
        p.with_axis(c, PositionItem { in_string: text, in_milli: 0 })
    } else {
        match spec_parse_milli(text@) {
            Some(v) => p.with_axis(c, PositionItem { in_string: text, in_milli: v }),
            None => p,
        }
    }
}

/// Swapping the same two entries twice gives back the queue.
pub proof fn lemma_swap_twice(q: Seq<Position>, i: int, j: int)
    requires
        0 <= i < q.len(),
        0 <= j < q.len(),
    ensures
        spec_swap(spec_swap(q, i, j), i, j) == q,
{
    if i != j {
        assert(spec_swap(spec_swap(q, i, j), i, j) =~= q);
    }
}

/// Right after an edit with empty text, the axis has no text and its value
/// is zero, so one is empty exactly when the other is zero.
pub proof fn lemma_clearing_edit(p: Position, c: Coordinate, text: String)
    requires
        text@.len() == 0,
    ensures
        spec_edit(p, c, text).axis(c).in_string@.len() == 0 <==> spec_edit(p, c, text).axis(
            c,
        ).in_milli == 0,
        spec_edit(p, c, text).axis(c).is_blank(),
{
}

/// Moving an entry keeps the queue's length.
pub proof fn lemma_move_keeps_length(q: Seq<Position>, index: int, target: int)
    requires
        0 <= index < q.len(),
        0 <= target <= q.len(),
    ensures
        spec_move(q, index, target).len() == q.len(),
{
}

pub struct Sequencer {
    /// The waypoint being typed.
    pub input: Position,
    /// Accepted waypoints, in the order they will be performed.
    pub queue: Vec<Position>,
    /// The name the queue is saved under.
    pub save_name: String,
    /// A loaded sequence waiting to be performed.
    pub to_perform: Vec<Position>,
}

impl Sequencer {
    pub fn new() -> (r: Self)
        ensures
            r.input.is_blank(),
            r.queue@.len() == 0,
            r.save_name@.len() == 0,
            r.to_perform@.len() == 0,
    {
        Sequencer {
            input: Position::default(),
            queue: Vec::new(),
            save_name: String::new(),
            to_perform: Vec::new(),
        }
    }

    /// Types `text` into axis `c` of the input waypoint. Empty text clears the
    /// axis to zero; other text is taken only together with the number it
    /// parses to. Returns false, leaving the waypoint as it was, when the text
    /// is not a number.
    pub fn update_input(&mut self, c: Coordinate, text: String) -> (accepted: bool)
        ensures
            final(self).input == spec_edit(old(self).input, c, text),
            accepted == (text@.len() == 0 || spec_parse_milli(text@).is_some()),
            text@.len() == 0 ==> final(self).input.axis(c).is_blank(),
            final(self).queue@ == old(self).queue@,
            final(self).save_name == old(self).save_name,
            final(self).to_perform@ == old(self).to_perform@,
    {
        let value = if text.as_str().is_empty() {
            0
        } else {
            match parse_milli(text.as_str()) {
                Some(v) => v,
                None => {
                    return false;
                },
            }
        };
        match c {
            Coordinate::X => self.input.x.update_s_milli(text, value),
            Coordinate::Y => self.input.y.update_s_milli(text, value),
            Coordinate::Z => self.input.z.update_s_milli(text, value),
            Coordinate::R => self.input.r.update_s_milli(text, value),
            Coordinate::V => self.input.v.update_s_milli(text, value),
            Coordinate::A => self.input.a.update_s_milli(text, value),
        }
        true
    }

    /// Appends a copy of the input waypoint to the queue when every axis has
    /// text; otherwise changes nothing and returns false.
    pub fn add_input_to_queue(&mut self) -> (added: bool)
        ensures
            added == old(self).input.is_complete(),
            added ==> final(self).queue@ == old(self).queue@.push(old(self).input),
            !old(self).input.is_complete() ==> final(self).queue@ == old(self).queue@,
            final(self).input == old(self).input,
            final(self).save_name == old(self).save_name,
            final(self).to_perform@ == old(self).to_perform@,
    {
        if self.input.has_empty_axis() {
            false
        } else {
            let p = self.input.clone();
            self.queue.push(p);
            true
        }
    }

    /// Reorders the queue after a drag and drop of entry `index` onto `target`.
    pub fn reorder(&mut self, index: usize, target: usize, mode: DropMode)
        requires
            valid_drop(old(self).queue@.len() as int, index as int, target as int, mode),
        ensures
            final(self).queue@ == spec_reorder(old(self).queue@, index as int, target as int, mode),
            final(self).input == old(self).input,
            final(self).save_name == old(self).save_name,
            final(self).to_perform@ == old(self).to_perform@,
    {
        match mode {
            DropMode::Swap => {
                if target != index {
                    let a = self.queue[index].clone();
                    let b = self.queue[target].clone();
                    self.queue.set(index, b);
                    self.queue.set(target, a);
                }
            },
            _ => {
                if target != index && (target == 0 || target - 1 != index) {
                    let item = self.queue.remove(index);
                    let at = if index < target {
                        target - 1
                    } else {
                        target
                    };
                    self.queue.insert(at, item);
                }
            },
        }
    }

    /// Takes entry `index` out of the queue.
    pub fn remove_at(&mut self, index: usize)
        requires
            index < old(self).queue@.len(),
        ensures
            final(self).queue@ == old(self).queue@.remove(index as int),
            final(self).input == old(self).input,
            final(self).save_name == old(self).save_name,
            final(self).to_perform@ == old(self).to_perform@,
    {
        let _ = self.queue.remove(index);
    }

    /// Copies entry `index` of the queue into the input waypoint.
    pub fn load_to_input(&mut self, index: usize)
        requires
            index < old(self).queue@.len(),
        ensures
            final(self).input == old(self).queue@[index as int],
            final(self).queue@ == old(self).queue@,
            final(self).save_name == old(self).save_name,
            final(self).to_perform@ == old(self).to_perform@,
    {
        self.input = self.queue[index].clone();
    }

    pub fn clear_queue(&mut self)
        ensures
            final(self).queue@.len() == 0,
            final(self).input == old(self).input,
            final(self).save_name == old(self).save_name,
            final(self).to_perform@ == old(self).to_perform@,
    {
        self.queue = Vec::new();
    }

    pub fn clear_input(&mut self)
        ensures
            final(self).input.is_blank(),
            final(self).queue@ == old(self).queue@,
            final(self).save_name == old(self).save_name,
            final(self).to_perform@ == old(self).to_perform@,
    {
        self.input = Position::default();
    }

    pub fn set_save_name(&mut self, name: String)
        ensures
            final(self).save_name == name,
            final(self).input == old(self).input,
            final(self).queue@ == old(self).queue@,
            final(self).to_perform@ == old(self).to_perform@,
    {
        self.save_name = name;
    }

    /// The sequence to write out: the queue under the save name. An empty
    /// queue, then an empty name, is refused.
    pub fn prepare_save(&self) -> (r: Result<NamedSequence, SaveError>)
        ensures
            self.queue@.len() == 0 ==> r == Err::<NamedSequence, SaveError>(SaveError::EmptyQueue),
            self.queue@.len() > 0 && self.save_name@.len() == 0 ==> r == Err::<NamedSequence, SaveError>(
                SaveError::EmptyName,
            ),
            self.queue@.len() > 0 && self.save_name@.len() > 0 ==> r is Ok,
            r matches Ok(s) ==> s.name == self.save_name && s.sequences@ == self.queue@,
    {
        if self.queue.len() == 0 {
            Err(SaveError::EmptyQueue)
        } else if self.save_name.as_str().is_empty() {
            Err(SaveError::EmptyName)
        } else {
            Ok(NamedSequence { name: self.save_name.clone(), sequences: clone_positions(&self.queue) })
        }
    }

    /// Puts a loaded sequence in the queue, or aside for performing.
    pub fn apply_loaded(&mut self, loaded: NamedSequence, do_perform: bool)
        ensures
            do_perform ==> final(self).to_perform@ == loaded.sequences@ && final(self).queue@
                == old(self).queue@,
            !do_perform ==> final(self).queue@ == loaded.sequences@ && final(self).to_perform@
                == old(self).to_perform@,
            final(self).input == old(self).input,
            final(self).save_name == old(self).save_name,
    {
        if do_perform {
            self.to_perform = loaded.sequences;
        } else {
            self.queue = loaded.sequences;
        }
    }
}

/// Where a sequence named `name` is stored under `folder`.
pub fn sequence_file_path(folder: &str, name: &str) -> (r: String)
    ensures
        r@ == folder@ + "/"@ + name@ + ".json"@,
{
    let r = String::from_str(folder).concat("/").concat(name).concat(".json");
    r
}

pub open spec fn spec_incomplete_waypoint() -> Seq<char> {
    "A waypoint has an empty axis."@
}

/// Checks a list of waypoints before it goes to the arm: an empty arm path
/// is a configuration error, and a waypoint with an empty axis is refused.
pub fn dispatch_check(path: &DobotPath, seq: &Vec<Position>) -> (r: Option<String>)
    ensures
        path.dobotpath@.len() == 0 ==> (r matches Some(m) && m@ == spec_path_not_set()),
        path.dobotpath@.len() > 0 && (exists|i: int|
            0 <= i < seq@.len() && !(#[trigger] seq@[i]).is_complete()) ==> (r matches Some(m)
            && m@ == spec_incomplete_waypoint()),
        r is None <==> path.dobotpath@.len() > 0 && forall|i: int|
            0 <= i < seq@.len() ==> (#[trigger] seq@[i]).is_complete(),
{
    if let Some(m) = check_dobot_path(path) {
        return Some(m);
    }
    match first_incomplete(seq) {
        Some(_) => Some(String::from_str("A waypoint has an empty axis.")),
        None => None,
    }
}

} // verus!
