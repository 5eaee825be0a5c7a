//! The data model: waypoints, sequences, shapes, run parameters and results.
use vstd::prelude::*;
use vstd::string::*;

use crate::numeric::{parse_u32, spec_parse_u32};

verus! {

/// Where the arm link is reached; empty means "not configured".
pub struct DobotPath {
    pub dobotpath: String,
}

/// Where the relay link is reached; empty means "not configured".
pub struct RelayPath {
    pub relaypath: String,
}

/// Severity of a log line.
#[derive(Clone, Copy, Debug, PartialEq, Eq, Structural)]
pub enum LogType {
    I,
    W,
    E,
}

pub struct LogMessage {
    pub index: u128,
    pub kind: LogType,
    pub logmsg: String,
}

impl Clone for LogMessage {
    fn clone(&self) -> (r: Self)
        ensures
            r == *self,
    {
        LogMessage { index: self.index, kind: self.kind, logmsg: self.logmsg.clone() }
    }
}

/// Main pages of the controller.
#[derive(Clone, Copy, Debug, PartialEq, Eq, Structural)]
pub enum Tabpage {
    Sequencer,
    Experiment,
    Results,
    Settings,
}

impl Tabpage {
    /// Every page, in display order.
    pub fn into_iter() -> (r: Vec<Tabpage>)
        ensures
            r@ == seq![Tabpage::Sequencer, Tabpage::Experiment, Tabpage::Results, Tabpage::Settings],
    {
        let r = vec![Tabpage::Sequencer, Tabpage::Experiment, Tabpage::Results, Tabpage::Settings];
        assert(r@ =~= seq![Tabpage::Sequencer, Tabpage::Experiment, Tabpage::Results, Tabpage::Settings]);
        r
    }

    pub open spec fn spec_label(self) -> Seq<char> {
        match self {
            Tabpage::Sequencer => "⁂・運動"@,
            Tabpage::Experiment => "⟁・実験"@,
            Tabpage::Results => "⧉・結果"@,
            Tabpage::Settings => "⚙・設定"@,
        }
    }

    /// The page's tab caption.
    pub fn label(&self) -> (r: String)
        ensures
            r@ == self.spec_label(),
    {
        match self {
            Tabpage::Sequencer => String::from_str("⁂・運動"),
            Tabpage::Experiment => String::from_str("⟁・実験"),
            Tabpage::Results => String::from_str("⧉・結果"),
            Tabpage::Settings => String::from_str("⚙・設定"),
        }
    }
}

/// Sub-pages of the sequencer page.
#[derive(Clone, Copy, Debug, PartialEq, Eq, Structural)]
pub enum SequencerTabpage {
    Sequencer,
    Sequences,
}

impl SequencerTabpage {
    /// Every sub-page, in display order.
    pub fn into_iter() -> (r: Vec<SequencerTabpage>)
        ensures
            r@ == seq![SequencerTabpage::Sequencer, SequencerTabpage::Sequences],
    {
        let r = vec![SequencerTabpage::Sequencer, SequencerTabpage::Sequences];
        assert(r@ =~= seq![SequencerTabpage::Sequencer, SequencerTabpage::Sequences]);
        r
    }

    pub open spec fn spec_label(self) -> Seq<char> {
        match self {
            SequencerTabpage::Sequencer => "⚫・作成"@,
            SequencerTabpage::Sequences => "▷・再生"@,
        }
    }

    /// The sub-page's tab caption.
    pub fn label(&self) -> (r: String)
        ensures
            r@ == self.spec_label(),
    {
        match self {
            SequencerTabpage::Sequencer => String::from_str("⚫・作成"),
            SequencerTabpage::Sequences => String::from_str("▷・再生"),
        }
    }
}

/// One axis of a waypoint.
#[derive(Clone, Copy, Debug, PartialEq, Eq, Structural)]
pub enum Coordinate {
    X,
    Y,
    Z,
    R,
    V,
    A,
}

impl Coordinate {
    /// Every axis, in display order.
    pub fn into_iter() -> (r: Vec<Coordinate>)
        ensures
            r@ == seq![
                Coordinate::X,
                Coordinate::Y,
                Coordinate::Z,
                Coordinate::R,
                Coordinate::V,
                Coordinate::A,
            ],
    {
        let r = vec![
            Coordinate::X,
            Coordinate::Y,
            Coordinate::Z,
            Coordinate::R,
            Coordinate::V,
            Coordinate::A,
        ];
        assert(r@ =~= seq![
            Coordinate::X,
            Coordinate::Y,
            Coordinate::Z,
            Coordinate::R,
            Coordinate::V,
            Coordinate::A,
        ]);
        r
    }

    pub open spec fn spec_label(self) -> Seq<char> {
        match self {
            Coordinate::X => "X"@,
            Coordinate::Y => "Y"@,
            Coordinate::Z => "Z"@,
            Coordinate::R => "R"@,
            Coordinate::V => "V"@,
            Coordinate::A => "A"@,
        }
    }

    /// The axis's one-letter name.
    pub fn label(&self) -> (r: String)
        ensures
            r@ == self.spec_label(),
    {
        match self {
            Coordinate::X => String::from_str("X"),
            Coordinate::Y => String::from_str("Y"),
            Coordinate::Z => String::from_str("Z"),
            Coordinate::R => String::from_str("R"),
            Coordinate::V => String::from_str("V"),
            Coordinate::A => String::from_str("A"),
        }
    }
}

/// One axis value: the text as typed and the number it stands for, in
/// thousandths of the axis unit (millimetres, degrees, percent).
pub struct PositionItem {
    pub in_string: String,
    pub in_milli: i64,
}

impl Clone for PositionItem {
    fn clone(&self) -> (r: Self)
        ensures
            r == *self,
    {
        PositionItem { in_string: self.in_string.clone(), in_milli: self.in_milli }
    }
}

impl PositionItem {
    /// No text, value zero.
    pub open spec fn is_blank(self) -> bool {
        self.in_string@.len() == 0 && self.in_milli == 0
    }

    /// A value set by program, with no text typed for it.
    pub open spec fn holds(self, value: int) -> bool {
        self.in_string@.len() == 0 && self.in_milli as int == value
    }

    pub fn new() -> (r: Self)
        ensures
            r.is_blank(),
    {
        PositionItem { in_string: String::new(), in_milli: 0 }
    }

    pub fn new_milli_only(value: i64) -> (r: Self)
        ensures
            r.holds(value as int),
    {
        PositionItem { in_string: String::new(), in_milli: value }
    }

    /// Replaces text and value together.
    pub fn update_s_milli(&mut self, value_string: String, value_milli: i64)
        ensures
            final(self).in_string == value_string,
            final(self).in_milli == value_milli,
    {
        self.in_string = value_string;
        self.in_milli = value_milli;
    }
}

/// A waypoint: one arm pose with its motion parameters.
pub struct Position {
    pub x: PositionItem,
    pub y: PositionItem,
    pub z: PositionItem,
    pub r: PositionItem,
    pub v: PositionItem,
    pub a: PositionItem,
}

impl Clone for Position {
    fn clone(&self) -> (r: Self)
        ensures
            r == *self,
    {
        Position {
            x: self.x.clone(),
            y: self.y.clone(),
            z: self.z.clone(),
            r: self.r.clone(),
            v: self.v.clone(),
            a: self.a.clone(),
        }
    }
}

impl Position {
    pub open spec fn axis(self, c: Coordinate) -> PositionItem {
        match c {
            Coordinate::X => self.x,
            Coordinate::Y => self.y,
            Coordinate::Z => self.z,
            Coordinate::R => self.r,
            Coordinate::V => self.v,
            Coordinate::A => self.a,
        }
    }

    /// The waypoint with one axis replaced.
    pub open spec fn with_axis(self, c: Coordinate, item: PositionItem) -> Position {
        match c {
            Coordinate::X => Position { x: item, ..self },
            Coordinate::Y => Position { y: item, ..self },
            Coordinate::Z => Position { z: item, ..self },
            Coordinate::R => Position { r: item, ..self },
            Coordinate::V => Position { v: item, ..self },
            Coordinate::A => Position { a: item, ..self },
        }
    }

    /// Every axis has text: the waypoint may be queued.
    pub open spec fn is_complete(self) -> bool {
        forall|c: Coordinate| #[trigger] self.axis(c).in_string@.len() > 0
    }

    pub open spec fn is_blank(self) -> bool {
        forall|c: Coordinate| #[trigger] self.axis(c).is_blank()
    }

    /// A pose set by program, in thousandths.
    pub open spec fn is_pose(self, x: int, y: int, z: int, r: int, v: int, a: int) -> bool {
        &&& self.x.holds(x)
        &&& self.y.holds(y)
        &&& self.z.holds(z)
        &&& self.r.holds(r)
        &&& self.v.holds(v)
        &&& self.a.holds(a)
    }

    pub fn default() -> (r: Self)
        ensures
            r.is_blank(),
    {
        Position {
            x: PositionItem::new(),
            y: PositionItem::new(),
            z: PositionItem::new(),
            r: PositionItem::new(),
            v: PositionItem::new(),
            a: PositionItem::new(),
        }
    }

    pub fn position(x: i64, y: i64, z: i64, r: i64, v: i64, a: i64) -> (p: Self)
        ensures
            p.is_pose(x as int, y as int, z as int, r as int, v as int, a as int),
    {
        Position {
            x: PositionItem::new_milli_only(x),
            y: PositionItem::new_milli_only(y),
            z: PositionItem::new_milli_only(z),
            r: PositionItem::new_milli_only(r),
            v: PositionItem::new_milli_only(v),
            a: PositionItem::new_milli_only(a),
        }
    }

    /// The axis values in display order.
    pub fn into_iter(&self) -> (r: Vec<PositionItem>)
        ensures
            r@ == seq![self.x, self.y, self.z, self.r, self.v, self.a],
    {
        let r = vec![
            self.x.clone(),
            self.y.clone(),
            self.z.clone(),
            self.r.clone(),
            self.v.clone(),
            self.a.clone(),
        ];
        assert(r@ =~= seq![self.x, self.y, self.z, self.r, self.v, self.a]);
        r
    }

    /// Whether some axis has no text.
    pub fn has_empty_axis(&self) -> (r: bool)
        ensures
            r == !self.is_complete(),
    {
        let r = self.x.in_string.as_str().is_empty() || self.y.in_string.as_str().is_empty()
            || self.z.in_string.as_str().is_empty() || self.r.in_string.as_str().is_empty()
            || self.v.in_string.as_str().is_empty() || self.a.in_string.as_str().is_empty();
        proof {
            if !r {
                assert forall|c: Coordinate| #[trigger] self.axis(c).in_string@.len() > 0 by {
                    match c {
                        Coordinate::X => {},
                        Coordinate::Y => {},
                        Coordinate::Z => {},
                        Coordinate::R => {},
                        Coordinate::V => {},
                        Coordinate::A => {},
                    }
                }
            } else {
                if self.x.in_string@.len() == 0 {
                    assert(self.axis(Coordinate::X).in_string@.len() == 0);
                } else if self.y.in_string@.len() == 0 {
                    assert(self.axis(Coordinate::Y).in_string@.len() == 0);
                } else if self.z.in_string@.len() == 0 {
                    assert(self.axis(Coordinate::Z).in_string@.len() == 0);
                } else if self.r.in_string@.len() == 0 {
                    assert(self.axis(Coordinate::R).in_string@.len() == 0);
                } else if self.v.in_string@.len() == 0 {
                    assert(self.axis(Coordinate::V).in_string@.len() == 0);
                } else {
                    assert(self.axis(Coordinate::A).in_string@.len() == 0);
                }
            }
        }
        r
    }
}

/// Clones a list of waypoints, element for element.
pub fn clone_positions(v: &Vec<Position>) -> (r: Vec<Position>)
    ensures
        r@ == v@,
{
    let mut r: Vec<Position> = Vec::new();
    let mut i: usize = 0;
    while i < v.len()
        invariant
            i <= v@.len(),
            r@ == v@.take(i as int),
        decreases v@.len() - i,
    {
        r.push(v[i].clone());
        assert(v@.take(i + 1) =~= v@.take(i as int).push(v@[i as int]));
        i = i + 1;
    }
    assert(v@.take(v@.len() as int) =~= v@);
    r
}

/// A named, ordered list of waypoints for playback.
pub struct NamedSequence {
    pub name: String,
    pub sequences: Vec<Position>,
}

impl Clone for NamedSequence {
    fn clone(&self) -> (r: Self)
        ensures
            r.name == self.name,
            r.sequences@ == self.sequences@,
    {
        NamedSequence { name: self.name.clone(), sequences: clone_positions(&self.sequences) }
    }
}

/// The shapes an experiment can draw.
#[derive(Clone, Copy, Debug, PartialEq, Eq, Structural, Hash)]
pub enum Shapes {
    Triangle,
    Square,
    Pentagon,
    Hexagon,
}

/// Depth and height below the pen's rest point, as `(x, y, z)` in
/// thousandths of a millimetre, in stroke order.
pub open spec fn shape_outline(s: Shapes) -> Seq<(int, int, int)> {
    match s {
        Shapes::Triangle => seq![
            (200000, 15000, -22500),
            (200000, -15000, -22500),
            (200000, 0, 12500),
        ],
        Shapes::Square => seq![
            (200000, 15000, 12500),
            (200000, 15000, -22500),
            (200000, -15000, -22500),
            (200000, -15000, 12500),
        ],
        Shapes::Pentagon => seq![
            (200000, 16000, 0),
            (200000, 10000, -19000),
            (200000, -10000, -19000),
            (200000, -16000, 0),
            (200000, 0, 12000),
        ],
        Shapes::Hexagon => seq![
            (200000, 8000, 10000),
            (200000, 17000, -5000),
            (200000, 8000, -20000),
            (200000, -9000, -20000),
            (200000, -17000, -5000),
            (200000, -8000, 10000),
        ],
    }
}

/// The waypoints of a stroke list at one velocity and acceleration, rotation zero.
pub open spec fn outline_matches(r: Seq<Position>, o: Seq<(int, int, int)>, v: int, a: int) -> bool {
    &&& r.len() == o.len()
    &&& forall|i: int| 0 <= i < r.len() ==> #[trigger] r[i].is_pose(o[i].0, o[i].1, o[i].2, 0, v, a)
}

impl Shapes {
    pub open spec fn all() -> Seq<Shapes> {
        seq![Shapes::Triangle, Shapes::Square, Shapes::Pentagon, Shapes::Hexagon]
    }

    /// Every shape, each with its "in use" flag cleared.
    pub fn create_vec_shape_bool() -> (r: Vec<(Shapes, bool)>)
        ensures
            r@ == Shapes::all().map_values(|s: Shapes| (s, false)),
    {
        let r = vec![
            (Shapes::Triangle, false),
            (Shapes::Square, false),
            (Shapes::Pentagon, false),
            (Shapes::Hexagon, false),
        ];
        assert(r@ =~= Shapes::all().map_values(|s: Shapes| (s, false)));
        r
    }

    /// Every shape, in display order.
    pub fn into_iter() -> (r: Vec<Shapes>)
        ensures
            r@ == Shapes::all(),
    {
        let r = vec![Shapes::Triangle, Shapes::Square, Shapes::Pentagon, Shapes::Hexagon];
        assert(r@ =~= Shapes::all());
        r
    }

    /// The stroke waypoints of the shape, ending on its last stroke point.
    pub fn motion_data(&self, velocity: i64, acceleration: i64) -> (r: Vec<Position>)
        ensures
            outline_matches(r@, shape_outline(*self), velocity as int, acceleration as int),
    {
        let v = velocity;
        let a = acceleration;
        let r = match self {
            Shapes::Triangle => vec![
                Position::position(200000, 15000, -22500, 0, v, a),
                Position::position(200000, -15000, -22500, 0, v, a),
                Position::position(200000, 0, 12500, 0, v, a),
            ],
            Shapes::Square => vec![
                Position::position(200000, 15000, 12500, 0, v, a),
                Position::position(200000, 15000, -22500, 0, v, a),
                Position::position(200000, -15000, -22500, 0, v, a),
                Position::position(200000, -15000, 12500, 0, v, a),
            ],
            Shapes::Pentagon => vec![
                Position::position(200000, 16000, 0, 0, v, a),
                Position::position(200000, 10000, -19000, 0, v, a),
                Position::position(200000, -10000, -19000, 0, v, a),
                Position::position(200000, -16000, 0, 0, v, a),
                Position::position(200000, 0, 12000, 0, v, a),
            ],
            Shapes::Hexagon => vec![
                Position::position(200000, 8000, 10000, 0, v, a),
                Position::position(200000, 17000, -5000, 0, v, a),
                Position::position(200000, 8000, -20000, 0, v, a),
                Position::position(200000, -9000, -20000, 0, v, a),
                Position::position(200000, -17000, -5000, 0, v, a),
                Position::position(200000, -8000, 10000, 0, v, a),
            ],
        };
        r
    }

    pub open spec fn spec_name_en(self) -> Seq<char> {
        match self {
            Shapes::Triangle => "Triangle"@,
            Shapes::Square => "Square"@,
            Shapes::Pentagon => "Pentagon"@,
            Shapes::Hexagon => "Hexagon"@,
        }
    }

    pub fn show_name_en(&self) -> (r: String)
        ensures
            r@ == self.spec_name_en(),
    {
        match self {
            Shapes::Triangle => String::from_str("Triangle"),
            Shapes::Square => String::from_str("Square"),
            Shapes::Pentagon => String::from_str("Pentagon"),
            Shapes::Hexagon => String::from_str("Hexagon"),
        }
    }

    pub open spec fn spec_name_symbol(self) -> Seq<char> {
        match self {
            Shapes::Triangle => "T・▲・三"@,
            Shapes::Square => "S・■・四"@,
            Shapes::Pentagon => "P・⬟・五"@,
            Shapes::Hexagon => "H・⬢・六"@,
        }
    }

    pub fn show_name_symbol(&self) -> (r: String)
        ensures
            r@ == self.spec_name_symbol(),
    {
        match self {
            Shapes::Triangle => String::from_str("T・▲・三"),
            Shapes::Square => String::from_str("S・■・四"),
            Shapes::Pentagon => String::from_str("P・⬟・五"),
            Shapes::Hexagon => String::from_str("H・⬢・六"),
        }
    }

    pub open spec fn spec_label(self) -> Seq<char> {
        match self {
            Shapes::Triangle => " ▲ 三角形 ▲ "@,
            Shapes::Square => " ■ 正方形 ■ "@,
            Shapes::Pentagon => " ⬟ 五角形 ⬟ "@,
            Shapes::Hexagon => " ⬢ 六角形 ⬢ "@,
        }
    }

    /// The caption of the shape's answer button.
    pub fn label(&self) -> (r: String)
        ensures
            r@ == self.spec_label(),
    {
        match self {
            Shapes::Triangle => String::from_str(" ▲ 三角形 ▲ "),
            Shapes::Square => String::from_str(" ■ 正方形 ■ "),
            Shapes::Pentagon => String::from_str(" ⬟ 五角形 ⬟ "),
            Shapes::Hexagon => String::from_str(" ⬢ 六角形 ⬢ "),
        }
    }
}

/// Where fonts, results and sequences live, and how the devices are reached.
pub struct Config {
    pub font_path: String,
    pub results_path: String,
    pub sequences_path: String,
    pub dobot_path: String,
    pub relay_path: String,
}

impl Clone for Config {
    fn clone(&self) -> (r: Self)
        ensures
            r == *self,
    {
        Config {
            font_path: self.font_path.clone(),
            results_path: self.results_path.clone(),
            sequences_path: self.sequences_path.clone(),
            dobot_path: self.dobot_path.clone(),
            relay_path: self.relay_path.clone(),
        }
    }
}

impl Config {
    pub fn default() -> (r: Self)
        ensures
            r.dobot_path@ == "/dev/ttyUSB0"@,
            r.relay_path@ == "/dev/ttyACM0"@,
            r.font_path@ == "./fonts"@,
            r.results_path@ == "./results"@,
            r.sequences_path@ == "./sequences"@,
    {
        Config {
            dobot_path: String::from_str("/dev/ttyUSB0"),
            relay_path: String::from_str("/dev/ttyACM0"),
            font_path: String::from_str("./fonts"),
            results_path: String::from_str("./results"),
            sequences_path: String::from_str("./sequences"),
        }
    }
}

/// Stages of a trial: settle, draw, answer; `NotInExperiment` when no run is active.
#[derive(Clone, Copy, Debug, PartialEq, Eq, Structural)]
pub enum ExperimentStage {
    NotInExperiment,
    BeginTiming,
    Preparation,
    Answering,
}

/// A run's trial plan and what has been answered so far.
pub struct ExperimentInstance {
    pub shapes_selection: Vec<Shapes>,
    pub list_of_shapes: Vec<Shapes>,
    pub list_of_guesses: Vec<Shapes>,
    pub list_of_retries: Vec<u32>,
    pub list_of_time: Vec<u128>,
    pub experiment_index: usize,
}

impl ExperimentInstance {
    /// The plan's shape: parallel lists in step, the cursor on a trial, and
    /// every true shape one of the enabled ones.
    pub open spec fn wf(&self) -> bool {
        &&& self.shapes_selection@.len() > 0
        &&& self.list_of_guesses@.len() == self.list_of_time@.len()
        &&& self.list_of_guesses@.len() <= self.list_of_shapes@.len()
        &&& self.list_of_retries@.len() == self.list_of_shapes@.len()
        &&& self.experiment_index < self.list_of_shapes@.len()
        &&& forall|i: int|
            0 <= i < self.list_of_shapes@.len() ==> self.shapes_selection@.contains(
                #[trigger] self.list_of_shapes@[i],
            )
    }
}

/// One trial of a finished run.
#[derive(Clone, Copy, Debug, PartialEq, Eq, Structural)]
pub struct ResultItem {
    pub time: u128,
    pub true_shape: Shapes,
    pub guess_shape: Shapes,
    pub retries: u32,
    pub is_correct: bool,
}

/// Answers given for trials of one true shape.
pub struct ShapeAnalysis {
    pub time: u128,
    pub av_time: u128,
    pub main_shape: Shapes,
    pub main_shape_count: u32,
    pub wrong_shapes: Vec<(Shapes, u32)>,
}

/// Sum of the counts in a list of `(shape, count)` pairs.
pub open spec fn count_sum(ws: Seq<(Shapes, u32)>) -> int
    decreases ws.len(),
{
    if ws.len() == 0 {
        0
    } else {
        count_sum(ws.drop_last()) + ws.last().1
    }
}

/// The enabled shapes other than `main`, each with a zero count, in order.
pub open spec fn zero_counts_except(used: Seq<Shapes>, main: Shapes) -> Seq<(Shapes, u32)>
    decreases used.len(),
{
    if used.len() == 0 {
        Seq::empty()
    } else if used.last() == main {
        zero_counts_except(used.drop_last(), main)
    } else {
        zero_counts_except(used.drop_last(), main).push((used.last(), 0u32))
    }
}

pub proof fn lemma_count_sum_prefix(ws: Seq<(Shapes, u32)>, n: int)
    requires
        0 <= n <= ws.len(),
    ensures
        0 <= count_sum(ws.take(n)) <= count_sum(ws),
    decreases ws.len(),
{
    if n == ws.len() {
        assert(ws.take(n) =~= ws);
        lemma_count_sum_nonneg(ws);
    } else {
        lemma_count_sum_prefix(ws.drop_last(), n);
        assert(ws.drop_last().take(n) =~= ws.take(n));
    }
}

pub proof fn lemma_count_sum_nonneg(ws: Seq<(Shapes, u32)>)
    ensures
        count_sum(ws) >= 0,
    decreases ws.len(),
{
    if ws.len() > 0 {
        lemma_count_sum_nonneg(ws.drop_last());
    }
}

impl ShapeAnalysis {
    /// Trials counted for this true shape: correct ones and every miscount.
    pub open spec fn total(&self) -> int {
        self.main_shape_count + count_sum(self.wrong_shapes@)
    }

    /// The average time that `calc_avg_time` sets.
    pub open spec fn spec_avg(&self) -> int {
        if self.time == 0 || self.total() == 0 {
            0
        } else {
            self.time as int / self.total()
        }
    }

    /// An empty analysis of `main_shape`, with a zero miscount for each other
    /// enabled shape.
    pub fn new(main_shape: Shapes, used_shapes: Vec<Shapes>) -> (r: Self)
        ensures
            r.main_shape == main_shape,
            r.main_shape_count == 0,
            r.wrong_shapes@ == zero_counts_except(used_shapes@, main_shape),
            r.time == 0,
            r.av_time == 0,
    {
        let mut wrong: Vec<(Shapes, u32)> = Vec::new();
        let mut i: usize = 0;
        while i < used_shapes.len()
            invariant
                i <= used_shapes@.len(),
                wrong@ == zero_counts_except(used_shapes@.take(i as int), main_shape),
            decreases used_shapes@.len() - i,
        {
            let s = used_shapes[i];
            assert(used_shapes@.take(i + 1).drop_last() =~= used_shapes@.take(i as int));
            if s != main_shape {
                wrong.push((s, 0));
            }
            i = i + 1;
        }
        assert(used_shapes@.take(used_shapes@.len() as int) =~= used_shapes@);
        ShapeAnalysis { main_shape, main_shape_count: 0, wrong_shapes: wrong, time: 0, av_time: 0 }
    }

    /// Sets the average time per trial of this shape; zero when no time was
    /// accumulated or no trial counted.
    pub fn calc_avg_time(&mut self)
        requires
            old(self).total() <= u32::MAX,
        ensures
            final(self).av_time == old(self).spec_avg(),
            final(self).time == old(self).time,
            final(self).main_shape == old(self).main_shape,
            final(self).main_shape_count == old(self).main_shape_count,
            final(self).wrong_shapes@ == old(self).wrong_shapes@,
    {
        if self.time == 0 {
            self.av_time = 0;
        } else {
            let totals = self.calc_total_self_shape();
            if totals == 0 {
                self.av_time = 0;
            } else {
                self.av_time = self.time / totals as u128;
            }
        }
    }

    /// Trials counted for this true shape.
    pub fn calc_total_self_shape(&self) -> (r: u32)
        requires
            self.total() <= u32::MAX,
        ensures
            r == self.total(),
    {
        let ghost ws = self.wrong_shapes@;
        let mut acc: u32 = 0;
        let mut i: usize = 0;
        while i < self.wrong_shapes.len()
            invariant
                ws == self.wrong_shapes@,
                i <= ws.len(),
                acc == count_sum(ws.take(i as int)),
                self.total() <= u32::MAX,
            decreases ws.len() - i,
        {
            assert(ws.take(i + 1).drop_last() =~= ws.take(i as int));
            proof {
                lemma_count_sum_prefix(ws, i + 1);
            }
            acc = acc + self.wrong_shapes[i].1;
            i = i + 1;
        }
        assert(ws.take(ws.len() as int) =~= ws);
        proof {
            lemma_count_sum_nonneg(ws);
        }
        acc + self.main_shape_count
    }
}

/// The kinds of run parameter.
#[derive(Clone, Copy, Debug, PartialEq, Eq, Structural)]
pub enum ParameterType {
    SubjectName,
    TestCount,
    Voltage,
    Acceleration,
    Speed,
    ModulationType,
    ModulationFrequency,
    CarrierType,
    CarrierFrequency,
}

impl ParameterType {
    /// Free text, as opposed to a whole number.
    pub open spec fn is_text(self) -> bool {
        match self {
            ParameterType::SubjectName | ParameterType::ModulationType
            | ParameterType::CarrierType => true,
            _ => false,
        }
    }

    pub open spec fn spec_title(self, no_english: bool) -> Seq<char> {
        match self {
            ParameterType::SubjectName => if no_english {
                "被験者名"@
            } else {
                "被験者名・Name"@
            },
            ParameterType::TestCount => if no_english {
                "実験回数"@
            } else {
                "実験回数・Test Count"@
            },
            ParameterType::Voltage => if no_english {
                "駆動電圧"@
            } else {
                "振駆電圧・Voltage"@
            },
            ParameterType::Speed => if no_english {
                "運動速度"@
            } else {
                "運動速度・Speed"@
            },
            ParameterType::Acceleration => if no_english {
                "運動加速度"@
            } else {
                "運動加速度・Acceleration"@
            },
            ParameterType::ModulationType => if no_english {
                "変調波種類"@
            } else {
                "変調波種類・Modulation Type"@
            },
            ParameterType::ModulationFrequency => if no_english {
                "変調波周波数"@
            } else {
                "変調波周波数・Modulation Frequency"@
            },
            ParameterType::CarrierType => if no_english {
                "搬送波種類"@
            } else {
                "搬送波種類・Carrier Type"@
            },
            ParameterType::CarrierFrequency => if no_english {
                "搬送波周波数"@
            } else {
                "搬送波周波数・Carrier Frequency"@
            },
        }
    }

    /// The parameter's caption, in Japanese, or in Japanese and English.
    pub fn show_title(&self, no_english: bool) -> (r: String)
        ensures
            r@ == self.spec_title(no_english),
    {
        match self {
            ParameterType::SubjectName => String::from_str(
                if no_english {
                    "被験者名"
                } else {
                    "被験者名・Name"
                },
            ),
            ParameterType::TestCount => String::from_str(
                if no_english {
                    "実験回数"
                } else {
                    "実験回数・Test Count"
                },
            ),
            ParameterType::Voltage => String::from_str(
                if no_english {
                    "駆動電圧"
                } else {
                    "振駆電圧・Voltage"
                },
            ),
            ParameterType::Speed => String::from_str(
                if no_english {
                    "運動速度"
                } else {
                    "運動速度・Speed"
                },
            ),
            ParameterType::Acceleration => String::from_str(
                if no_english {
                    "運動加速度"
                } else {
                    "運動加速度・Acceleration"
                },
            ),
            ParameterType::ModulationType => String::from_str(
                if no_english {
                    "変調波種類"
                } else {
                    "変調波種類・Modulation Type"
                },
            ),
            ParameterType::ModulationFrequency => String::from_str(
                if no_english {
                    "変調波周波数"
                } else {
                    "変調波周波数・Modulation Frequency"
                },
            ),
            ParameterType::CarrierType => String::from_str(
                if no_english {
                    "搬送波種類"
                } else {
                    "搬送波種類・Carrier Type"
                },
            ),
            ParameterType::CarrierFrequency => String::from_str(
                if no_english {
                    "搬送波周波数"
                } else {
                    "搬送波周波数・Carrier Frequency"
                },
            ),
        }
    }

    pub open spec fn spec_unit(self) -> Option<Seq<char>> {
        match self {
            ParameterType::Voltage => Some(" [Vpp]"@),
            ParameterType::Acceleration => Some(" [cm / s^2]"@),
            ParameterType::Speed => Some(" [cm / s]"@),
            ParameterType::ModulationFrequency => Some(" [Hz]"@),
            ParameterType::CarrierFrequency => Some(" [Hz]"@),
            _ => None,
        }
    }

    /// The unit a numeric parameter is given in, if it has one.
    pub fn show_unit(&self) -> (r: Option<String>)
        ensures
            r.is_some() == self.spec_unit().is_some(),
            r.is_some() ==> r.unwrap()@ == self.spec_unit().unwrap(),
    {
        match self {
            ParameterType::SubjectName => None,
            ParameterType::TestCount => None,
            ParameterType::Voltage => Some(String::from_str(" [Vpp]")),
            ParameterType::Acceleration => Some(String::from_str(" [cm / s^2]")),
            ParameterType::Speed => Some(String::from_str(" [cm / s]")),
            ParameterType::ModulationType => None,
            ParameterType::ModulationFrequency => Some(String::from_str(" [Hz]")),
            ParameterType::CarrierType => None,
            ParameterType::CarrierFrequency => Some(String::from_str(" [Hz]")),
        }
    }

    pub open spec fn spec_title_en(self) -> Seq<char> {
        match self {
            ParameterType::SubjectName => "Subject name"@,
            ParameterType::TestCount => "Test count"@,
            ParameterType::Voltage => "Voltage"@,
            ParameterType::Acceleration => "Acceleration"@,
            ParameterType::Speed => "Speed"@,
            ParameterType::ModulationType => "Modulation type"@,
            ParameterType::ModulationFrequency => "Modulation frequency"@,
            ParameterType::CarrierType => "Carrier type"@,
            ParameterType::CarrierFrequency => "Carrier frequency"@,
        }
    }

    /// The parameter's caption in English.
    pub fn show_title_en(&self) -> (r: String)
        ensures
            r@ == self.spec_title_en(),
    {
        match self {
            ParameterType::SubjectName => String::from_str("Subject name"),
            ParameterType::TestCount => String::from_str("Test count"),
            ParameterType::Voltage => String::from_str("Voltage"),
            ParameterType::Acceleration => String::from_str("Acceleration"),
            ParameterType::Speed => String::from_str("Speed"),
            ParameterType::ModulationType => String::from_str("Modulation type"),
            ParameterType::ModulationFrequency => String::from_str("Modulation frequency"),
            ParameterType::CarrierType => String::from_str("Carrier type"),
            ParameterType::CarrierFrequency => String::from_str("Carrier frequency"),
        }
    }
}

/// A run parameter and its text as typed.
pub struct ParameterItem {
    pub parameter_type: ParameterType,
    pub value: String,
}

impl Clone for ParameterItem {
    fn clone(&self) -> (r: Self)
        ensures
            r == *self,
    {
        ParameterItem { parameter_type: self.parameter_type, value: self.value.clone() }
    }
}

impl ParameterItem {
    pub fn new(parameter_type: ParameterType) -> (r: Self)
        ensures
            r.parameter_type == parameter_type,
            r.value@.len() == 0,
    {
        ParameterItem { parameter_type, value: String::new() }
    }
}

/// The parameters of a run, one of each kind.
pub struct Parameters {
    pub subject_name: ParameterItem,
    pub test_count: ParameterItem,
    pub voltage: ParameterItem,
    pub acceleration: ParameterItem,
    pub speed: ParameterItem,
    pub modulation_type: ParameterItem,
    pub modulation_frequency: ParameterItem,
    pub carrier_type: ParameterItem,
    pub carrier_frequency: ParameterItem,
}

impl Clone for Parameters {
    fn clone(&self) -> (r: Self)
        ensures
            r == *self,
    {
        Parameters {
            subject_name: self.subject_name.clone(),
            test_count: self.test_count.clone(),
            voltage: self.voltage.clone(),
            acceleration: self.acceleration.clone(),
            speed: self.speed.clone(),
            modulation_type: self.modulation_type.clone(),
            modulation_frequency: self.modulation_frequency.clone(),
            carrier_type: self.carrier_type.clone(),
            carrier_frequency: self.carrier_frequency.clone(),
        }
    }
}

pub open spec fn parameter_order() -> Seq<ParameterType> {
    seq![
        ParameterType::SubjectName,
        ParameterType::TestCount,
        ParameterType::Voltage,
        ParameterType::Acceleration,
        ParameterType::Speed,
        ParameterType::ModulationType,
        ParameterType::ModulationFrequency,
        ParameterType::CarrierType,
        ParameterType::CarrierFrequency,
    ]
}

impl Parameters {
    /// The slot that holds parameters of kind `t`.
    pub open spec fn item(self, t: ParameterType) -> ParameterItem {
        match t {
            ParameterType::SubjectName => self.subject_name,
            ParameterType::TestCount => self.test_count,
            ParameterType::Voltage => self.voltage,
            ParameterType::Acceleration => self.acceleration,
            ParameterType::Speed => self.speed,
            ParameterType::ModulationType => self.modulation_type,
            ParameterType::ModulationFrequency => self.modulation_frequency,
            ParameterType::CarrierType => self.carrier_type,
            ParameterType::CarrierFrequency => self.carrier_frequency,
        }
    }

    /// The parameters with the text of slot `t` replaced.
    pub open spec fn with_value(self, t: ParameterType, v: String) -> Parameters {
        match t {
            ParameterType::SubjectName => Parameters { subject_name: ParameterItem { value: v, ..self.subject_name }, ..self },
            ParameterType::TestCount => Parameters { test_count: ParameterItem { value: v, ..self.test_count }, ..self },
            ParameterType::Voltage => Parameters { voltage: ParameterItem { value: v, ..self.voltage }, ..self },
            ParameterType::Acceleration => Parameters { acceleration: ParameterItem { value: v, ..self.acceleration }, ..self },
            ParameterType::Speed => Parameters { speed: ParameterItem { value: v, ..self.speed }, ..self },
            ParameterType::ModulationType => Parameters { modulation_type: ParameterItem { value: v, ..self.modulation_type }, ..self },
            ParameterType::ModulationFrequency => Parameters { modulation_frequency: ParameterItem { value: v, ..self.modulation_frequency }, ..self },
            ParameterType::CarrierType => Parameters { carrier_type: ParameterItem { value: v, ..self.carrier_type }, ..self },
            ParameterType::CarrierFrequency => Parameters { carrier_frequency: ParameterItem { value: v, ..self.carrier_frequency }, ..self },
        }
    }

    /// The slots in display order.
    pub open spec fn items(self) -> Seq<ParameterItem> {
        parameter_order().map_values(|t: ParameterType| self.item(t))
    }

    /// Each slot holds a parameter of its own kind.
    pub open spec fn wf(self) -> bool {
        forall|t: ParameterType| #[trigger] self.item(t).parameter_type == t
    }

    pub fn new() -> (r: Self)
        ensures
            r.wf(),
            forall|t: ParameterType| #[trigger] r.item(t).value@.len() == 0,
    {
        let r = Parameters {
            subject_name: ParameterItem::new(ParameterType::SubjectName),
            test_count: ParameterItem::new(ParameterType::TestCount),
            voltage: ParameterItem::new(ParameterType::Voltage),
            acceleration: ParameterItem::new(ParameterType::Acceleration),
            speed: ParameterItem::new(ParameterType::Speed),
            modulation_type: ParameterItem::new(ParameterType::ModulationType),
            modulation_frequency: ParameterItem::new(ParameterType::ModulationFrequency),
            carrier_type: ParameterItem::new(ParameterType::CarrierType),
            carrier_frequency: ParameterItem::new(ParameterType::CarrierFrequency),
        };
        assert forall|t: ParameterType| #[trigger] r.item(t).parameter_type == t && r.item(t).value@.len() == 0 by {
            match t {
                ParameterType::SubjectName => {},
                ParameterType::TestCount => {},
                ParameterType::Voltage => {},
                ParameterType::Acceleration => {},
                ParameterType::Speed => {},
                ParameterType::ModulationType => {},
                ParameterType::ModulationFrequency => {},
                ParameterType::CarrierType => {},
                ParameterType::CarrierFrequency => {},
            }
        }
        r
    }

    /// Copies of the parameters, in display order.
    pub fn into_iter(&self) -> (r: Vec<ParameterItem>)
        ensures
            r@ == self.items(),
    {
        let r = vec![
            self.subject_name.clone(),
            self.test_count.clone(),
            self.voltage.clone(),
            self.acceleration.clone(),
            self.speed.clone(),
            self.modulation_type.clone(),
            self.modulation_frequency.clone(),
            self.carrier_type.clone(),
            self.carrier_frequency.clone(),
        ];
        assert(r@ =~= self.items());
        r
    }

    /// Replaces the text of slot `t`.
    pub fn set_value(&mut self, t: ParameterType, value: String)
        ensures
            *final(self) == old(self).with_value(t, value),
    {
        match t {
            ParameterType::SubjectName => self.subject_name.value = value,
            ParameterType::TestCount => self.test_count.value = value,
            ParameterType::Voltage => self.voltage.value = value,
            ParameterType::Acceleration => self.acceleration.value = value,
            ParameterType::Speed => self.speed.value = value,
            ParameterType::ModulationType => self.modulation_type.value = value,
            ParameterType::ModulationFrequency => self.modulation_frequency.value = value,
            ParameterType::CarrierType => self.carrier_type.value = value,
            ParameterType::CarrierFrequency => self.carrier_frequency.value = value,
        }
    }

    /// Takes text typed for parameter `t`: empty text and free text always,
    /// other text only when it is a whole number. Returns false, changing
    /// nothing, when it is refused.
    pub fn update_parameter(&mut self, t: ParameterType, invalue: String) -> (accepted: bool)
        ensures
            accepted == (invalue@.len() == 0 || t.is_text() || spec_parse_u32(invalue@) is Some),
            accepted ==> *final(self) == old(self).with_value(t, invalue),
            !accepted ==> *final(self) == *old(self),
    {
        let text = match t {
            ParameterType::SubjectName | ParameterType::ModulationType
            | ParameterType::CarrierType => true,
            _ => false,
        };
        if invalue.as_str().is_empty() || text || parse_u32(invalue.as_str()).is_some() {
            self.set_value(t, invalue);
            true
        } else {
            false
        }
    }

    /// The first parameter, in display order, whose text is empty.
    pub open spec fn spec_first_empty(self) -> Option<ParameterType> {
        if exists|i: int| 0 <= i < 9 && (#[trigger] self.items()[i]).value@.len() == 0 {
            let i = choose|i: int|
                0 <= i < 9 && (#[trigger] self.items()[i]).value@.len() == 0 && forall|j: int|
                    0 <= j < i ==> (#[trigger] self.items()[j]).value@.len() > 0;
            Some(parameter_order()[i])
        } else {
            None
        }
    }

    /// Finds the first parameter, in display order, whose text is empty.
    pub fn first_empty(&self) -> (r: Option<ParameterType>)
        ensures
            r == self.spec_first_empty(),
    {
        let items = self.into_iter();
        let order = vec![
            ParameterType::SubjectName,
            ParameterType::TestCount,
            ParameterType::Voltage,
            ParameterType::Acceleration,
            ParameterType::Speed,
            ParameterType::ModulationType,
            ParameterType::ModulationFrequency,
            ParameterType::CarrierType,
            ParameterType::CarrierFrequency,
        ];
        assert(order@ =~= parameter_order());
        let mut i: usize = 0;
        while i < 9
            invariant
                i <= 9,
                items@ == self.items(),
                order@ == parameter_order(),
                forall|j: int| 0 <= j < i ==> (#[trigger] self.items()[j]).value@.len() > 0,
            decreases 9 - i,
        {
            if items[i].value.as_str().is_empty() {
                assert(self.items()[i as int].value@.len() == 0);
                let ghost k = choose|k: int|
                    0 <= k < 9 && (#[trigger] self.items()[k]).value@.len() == 0 && forall|j: int|
                        0 <= j < k ==> (#[trigger] self.items()[j]).value@.len() > 0;
                assert(k == i) by {
                    if k < i {
                        assert(self.items()[k].value@.len() > 0);
                    } else if k > i {
                        assert(self.items()[i as int].value@.len() > 0);
                    }
                }
                return Some(order[i]);
            }
            i = i + 1;
        }
        None
    }
}

} // verus!
