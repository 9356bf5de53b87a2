use std::f64::consts::PI;

use fractal::geometry::Point;
use fractal::turtle::{Turtle, TurtleAction, TurtleProgramIterator, TurtleState};

fn four_chunk_actions() -> Vec<TurtleAction<i64>> {
    vec![
        TurtleAction::Forward(1),
        TurtleAction::Turn(2),
        TurtleAction::Forward(3),
        TurtleAction::PenUp,
        TurtleAction::PenDown,
        TurtleAction::Forward(4),
        TurtleAction::Turn(5),
        TurtleAction::Forward(6),
    ]
}

#[test]
fn null_iterator_returns_no_chunks_on_first_call() {
    let mut it = fractal::turtle::TurtleCollectToNextForwardIterator::<i64>::new_null_iter();
    assert!(it.next().is_none());
    assert!(it.next().is_none());
}

#[test]
fn chunks_end_just_after_each_forward() {
    let mut it = TurtleProgramIterator::new(four_chunk_actions()).collect_to_next_forward();
    assert_eq!(it.next().unwrap(), vec![TurtleAction::Forward(1)]);
    assert_eq!(
        it.next().unwrap(),
        vec![TurtleAction::Turn(2), TurtleAction::Forward(3)]
    );
    assert_eq!(
        it.next().unwrap(),
        vec![
            TurtleAction::PenUp,
            TurtleAction::PenDown,
            TurtleAction::Forward(4)
        ]
    );
    assert_eq!(
        it.next().unwrap(),
        vec![TurtleAction::Turn(5), TurtleAction::Forward(6)]
    );
    assert!(it.next().is_none());
}

#[test]
fn terminal_chunk_may_end_without_forward() {
    let actions = vec![
        TurtleAction::Forward(1i64),
        TurtleAction::Turn(2),
        TurtleAction::PenUp,
    ];
    let mut it = TurtleProgramIterator::new(actions).collect_to_next_forward();
    assert_eq!(it.next().unwrap(), vec![TurtleAction::Forward(1)]);
    assert_eq!(
        it.next().unwrap(),
        vec![TurtleAction::Turn(2), TurtleAction::PenUp]
    );
    assert!(it.next().is_none());
}

#[test]
fn chunk_concatenation_reproduces_the_action_sequence() {
    let actions = four_chunk_actions();
    let mut it = TurtleProgramIterator::new(actions.clone()).collect_to_next_forward();
    let mut rebuilt: Vec<TurtleAction<i64>> = Vec::new();
    while let Some(chunk) = it.next() {
        rebuilt.extend(chunk);
    }
    assert_eq!(rebuilt, actions);
}

#[test]
fn program_iterator_walks_all_actions_in_order() {
    let actions = four_chunk_actions();
    let mut it = TurtleProgramIterator::new(actions.clone());
    let mut seen: Vec<TurtleAction<i64>> = Vec::new();
    while let Some(a) = it.next() {
        seen.push(a);
    }
    assert_eq!(seen, actions);
}

/// A plain turtle over real coordinates, as a renderer would implement it.
struct TestTurtle {
    state: TurtleState<f64>,
    lines: Vec<(f64, f64, f64, f64)>,
}

impl TestTurtle {
    fn new() -> TestTurtle {
        TestTurtle {
            state: TurtleState::new(Point { x: 0.0, y: 0.0 }, 0.0),
            lines: Vec::new(),
        }
    }
}

impl Turtle<f64> for TestTurtle {
    fn forward(&mut self, distance: f64) {
        let old = self.state.position;
        let new_pos = Point {
            x: old.x + distance * self.state.angle.cos(),
            y: old.y + distance * self.state.angle.sin(),
        };
        if self.state.down {
            self.lines.push((old.x, old.y, new_pos.x, new_pos.y));
        }
        self.state.position = new_pos;
    }

    fn set_pos(&mut self, new_pos: Point<f64>) {
        self.state.position = new_pos;
    }

    fn set_rad(&mut self, new_rad: f64) {
        self.state.angle = new_rad;
    }

    fn turn_rad(&mut self, radians: f64) {
        self.state.angle = (self.state.angle + radians) % (2.0 * PI);
    }

    fn down(&mut self) {
        self.state.down = true;
    }

    fn up(&mut self) {
        self.state.down = false;
    }
}

#[test]
fn forward_turn_forward_lands_at_one_one() {
    let mut turtle = TestTurtle::new();
    turtle.perform(TurtleAction::Forward(1.0));
    turtle.perform(TurtleAction::Turn(PI / 2.0));
    turtle.perform(TurtleAction::Forward(1.0));
    assert!((turtle.state.position.x - 1.0).abs() < 1e-9);
    assert!((turtle.state.position.y - 1.0).abs() < 1e-9);
    assert!((turtle.state.angle - PI / 2.0).abs() < 1e-9);
    assert_eq!(turtle.lines.len(), 2);
}

#[test]
fn forward_moves_without_drawing_when_pen_is_up() {
    let mut turtle = TestTurtle::new();
    turtle.perform(TurtleAction::PenUp);
    turtle.perform(TurtleAction::Forward(2.0));
    assert!(turtle.lines.is_empty());
    assert!((turtle.state.position.x - 2.0).abs() < 1e-9);
    turtle.perform(TurtleAction::PenDown);
    turtle.perform(TurtleAction::Forward(1.0));
    assert_eq!(turtle.lines.len(), 1);
}

#[test]
fn new_turtle_state_starts_pen_down() {
    let state = TurtleState::new(Point { x: 3.0f64, y: 4.0 }, 0.5);
    assert_eq!(state.position.x, 3.0);
    assert_eq!(state.position.y, 4.0);
    assert_eq!(state.angle, 0.5);
    assert!(state.down);
}
