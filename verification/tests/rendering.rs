use fractal::rendering::{
    construct_turtle_window_handler, DoubleBufferedAnimatedWindowHandler,
    DoubleBufferedWindowHandler, TurtleWindowHandler,
};
use fractal::turtle::{TurtleAction, TurtleProgram, TurtleProgramIterator};

/// A four-chunk program over integer scalars, as a curve would provide it.
struct FourChunkProgram;

fn init_actions() -> Vec<TurtleAction<i64>> {
    vec![TurtleAction::SetHeading(7), TurtleAction::PenDown]
}

fn program_actions() -> Vec<TurtleAction<i64>> {
    vec![
        TurtleAction::Forward(1),
        TurtleAction::Turn(2),
        TurtleAction::Forward(3),
        TurtleAction::Forward(4),
        TurtleAction::Turn(5),
        TurtleAction::Forward(6),
    ]
}

fn chunk(n: usize) -> Vec<TurtleAction<i64>> {
    match n {
        1 => vec![TurtleAction::Forward(1)],
        2 => vec![TurtleAction::Turn(2), TurtleAction::Forward(3)],
        3 => vec![TurtleAction::Forward(4)],
        4 => vec![TurtleAction::Turn(5), TurtleAction::Forward(6)],
        _ => panic!("no such chunk"),
    }
}

fn concat(parts: Vec<Vec<TurtleAction<i64>>>) -> Vec<TurtleAction<i64>> {
    let mut r = Vec::new();
    for p in parts {
        r.extend(p);
    }
    r
}

impl TurtleProgram<i64> for FourChunkProgram {
    fn init_turtle(&self) -> Vec<TurtleAction<i64>> {
        init_actions()
    }

    fn turtle_program_iter(&self) -> TurtleProgramIterator<i64> {
        TurtleProgramIterator::new(program_actions())
    }
}

#[test]
fn warm_up_advances_first_second_steady_in_order() {
    let mut handler = DoubleBufferedAnimatedWindowHandler::new(&FourChunkProgram, 1);
    // first call: clear, init, first chunk
    let plan0 = handler.render_frame(0);
    assert!(plan0.clear);
    assert_eq!(plan0.actions, concat(vec![init_actions(), chunk(1)]));
    // second call: clear, init, one extra chunk to stagger the buffers
    let plan1 = handler.render_frame(1);
    assert!(plan1.clear);
    assert_eq!(plan1.actions, concat(vec![init_actions(), chunk(1), chunk(2)]));
    // steady state: no clear
    let plan2 = handler.render_frame(2);
    assert!(!plan2.clear);
    assert_eq!(plan2.actions, concat(vec![chunk(2), chunk(3)]));
}

#[test]
fn pacing_one_chunk_completes_a_four_chunk_program_in_four_steady_calls() {
    let mut handler = DoubleBufferedAnimatedWindowHandler::new(&FourChunkProgram, 1);
    handler.render_frame(0); // slot 0 drew chunk 1
    handler.render_frame(1); // slot 1 drew chunks 1, 2
    // four steady calls: each slot replays what its sibling drew (catch-up)
    // and draws one new chunk; no chunk appears twice on one slot otherwise.
    let plan2 = handler.render_frame(2);
    assert_eq!(plan2.actions, concat(vec![chunk(2), chunk(3)]));
    let plan3 = handler.render_frame(3);
    assert_eq!(plan3.actions, concat(vec![chunk(3), chunk(4)]));
    let plan4 = handler.render_frame(4);
    assert_eq!(plan4.actions, chunk(4));
    let plan5 = handler.render_frame(5);
    assert!(plan5.actions.is_empty());
    // both buffers have the full program: further calls are steady no-ops.
    assert!(handler.render_frame(6).actions.is_empty());
    assert!(handler.render_frame(7).actions.is_empty());
}

#[test]
fn resize_restarts_the_animated_warm_up_from_first_frame() {
    let mut handler = DoubleBufferedAnimatedWindowHandler::new(&FourChunkProgram, 1);
    let fresh_first = handler.render_frame(0);
    handler.render_frame(1);
    handler.render_frame(2);
    handler.window_resized();
    // identical to a fresh first-frame call, whatever phase we were in
    let restarted = handler.render_frame(3);
    assert!(restarted.clear);
    assert_eq!(restarted.actions, fresh_first.actions);
    let second = handler.render_frame(4);
    assert!(second.clear);
    assert_eq!(second.actions, concat(vec![init_actions(), chunk(1), chunk(2)]));
}

#[test]
fn static_handler_draws_everything_once_per_buffer() {
    let full = concat(vec![init_actions(), program_actions(), vec![TurtleAction::PenUp]]);
    let mut handler = DoubleBufferedWindowHandler::new(&FourChunkProgram);
    let plan0 = handler.render_frame(0);
    assert!(plan0.clear);
    assert_eq!(plan0.actions, full);
    let plan1 = handler.render_frame(1);
    assert!(plan1.clear);
    assert_eq!(plan1.actions, full);
    // both buffers are up to date: nothing further to draw
    assert!(!handler.render_frame(2).clear);
    assert!(handler.render_frame(3).actions.is_empty());
    // a resize invalidates both buffers again
    handler.window_resized();
    assert_eq!(handler.render_frame(4).actions, full);
    assert_eq!(handler.render_frame(5).actions, full);
}

#[test]
fn animation_setting_selects_the_handler() {
    assert!(matches!(
        construct_turtle_window_handler(&FourChunkProgram, 0),
        TurtleWindowHandler::Static(_)
    ));
    assert!(matches!(
        construct_turtle_window_handler(&FourChunkProgram, 3),
        TurtleWindowHandler::Animated(_)
    ));
}

#[test]
fn animated_pace_two_draws_two_chunks_on_the_first_frame() {
    let mut handler = DoubleBufferedAnimatedWindowHandler::new(&FourChunkProgram, 2);
    let plan0 = handler.render_frame(0);
    assert_eq!(plan0.actions, concat(vec![init_actions(), chunk(1), chunk(2)]));
    let plan1 = handler.render_frame(1);
    assert_eq!(
        plan1.actions,
        concat(vec![init_actions(), chunk(1), chunk(2), chunk(3)])
    );
    let plan2 = handler.render_frame(2);
    assert_eq!(plan2.actions, concat(vec![chunk(3), chunk(4)]));
}
