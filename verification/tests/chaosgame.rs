use fractal::chaosgame::ChaosGameWindowHandler;
use fractal::geometry::Point;

fn p(x: f64, y: f64) -> Point<f64> {
    Point { x, y }
}

#[test]
fn first_frame_clears_and_replays_nothing() {
    let mut handler: ChaosGameWindowHandler<Point<f64>> = ChaosGameWindowHandler::new(2);
    let plan = handler.render_frame(vec![p(0.1, 0.2), p(0.3, 0.4)]);
    assert!(plan.clear);
    assert!(plan.replay.is_empty());
}

#[test]
fn second_frame_replays_the_first_batch_then_steady_frames_follow() {
    let mut handler: ChaosGameWindowHandler<Point<f64>> = ChaosGameWindowHandler::new(2);
    let first = vec![p(0.1, 0.2), p(0.3, 0.4)];
    handler.render_frame(first.clone());
    // the second buffer must catch up on the first batch before drawing more
    let plan1 = handler.render_frame(vec![p(0.5, 0.6), p(0.7, 0.8)]);
    assert!(plan1.clear);
    assert_eq!(plan1.replay, first);
    // steady state: no clear, replay the previous batch
    let plan2 = handler.render_frame(vec![p(0.9, 1.0)]);
    assert!(!plan2.clear);
    assert_eq!(plan2.replay, vec![p(0.5, 0.6), p(0.7, 0.8)]);
    let plan3 = handler.render_frame(Vec::new());
    assert!(!plan3.clear);
    assert_eq!(plan3.replay, vec![p(0.9, 1.0)]);
}

#[test]
fn exhausted_point_stream_is_a_steady_no_op() {
    let mut handler: ChaosGameWindowHandler<Point<f64>> = ChaosGameWindowHandler::new(1);
    handler.render_frame(vec![p(0.1, 0.1)]);
    handler.render_frame(vec![p(0.2, 0.2)]);
    handler.render_frame(Vec::new());
    let plan = handler.render_frame(Vec::new());
    assert!(!plan.clear);
    assert!(plan.replay.is_empty());
}

#[test]
fn resize_restarts_the_chaos_warm_up_from_first_frame() {
    let mut handler: ChaosGameWindowHandler<Point<f64>> = ChaosGameWindowHandler::new(2);
    handler.render_frame(vec![p(0.1, 0.2)]);
    handler.render_frame(vec![p(0.3, 0.4)]);
    handler.render_frame(vec![p(0.5, 0.6)]);
    handler.window_resized();
    // identical to a fresh first-frame call: clear, no replay
    let plan = handler.render_frame(vec![p(0.7, 0.8)]);
    assert!(plan.clear);
    assert!(plan.replay.is_empty());
    let next = handler.render_frame(Vec::new());
    assert!(next.clear);
    assert_eq!(next.replay, vec![p(0.7, 0.8)]);
}
