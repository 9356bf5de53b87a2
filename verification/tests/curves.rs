use fractal::curves::{
    construct_program, ConstructionError, CurveKind, DragonFractal, MAX_DRAGON_ITERATIONS,
};
use fractal::turtle::TurtleAction;

#[test]
fn registry_resolves_every_known_curve_name() {
    let cases = [
        ("cesaro", CurveKind::Cesaro),
        ("cesarotri", CurveKind::CesaroTri),
        ("dragon", CurveKind::Dragon),
        ("kochcurve", CurveKind::KochCurve),
        ("levyccurve", CurveKind::LevyCCurve),
        ("terdragon", CurveKind::Terdragon),
    ];
    for (name, kind) in cases {
        let selection = construct_program(name, 4).unwrap();
        assert_eq!(selection.kind, kind);
        assert_eq!(selection.iterations, 4);
    }
}

#[test]
fn registry_rejects_unknown_curve_names() {
    assert_eq!(
        construct_program("moore", 2),
        Err(ConstructionError::UnknownCurve)
    );
    assert_eq!(
        construct_program("", 0),
        Err(ConstructionError::UnknownCurve)
    );
    assert_eq!(
        construct_program("dragonn", 2),
        Err(ConstructionError::UnknownCurve)
    );
}

#[test]
fn registry_rejects_dragon_iterations_out_of_range() {
    assert_eq!(
        construct_program("dragon", MAX_DRAGON_ITERATIONS + 1),
        Err(ConstructionError::IterationOutOfRange)
    );
    assert!(construct_program("dragon", MAX_DRAGON_ITERATIONS).is_ok());
}

#[test]
fn dragon_construction_checks_the_iteration_bound() {
    assert!(DragonFractal::new(0).is_ok());
    assert!(DragonFractal::new(MAX_DRAGON_ITERATIONS).is_ok());
    assert_eq!(
        DragonFractal::new(MAX_DRAGON_ITERATIONS + 1).err(),
        Some(ConstructionError::IterationOutOfRange)
    );
}

#[test]
fn dragon_turn_sequences_follow_the_paper_folding_pattern() {
    assert_eq!(DragonFractal::new(0).unwrap().turn_sequence(), Vec::<bool>::new());
    assert_eq!(DragonFractal::new(1).unwrap().turn_sequence(), vec![true]);
    assert_eq!(
        DragonFractal::new(2).unwrap().turn_sequence(),
        vec![true, true, false]
    );
    assert_eq!(
        DragonFractal::new(3).unwrap().turn_sequence(),
        vec![true, true, false, true, true, false, false]
    );
}

#[test]
fn dragon_turn_sequence_length_doubles_per_fold() {
    for k in 0..12u64 {
        let len = DragonFractal::new(k).unwrap().turn_sequence().len() as u64;
        assert_eq!(len, (1u64 << k) - 1);
    }
}

#[test]
fn dragon_actions_interleave_segments_and_turns() {
    let dragon = DragonFractal::new(2).unwrap();
    // turns are [left, left, right]; left turns by 1, right by -1
    assert_eq!(
        dragon.actions(10i64, 1, -1),
        vec![
            TurtleAction::Forward(10),
            TurtleAction::Turn(1),
            TurtleAction::Forward(10),
            TurtleAction::Turn(1),
            TurtleAction::Forward(10),
            TurtleAction::Turn(-1),
            TurtleAction::Forward(10),
        ]
    );
}
