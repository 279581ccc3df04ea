use corenet::protocol::ScreenEdge;
use corenet::screen::{
    denormalize_edge_position, normalize_edge_position, opposite_edge, EdgeDetectResult,
    EdgeDetector, EdgeDetectorConfig, EdgeMask, EdgePosition,
};

const MS: u128 = 1_000_000;

fn fraction(position: EdgePosition) -> f32 {
    position.numer as f32 / position.denom as f32
}

#[test]
fn test_edge_detection_left() {
    let config = EdgeDetectorConfig::default();
    let mut detector = EdgeDetector::new(config, 1920, 1080);

    // Move to left edge
    let result = detector.check(0, 500);

    match result {
        EdgeDetectResult::Transition { edge, position } => {
            assert_eq!(edge, ScreenEdge::Left);
            let position = fraction(position);
            assert!(position > 0.4 && position < 0.5);
        }
        _ => panic!("Expected transition"),
    }
}

#[test]
fn test_edge_detection_right() {
    let config = EdgeDetectorConfig::default();
    let mut detector = EdgeDetector::new(config, 1920, 1080);

    let result = detector.check(1919, 500);

    match result {
        EdgeDetectResult::Transition { edge, .. } => {
            assert_eq!(edge, ScreenEdge::Right);
        }
        _ => panic!("Expected transition"),
    }
}

#[test]
fn test_edge_detection_with_dwell() {
    let config = EdgeDetectorConfig { dwell_time_ms: 100, ..Default::default() };
    let mut detector = EdgeDetector::new(config, 1920, 1080);

    // First check should be dwelling
    let result = detector.check_at(0, 500, 0);
    assert!(matches!(result, EdgeDetectResult::Dwelling { .. }));

    // After dwell time, should transition
    let result = detector.check_at(0, 500, 150 * MS);
    assert!(matches!(result, EdgeDetectResult::Transition { .. }));
}

#[test]
fn test_disabled_edge() {
    let mut config = EdgeDetectorConfig::default();
    config.enabled_edges.disable(ScreenEdge::Left);
    let mut detector = EdgeDetector::new(config, 1920, 1080);

    // Left edge should not trigger
    let result = detector.check(0, 500);
    assert!(matches!(result, EdgeDetectResult::NotAtEdge));

    // Right edge should still work
    let result = detector.check(1919, 500);
    assert!(matches!(result, EdgeDetectResult::Transition { .. }));
}

#[test]
fn test_default_detector_config() {
    let config = EdgeDetectorConfig::default();
    assert_eq!(config.edge_margin, 1);
    assert_eq!(config.dwell_time_ms, 0);
    assert!(!config.require_double_tap);
    assert_eq!(config.double_tap_window_ms, 500);
    assert_eq!(config.enabled_edges, EdgeMask::all());
}

#[test]
fn test_edge_mask() {
    let mut mask = EdgeMask::none();
    let edges = [ScreenEdge::Left, ScreenEdge::Right, ScreenEdge::Top, ScreenEdge::Bottom];
    for edge in edges {
        assert!(!mask.is_enabled(edge));
        assert!(EdgeMask::all().is_enabled(edge));
        for other in edges {
            assert_eq!(EdgeMask::only(edge).is_enabled(other), edge == other);
        }
    }
    mask.enable(ScreenEdge::Top);
    mask.enable(ScreenEdge::Left);
    assert!(mask.is_enabled(ScreenEdge::Top));
    assert!(mask.is_enabled(ScreenEdge::Left));
    assert!(!mask.is_enabled(ScreenEdge::Right));
    assert!(!mask.is_enabled(ScreenEdge::Bottom));
    mask.disable(ScreenEdge::Top);
    assert!(!mask.is_enabled(ScreenEdge::Top));
    assert!(mask.is_enabled(ScreenEdge::Left));
    mask.disable(ScreenEdge::Left);
    assert_eq!(mask, EdgeMask::none());
}

#[test]
fn test_dwell_remaining_and_transition() {
    let config = EdgeDetectorConfig { edge_margin: 1, dwell_time_ms: 100, ..Default::default() };
    let mut detector = EdgeDetector::new(config, 1920, 1080);
    match detector.check_at(0, 500, 10 * MS) {
        EdgeDetectResult::Dwelling { edge, remaining_ms } => {
            assert_eq!(edge, ScreenEdge::Left);
            assert_eq!(remaining_ms, 100);
        }
        other => panic!("expected dwelling, got {:?}", other),
    }
    match detector.check_at(0, 510, 50 * MS) {
        EdgeDetectResult::Dwelling { edge, remaining_ms } => {
            assert_eq!(edge, ScreenEdge::Left);
            assert_eq!(remaining_ms, 60);
        }
        other => panic!("expected dwelling, got {:?}", other),
    }
    // One nanosecond short of the dwell time.
    assert!(matches!(
        detector.check_at(0, 500, 110 * MS - 1),
        EdgeDetectResult::Dwelling { remaining_ms: 1, .. }
    ));
    match detector.check_at(0, 500, 160 * MS) {
        EdgeDetectResult::Transition { edge, position } => {
            assert_eq!(edge, ScreenEdge::Left);
            assert_eq!(position, EdgePosition { numer: 500, denom: 1080 });
            assert!((fraction(position) - 0.463).abs() < 0.001);
        }
        other => panic!("expected transition, got {:?}", other),
    }
    assert_eq!(detector.current_edge(), Some(ScreenEdge::Left));
}

#[test]
fn test_double_tap() {
    let config = EdgeDetectorConfig {
        edge_margin: 1,
        dwell_time_ms: 0,
        require_double_tap: true,
        double_tap_window_ms: 500,
        ..Default::default()
    };
    let mut detector = EdgeDetector::new(config, 1920, 1080);
    assert!(matches!(
        detector.check_at(0, 540, 1000 * MS),
        EdgeDetectResult::Dwelling { edge: ScreenEdge::Left, .. }
    ));
    assert!(matches!(detector.check_at(500, 540, 1100 * MS), EdgeDetectResult::NotAtEdge));
    assert_eq!(detector.current_edge(), None);
    match detector.check_at(0, 540, 1400 * MS) {
        EdgeDetectResult::Transition { edge, position } => {
            assert_eq!(edge, ScreenEdge::Left);
            assert_eq!(position, EdgePosition { numer: 540, denom: 1080 });
            assert_eq!(fraction(position), 0.5);
        }
        other => panic!("expected transition, got {:?}", other),
    }
    // The transition is reported once while the cursor stays, and the
    // edge is named for as long as it does.
    assert!(matches!(
        detector.check_at(0, 541, 1401 * MS),
        EdgeDetectResult::Dwelling { edge: ScreenEdge::Left, remaining_ms: 0 }
    ));
    assert!(matches!(
        detector.check_at(0, 542, 5000 * MS),
        EdgeDetectResult::Dwelling { edge: ScreenEdge::Left, remaining_ms: 0 }
    ));
    assert_eq!(detector.current_edge(), Some(ScreenEdge::Left));
}

#[test]
fn test_double_tap_too_slow() {
    let config = EdgeDetectorConfig {
        dwell_time_ms: 30,
        require_double_tap: true,
        double_tap_window_ms: 500,
        ..Default::default()
    };
    let mut detector = EdgeDetector::new(config, 1920, 1080);
    assert!(matches!(detector.check_at(0, 540, 0), EdgeDetectResult::Dwelling { .. }));
    assert!(matches!(detector.check_at(500, 540, 10 * MS), EdgeDetectResult::NotAtEdge));
    // 501 ms after the first touch began: outside the window.
    assert!(matches!(
        detector.check_at(0, 540, 501 * MS),
        EdgeDetectResult::Dwelling { remaining_ms: 30, .. }
    ));
    // 500 ms exactly is inside it.
    let mut detector = EdgeDetector::new(config, 1920, 1080);
    assert!(matches!(detector.check_at(0, 540, 0), EdgeDetectResult::Dwelling { .. }));
    assert!(matches!(detector.check_at(500, 540, 10 * MS), EdgeDetectResult::NotAtEdge));
    assert!(matches!(detector.check_at(0, 540, 500 * MS), EdgeDetectResult::Transition { .. }));
}

#[test]
fn test_edge_classification() {
    let mut detector = EdgeDetector::new(EdgeDetectorConfig::default(), 1920, 1080);
    let at = |detector: &mut EdgeDetector, x: i32, y: i32| {
        detector.reset();
        match detector.check_at(x, y, 0) {
            EdgeDetectResult::Transition { edge, .. } => Some(edge),
            EdgeDetectResult::NotAtEdge => None,
            other => panic!("unexpected {:?}", other),
        }
    };
    // margin 1: x <= 1 is left, x >= 1918 is right, y <= 1 top, y >= 1078 bottom
    assert_eq!(at(&mut detector, 1, 500), Some(ScreenEdge::Left));
    assert_eq!(at(&mut detector, 2, 500), None);
    assert_eq!(at(&mut detector, 1918, 500), Some(ScreenEdge::Right));
    assert_eq!(at(&mut detector, 1917, 500), None);
    assert_eq!(at(&mut detector, 500, 1), Some(ScreenEdge::Top));
    assert_eq!(at(&mut detector, 500, 2), None);
    assert_eq!(at(&mut detector, 500, 1078), Some(ScreenEdge::Bottom));
    assert_eq!(at(&mut detector, 500, 1077), None);
    // Corners: left before right before top before bottom.
    assert_eq!(at(&mut detector, 0, 0), Some(ScreenEdge::Left));
    assert_eq!(at(&mut detector, 0, 1079), Some(ScreenEdge::Left));
    assert_eq!(at(&mut detector, 1919, 0), Some(ScreenEdge::Right));
    assert_eq!(at(&mut detector, 1919, 1079), Some(ScreenEdge::Right));
    // Beyond the screen counts as at the edge.
    assert_eq!(at(&mut detector, -20, 500), Some(ScreenEdge::Left));
    assert_eq!(at(&mut detector, 5000, 500), Some(ScreenEdge::Right));
}

#[test]
fn test_corner_move_restarts_at_new_edge() {
    let config = EdgeDetectorConfig { dwell_time_ms: 100, ..Default::default() };
    let mut detector = EdgeDetector::new(config, 1920, 1080);
    assert!(matches!(
        detector.check_at(500, 0, 0),
        EdgeDetectResult::Dwelling { edge: ScreenEdge::Top, remaining_ms: 100 }
    ));
    // Along the top edge into the left edge: dwell starts again.
    assert!(matches!(
        detector.check_at(0, 0, 90 * MS),
        EdgeDetectResult::Dwelling { edge: ScreenEdge::Left, remaining_ms: 100 }
    ));
    assert_eq!(detector.current_edge(), Some(ScreenEdge::Left));
    assert!(matches!(
        detector.check_at(0, 0, 150 * MS),
        EdgeDetectResult::Dwelling { edge: ScreenEdge::Left, remaining_ms: 40 }
    ));
    assert!(matches!(
        detector.check_at(0, 0, 190 * MS),
        EdgeDetectResult::Transition { edge: ScreenEdge::Left, .. }
    ));
}

#[test]
fn test_reset_and_screen_size() {
    let mut detector = EdgeDetector::new(EdgeDetectorConfig::default(), 1920, 1080);
    assert!(matches!(detector.check_at(0, 500, 0), EdgeDetectResult::Transition { .. }));
    assert_eq!(detector.current_edge(), Some(ScreenEdge::Left));
    detector.reset();
    assert_eq!(detector.current_edge(), None);
    detector.set_screen_size(800, 600);
    assert_eq!(detector.screen_width(), 800);
    assert_eq!(detector.screen_height(), 600);
    match detector.check_at(799, 300, 0) {
        EdgeDetectResult::Transition { edge, position } => {
            assert_eq!(edge, ScreenEdge::Right);
            assert_eq!(position, EdgePosition { numer: 300, denom: 600 });
        }
        other => panic!("expected transition, got {:?}", other),
    }
}

#[test]
fn test_time_running_backwards_counts_as_no_time() {
    let config = EdgeDetectorConfig { dwell_time_ms: 100, ..Default::default() };
    let mut detector = EdgeDetector::new(config, 1920, 1080);
    assert!(matches!(detector.check_at(0, 500, 1000 * MS), EdgeDetectResult::Dwelling { .. }));
    assert!(matches!(
        detector.check_at(0, 500, 10 * MS),
        EdgeDetectResult::Dwelling { remaining_ms: 100, .. }
    ));
}

#[test]
fn test_opposite_edge() {
    assert_eq!(opposite_edge(ScreenEdge::Left), ScreenEdge::Right);
    assert_eq!(opposite_edge(ScreenEdge::Right), ScreenEdge::Left);
    assert_eq!(opposite_edge(ScreenEdge::Top), ScreenEdge::Bottom);
    assert_eq!(opposite_edge(ScreenEdge::Bottom), ScreenEdge::Top);
}

#[test]
fn test_normalize_edge_position() {
    assert_eq!(
        normalize_edge_position(ScreenEdge::Left, 0, 540, 1920, 1080),
        EdgePosition { numer: 540, denom: 1080 }
    );
    assert_eq!(
        normalize_edge_position(ScreenEdge::Right, 1919, 270, 1920, 1080),
        EdgePosition { numer: 270, denom: 1080 }
    );
    assert_eq!(
        normalize_edge_position(ScreenEdge::Top, 480, 0, 1920, 1080),
        EdgePosition { numer: 480, denom: 1920 }
    );
    assert_eq!(
        normalize_edge_position(ScreenEdge::Bottom, 960, 1079, 1920, 1080),
        EdgePosition { numer: 960, denom: 1920 }
    );
    // Held to the range from 0 to 1.
    assert_eq!(
        normalize_edge_position(ScreenEdge::Left, 0, -5, 1920, 1080),
        EdgePosition { numer: 0, denom: 1080 }
    );
    assert_eq!(
        normalize_edge_position(ScreenEdge::Left, 0, 2000, 1920, 1080),
        EdgePosition { numer: 1080, denom: 1080 }
    );
    // A screen without pixels.
    assert_eq!(
        normalize_edge_position(ScreenEdge::Left, 0, 7, 0, 0),
        EdgePosition { numer: 1, denom: 1 }
    );
    assert_eq!(
        normalize_edge_position(ScreenEdge::Top, 0, 7, 0, 0),
        EdgePosition { numer: 0, denom: 1 }
    );
}

#[test]
fn test_denormalize_edge_position() {
    let half = EdgePosition { numer: 1, denom: 2 };
    assert_eq!(denormalize_edge_position(ScreenEdge::Left, half, 1920, 1080), (0, 540));
    assert_eq!(denormalize_edge_position(ScreenEdge::Right, half, 1920, 1080), (1919, 540));
    assert_eq!(denormalize_edge_position(ScreenEdge::Top, half, 1920, 1080), (960, 0));
    assert_eq!(denormalize_edge_position(ScreenEdge::Bottom, half, 1920, 1080), (960, 1079));
    let third = EdgePosition { numer: 1, denom: 3 };
    assert_eq!(denormalize_edge_position(ScreenEdge::Left, third, 1920, 1000), (0, 333));
    // Onto a screen of another size.
    let from_small = normalize_edge_position(ScreenEdge::Right, 799, 150, 800, 600);
    assert_eq!(denormalize_edge_position(ScreenEdge::Left, from_small, 2560, 1600), (0, 400));
    // Degenerate fractions.
    assert_eq!(
        denormalize_edge_position(ScreenEdge::Left, EdgePosition { numer: 5, denom: 0 }, 1920, 1080),
        (0, 0)
    );
    assert_eq!(
        denormalize_edge_position(ScreenEdge::Left, EdgePosition { numer: 9, denom: 3 }, 1920, 1080),
        (0, 1080)
    );
    assert_eq!(
        denormalize_edge_position(ScreenEdge::Right, EdgePosition { numer: 0, denom: 1 }, 0, 0),
        (0, 0)
    );
    assert_eq!(
        denormalize_edge_position(
            ScreenEdge::Bottom,
            EdgePosition { numer: 1, denom: 1 },
            u32::MAX,
            u32::MAX
        ),
        (i32::MAX, i32::MAX)
    );
}

#[test]
fn test_normalize_then_denormalize_returns_the_pixel() {
    let (width, height) = (1920u32, 1080u32);
    for edge in [ScreenEdge::Left, ScreenEdge::Right, ScreenEdge::Top, ScreenEdge::Bottom] {
        for (x, y) in [(0, 0), (1, 1), (500, 333), (1919, 1079), (960, 540), (7, 1078)] {
            let position = normalize_edge_position(edge, x, y, width, height);
            let at = denormalize_edge_position(edge, position, width, height);
            let expected = match edge {
                ScreenEdge::Left => (0, y),
                ScreenEdge::Right => (1919, y),
                ScreenEdge::Top => (x, 0),
                ScreenEdge::Bottom => (x, 1079),
            };
            assert_eq!(at, expected);
        }
    }
}

#[test]
fn test_transition_is_reported_once_per_stay() {
    let mut detector = EdgeDetector::new(EdgeDetectorConfig::default(), 1920, 1080);
    assert!(matches!(detector.check_at(0, 500, 0), EdgeDetectResult::Transition { .. }));
    // The cursor stays: the edge is named, the transition is not repeated.
    for step in 1..20u128 {
        assert!(matches!(
            detector.check_at(0, 500 + step as i32, step * MS),
            EdgeDetectResult::Dwelling { edge: ScreenEdge::Left, remaining_ms: 0 }
        ));
        assert_eq!(detector.current_edge(), Some(ScreenEdge::Left));
    }
    // Leaving ends the stay; the next one has a transition of its own.
    assert!(matches!(detector.check_at(700, 500, 30 * MS), EdgeDetectResult::NotAtEdge));
    assert_eq!(detector.current_edge(), None);
    assert!(matches!(detector.check_at(700, 500, 31 * MS), EdgeDetectResult::NotAtEdge));
    assert!(matches!(detector.check_at(0, 500, 32 * MS), EdgeDetectResult::Transition { .. }));
    assert!(matches!(detector.check_at(0, 500, 33 * MS), EdgeDetectResult::Dwelling { .. }));
    // So does a reset.
    detector.reset();
    assert!(matches!(detector.check_at(0, 500, 34 * MS), EdgeDetectResult::Transition { .. }));
    // And so does moving straight to another edge.
    assert!(matches!(
        detector.check_at(0, 0, 35 * MS),
        EdgeDetectResult::Dwelling { edge: ScreenEdge::Left, .. }
    ));
    assert!(matches!(
        detector.check_at(1919, 500, 36 * MS),
        EdgeDetectResult::Transition { edge: ScreenEdge::Right, .. }
    ));
    assert!(matches!(
        detector.check_at(1919, 500, 37 * MS),
        EdgeDetectResult::Dwelling { edge: ScreenEdge::Right, remaining_ms: 0 }
    ));
}

#[test]
fn test_dwell_transition_is_reported_once() {
    let config = EdgeDetectorConfig { dwell_time_ms: 100, ..Default::default() };
    let mut detector = EdgeDetector::new(config, 1920, 1080);
    let mut transitions = 0;
    for step in 0..50u128 {
        match detector.check_at(1919, 300, step * 10 * MS) {
            EdgeDetectResult::Transition { edge, .. } => {
                assert_eq!(edge, ScreenEdge::Right);
                assert_eq!(step, 10);
                transitions += 1;
            }
            EdgeDetectResult::Dwelling { edge, remaining_ms } => {
                assert_eq!(edge, ScreenEdge::Right);
                let expected = if step < 10 { 100 - step as u64 * 10 } else { 0 };
                assert_eq!(remaining_ms, expected);
            }
            EdgeDetectResult::NotAtEdge => panic!("the cursor is at the right edge"),
        }
        assert_eq!(detector.current_edge(), Some(ScreenEdge::Right));
    }
    assert_eq!(transitions, 1);
}
