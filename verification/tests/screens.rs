use dictation_indicator::indicator::MetalIndicator;
use dictation_indicator::screen::{
    choose_screen, out_of_place, place_operands, screen_label, Placement, Point, Screen,
    ScreenBounds, VisibleFrame,
};

fn point(x: f64, y: f64) -> Point {
    Point { x: x.to_bits(), y: y.to_bits() }
}

fn screen(name: &str, left: f64, bottom: f64, width: f64, height: f64, drift: Point) -> Screen {
    Screen {
        name: name.to_string(),
        bounds: ScreenBounds {
            left: left.to_bits(),
            right: (left + width).to_bits(),
            bottom: bottom.to_bits(),
            top: (bottom + height).to_bits(),
        },
        drift,
    }
}

fn desk() -> Vec<Screen> {
    vec![
        screen("Built-in", 0.0, 0.0, 1440.0, 900.0, point(0.0, 0.2)),
        screen("Studio", -2560.0, -100.0, 2560.0, 1440.0, point(0.0, -3.0)),
    ]
}

#[test]
fn the_window_follows_the_pointer() {
    let screens = desk();
    assert_eq!(choose_screen(&point(10.0, 10.0), &screens), Some(0));
    assert_eq!(choose_screen(&point(-0.5, -50.0), &screens), Some(1));
    assert_eq!(choose_screen(&point(-2560.0, -100.0), &screens), Some(1));
    assert_eq!(choose_screen(&point(0.0, 0.0), &screens), Some(0));
    assert_eq!(choose_screen(&point(1440.0, 10.0), &screens), Some(0));
    assert_eq!(choose_screen(&point(f64::NAN, 10.0), &screens), Some(0));
    assert_eq!(choose_screen(&point(1.0, 1.0), &Vec::new()), None);
}

#[test]
fn the_window_moves_only_when_out_of_place() {
    assert!(!out_of_place(&point(0.5, -0.5)));
    assert!(out_of_place(&point(0.500_1, 0.0)));
    assert!(out_of_place(&point(0.0, -0.6)));
    assert!(!out_of_place(&point(f64::NAN, 0.0)));
}

#[test]
fn the_place_is_centred_below_the_top() {
    let visible = VisibleFrame {
        left: 100.0_f64.to_bits(),
        bottom: 40.0_f64.to_bits(),
        width: 1440.0_f64.to_bits(),
        height: 835.0_f64.to_bits(),
    };
    let operands = place_operands(&visible);
    assert_eq!(operands.visible, visible);
    assert_eq!(f64::from_bits(operands.window_width), 112.0);
    assert_eq!(f64::from_bits(operands.capsule_margin), 24.0);
    assert_eq!(f64::from_bits(operands.top_offset), 12.0);
}

#[test]
fn labels_name_the_screen_and_its_place() {
    assert_eq!(screen_label("Studio", 0), "Studio (0)");
    assert_ne!(screen_label("A", 12), screen_label("A (1", 2));
    assert_ne!(screen_label("A", 1), screen_label("B", 1));
    assert_eq!(screen_label("", 1_234_567_890), " (1234567890)");
    assert_eq!(
        screen_label("A (1)", usize::MAX),
        format!("{} ({})", "A (1)", usize::MAX)
    );
}

#[test]
fn a_change_of_screens_is_reported() {
    let mut indicator = MetalIndicator::new();
    let screens = desk();
    let left = point(-5.0, 5.0);
    assert_eq!(
        indicator.position_on_pointer_screen(&left, &screens),
        Some(Placement { screen: 1, report: true, move_window: true })
    );
    assert_eq!(indicator.screen_label.as_deref(), Some("Studio (1)"));
    assert_eq!(
        indicator.position_on_pointer_screen(&left, &screens),
        Some(Placement { screen: 1, report: false, move_window: true })
    );
    assert_eq!(
        indicator.position_on_pointer_screen(&point(5.0, 5.0), &screens),
        Some(Placement { screen: 0, report: true, move_window: false })
    );
    assert_eq!(indicator.position_on_pointer_screen(&left, &Vec::new()), None);
    assert_eq!(indicator.screen_label.as_deref(), Some("Built-in (0)"));
}
