use led_effects::color::Color;
use led_effects::domain::{Blend, Domain, Stroke, Target};
use led_effects::error::EffectError;
use led_effects::geometry::Point;
use spatial_led::Sled;

fn square() -> Sled {
    Sled::new_from_str(
        "center: (0, 0)\ndensity: 4\n--segments--\n(-1, -1) --> (1, -1) --> (1, 1) --> (-1, 1) --> (-1, -1)",
    )
    .unwrap()
}

fn stroke(blend: Blend, color: Color) -> Stroke {
    Stroke { target: Target::Angle { microradians: 0 }, blend, color }
}

#[test]
fn a_new_domain_is_dark_and_as_long_as_its_layout() {
    let layout = square();
    let n = layout.num_leds();
    assert!(n > 0);
    let domain = Domain::new(layout, Point::new(0, 0)).unwrap();
    assert_eq!(domain.len(), n);
    assert_eq!(domain.colors().len(), n);
    assert!(domain.colors().iter().all(|c| *c == Color::black()));
    assert_eq!(domain.center(), Point::new(0, 0));
    assert_eq!(domain.layout().num_leds(), n);
}

#[test]
fn a_longer_layout_gives_a_longer_domain() {
    let short = Sled::new_from_str("center: (0, 0)\ndensity: 4\n--segments--\n(0, 0) --> (1, 0)").unwrap();
    let long = Sled::new_from_str("center: (0, 0)\ndensity: 4\n--segments--\n(0, 0) --> (5, 0)").unwrap();
    let a = Domain::new(short, Point::new(0, 0)).unwrap();
    let b = Domain::new(long, Point::new(0, 0)).unwrap();
    assert_eq!(a.len(), 4);
    assert_eq!(b.len(), 20);
}

#[test]
fn a_centre_outside_the_field_is_refused() {
    assert!(Domain::new(square(), Point::new(1_000_000_001, 0)).is_none());
    assert!(Domain::new(square(), Point::new(0, i32::MIN)).is_none());
    assert!(Domain::new(square(), Point::new(-1_000_000_000, 1_000_000_000)).is_some());
}

#[test]
fn paint_adds_or_replaces_in_the_order_given() {
    let mut domain = Domain::new(square(), Point::new(0, 0)).unwrap();
    let red = Color::new(100, 0, 0);
    let blue = Color::new(0, 0, 7);
    assert_eq!(domain.paint(&stroke(Blend::Add, red), &vec![0, 2, 0]), Ok(()));
    assert_eq!(domain.colors()[0], Color::new(200, 0, 0));
    assert_eq!(domain.colors()[1], Color::black());
    assert_eq!(domain.colors()[2], Color::new(100, 0, 0));
    assert_eq!(domain.paint(&stroke(Blend::Add, blue), &vec![2]), Ok(()));
    assert_eq!(domain.colors()[2], Color::new(100, 0, 7));
    assert_eq!(domain.paint(&stroke(Blend::Replace, blue), &vec![0, 0]), Ok(()));
    assert_eq!(domain.colors()[0], blue);
    assert_eq!(domain.paint(&stroke(Blend::Replace, red), &vec![]), Ok(()));
    assert_eq!(domain.colors()[0], blue);
}

#[test]
fn paint_with_an_index_past_the_end_paints_nothing() {
    let mut domain = Domain::new(square(), Point::new(0, 0)).unwrap();
    let n = domain.len();
    let red = Color::new(100, 0, 0);
    assert_eq!(
        domain.paint(&stroke(Blend::Add, red), &vec![0, 1, n]),
        Err(EffectError::IndexOutOfRange)
    );
    assert!(domain.colors().iter().all(|c| *c == Color::black()));
    assert_eq!(domain.paint(&stroke(Blend::Add, red), &vec![n - 1]), Ok(()));
    assert_eq!(domain.colors()[n - 1], red);
}

#[test]
fn decay_fades_every_led() {
    let mut domain = Domain::new(square(), Point::new(0, 0)).unwrap();
    let n = domain.len();
    let all: Vec<usize> = (0..n).collect();
    domain.paint(&stroke(Blend::Replace, Color::new(1_000_000, 1_000, 10)), &all).unwrap();
    domain.decay(980);
    assert!(domain.colors().iter().all(|c| *c == Color::new(980_000, 980, 9)));
    assert_eq!(domain.len(), n);
    domain.decay(0);
    assert!(domain.colors().iter().all(|c| *c == Color::black()));
}

#[test]
fn frame_gives_one_triple_per_led_in_order() {
    let mut domain = Domain::new(square(), Point::new(0, 0)).unwrap();
    let n = domain.len();
    domain.paint(&stroke(Blend::Replace, Color::new(1_000_000, 500_000, 0)), &vec![1]).unwrap();
    domain.paint(&stroke(Blend::Replace, Color::new(0, 0, 2_000_000)), &vec![n - 1]).unwrap();
    let frame = domain.frame();
    assert_eq!(frame.len(), n);
    assert_eq!(frame[0], (0, 0, 0));
    assert_eq!(frame[1], (255, 127, 0));
    assert_eq!(frame[n - 1], (0, 0, 255));
}

#[test]
fn mix_follows_the_blend() {
    let under = Color::new(5, 6, 7);
    let over = Color::new(1, 1, 1);
    assert_eq!(stroke(Blend::Add, over).mix(&under), Color::new(6, 7, 8));
    assert_eq!(stroke(Blend::Replace, over).mix(&under), over);
}
