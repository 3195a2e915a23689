use led_effects::color::Color;
use led_effects::geometry::Point;

#[test]
fn fade_multiplies_and_rounds_down() {
    let c = Color::new(1_000_000, 500_000, 3);
    assert_eq!(c.fade(980), Color::new(980_000, 490_000, 2));
    assert_eq!(c.fade(0), Color::new(0, 0, 0));
    assert_eq!(c.fade(1000), c);
    assert_eq!(c.fade(5000), c);
    assert_eq!(Color::new(u32::MAX, 1, 0).fade(999), Color::new(4_290_672_327, 0, 0));
}

#[test]
fn repeated_fading_falls_to_black_and_never_rises() {
    let start = Color::new(1_000_000, 710_000, 705_000);
    let mut c = start;
    let mut steps = 0;
    while c != Color::black() {
        let next = c.fade(980);
        assert!(next.red <= c.red && next.green <= c.green && next.blue <= c.blue);
        assert!(next.red <= start.red && next.green <= start.green && next.blue <= start.blue);
        assert!(next != c);
        c = next;
        steps += 1;
        assert!(steps <= 1_000_000);
    }
    assert_eq!(c.fade(980), Color::black());
    assert!(steps > 100);
}

#[test]
fn one_fade_of_the_trail_factor() {
    assert_eq!(Color::new(1_000_000, 1_000_000, 1_000_000).fade(980).fade(980), Color::new(960_400, 960_400, 960_400));
}

#[test]
fn brighten_adds_and_saturates() {
    let a = Color::new(1, 2, 3);
    let b = Color::new(10, 20, 30);
    assert_eq!(a.brighten(&b), Color::new(11, 22, 33));
    assert_eq!(
        Color::new(u32::MAX, u32::MAX - 1, 0).brighten(&Color::new(1, 5, 0)),
        Color::new(u32::MAX, u32::MAX, 0)
    );
}

#[test]
fn thin_divides_by_the_squared_distance() {
    let c = Color::new(1_000_000, 500_000, 0);
    // ten layout units away: a hundredth of the colour
    let ten_units_squared: u128 = 10_000_000u128 * 10_000_000u128;
    assert_eq!(c.thin(ten_units_squared), Color::new(10_000, 5_000, 0));
    // one layout unit away: the colour itself
    assert_eq!(c.thin(1_000_000_000_000), c);
    // half a unit away: four times the colour
    assert_eq!(c.thin(250_000_000_000), Color::new(4_000_000, 2_000_000, 0));
    // on the centre a lit channel saturates and a dark one stays dark
    assert_eq!(c.thin(0), Color::new(u32::MAX, u32::MAX, 0));
    // very near the centre it saturates too
    assert_eq!(c.thin(1), Color::new(u32::MAX, u32::MAX, 0));
    // far away nothing is left
    assert_eq!(c.thin(u128::MAX), Color::new(0, 0, 0));
}

#[test]
fn to_bytes_scales_and_clips() {
    assert_eq!(Color::new(0, 500_000, 1_000_000).to_bytes(), (0, 127, 255));
    assert_eq!(Color::new(999_999, 3_921, 3_922).to_bytes(), (254, 0, 1));
    assert_eq!(Color::new(u32::MAX, 1_000_001, 1).to_bytes(), (255, 255, 0));
    assert_eq!(Color::black().to_bytes(), (0, 0, 0));
}

#[test]
fn offset_from_spans_the_whole_range() {
    let a = Point::new(i32::MAX, i32::MIN);
    let b = Point::new(i32::MIN, i32::MAX);
    assert_eq!(a.offset_from(&b), (4_294_967_295, -4_294_967_295));
    assert_eq!(Point::new(3, 4).offset_from(&Point::new(1, 1)), (2, 3));
}

#[test]
fn the_field_ends_at_a_thousand_units() {
    assert!(Point::new(1_000_000_000, -1_000_000_000).is_in_field());
    assert!(!Point::new(1_000_000_001, 0).is_in_field());
    assert!(!Point::new(0, -1_000_000_001).is_in_field());
    assert!(Point::new(0, 0).is_in_field());
}
