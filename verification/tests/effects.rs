use led_effects::buffers::{Buffer, BufferStore, ElementType, Item};
use led_effects::color::Color;
use led_effects::comet;
use led_effects::domain::{Blend, Domain, Stroke, Target};
use led_effects::effect::Effect;
use led_effects::error::EffectError;
use led_effects::filters::Filters;
use led_effects::geometry::Point;
use led_effects::ripples;
use led_effects::timing::TimeInfo;
use led_effects::warpspeed;
use spatial_led::Sled;

fn domain_at(center: Point) -> Domain {
    let layout = Sled::new_from_str(
        "center: (0, 0)\ndensity: 4\n--segments--\n(-1, -1) --> (1, -1) --> (1, 1) --> (-1, 1) --> (-1, -1)",
    )
    .unwrap();
    Domain::new(layout, center).unwrap()
}

fn stars_of(store: &BufferStore) -> Vec<Point> {
    match store.get_buffer("stars", ElementType::Point).unwrap() {
        Buffer::Points(v) => v.clone(),
        _ => panic!("a points buffer is expected"),
    }
}

fn in_spawn_range(center: Point, p: Point) -> bool {
    let dx = (p.x as i64 - center.x as i64).abs();
    let dy = p.y as i64 - center.y as i64;
    (850_000..15_000_000).contains(&dx) && (40_000_000..250_000_000).contains(&dy)
}

fn tick(delta: u64) -> TimeInfo {
    TimeInfo { elapsed: delta, delta }
}

#[test]
fn as_str_names_each_effect() {
    assert_eq!(Effect::Comet.as_str(), "Comet");
    assert_eq!(Effect::Ripples.as_str(), "Ripples");
    assert_eq!(Effect::Warpspeed.as_str(), "Warpspeed");
}

#[test]
fn effects_are_listed_in_a_fixed_order() {
    assert_eq!(Effect::at(0), Effect::Comet);
    assert_eq!(Effect::at(1), Effect::Ripples);
    assert_eq!(Effect::at(2), Effect::Warpspeed);
    assert_eq!(Effect::at(3), Effect::Comet);
    assert_eq!(Effect::at(usize::MAX), Effect::Comet);
    for i in 0..3 {
        assert_eq!(Effect::at(i).index(), i);
    }
}

#[test]
fn spawn_location_places_the_star_beside_and_above_the_centre() {
    let center = Point::new(1_000, -2_000);
    assert_eq!(
        warpspeed::spawn_location(center, true, 850_000, 40_000_000),
        Point::new(851_000, 39_998_000)
    );
    assert_eq!(
        warpspeed::spawn_location(center, false, 850_000, 40_000_000),
        Point::new(-849_000, 39_998_000)
    );
    assert_eq!(
        warpspeed::spawn_location(center, false, 14_999_999, 249_999_999),
        Point::new(-14_998_999, 249_997_999)
    );
    let far = Point::new(1_000_000_000, 1_000_000_000);
    assert_eq!(
        warpspeed::spawn_location(far, true, 14_999_999, 249_999_999),
        Point::new(1_014_999_999, 1_249_999_999)
    );
}

#[test]
fn random_spawn_location_stays_in_range_and_takes_both_sides() {
    let center = Point::new(-5_000_000, 7_000_000);
    let mut rng = rand::thread_rng();
    let mut right = 0;
    let mut left = 0;
    let mut offsets = std::collections::BTreeSet::new();
    for _ in 0..4000 {
        let p = warpspeed::random_spawn_location(&mut rng, center);
        assert!(in_spawn_range(center, p), "{:?}", p);
        if p.x > center.x {
            right += 1;
        } else {
            left += 1;
        }
        offsets.insert((p.x, p.y));
    }
    // an even chance: far fewer than a quarter on one side does not happen
    assert!(right > 1000 && left > 1000, "{} right, {} left", right, left);
    assert!(offsets.len() > 3000);
}

#[test]
fn warpspeed_startup_creates_the_field_and_the_palette() {
    let center = Point::new(0, 500_000);
    let mut store = BufferStore::new();
    assert_eq!(warpspeed::startup(center, &mut store), Ok(()));
    assert_eq!(store.len(), 2);
    let stars = stars_of(&store);
    assert_eq!(stars.len(), 5000);
    assert!(stars.iter().all(|p| in_spawn_range(center, *p)));
    assert!(stars.iter().any(|p| p.x > center.x));
    assert!(stars.iter().any(|p| p.x < center.x));
    let palette = store.get_buffer("colors", ElementType::Color).unwrap();
    assert_eq!(palette.len(), 10);
    assert_eq!(
        store.get_buffer_item("colors", ElementType::Color, 0),
        Ok(Item::Color(Color::new(150_000, 500_000, 1_000_000)))
    );
    assert_eq!(
        store.get_buffer_item("colors", ElementType::Color, 3),
        Ok(Item::Color(Color::new(700_000, 0, 600_000)))
    );
    assert_eq!(
        store.get_buffer_item("colors", ElementType::Color, 9),
        Ok(Item::Color(Color::new(1_000_000, 710_000, 705_000)))
    );
}

#[test]
fn warpspeed_startup_refuses_an_existing_buffer() {
    let center = Point::new(0, 0);
    let mut store = BufferStore::new();
    store.create_buffer("colors", ElementType::Scalar).unwrap();
    assert_eq!(warpspeed::startup(center, &mut store), Err(EffectError::DuplicateBuffer));
    assert_eq!(store.len(), 1);
    assert!(!store.contains("stars"));
    let mut again = BufferStore::new();
    assert_eq!(warpspeed::startup(center, &mut again), Ok(()));
    assert_eq!(warpspeed::startup(center, &mut again), Err(EffectError::DuplicateBuffer));
    assert_eq!(again.len(), 2);
}

#[test]
fn warpspeed_compute_lets_stars_fall() {
    let center = Point::new(0, 0);
    let mut store = BufferStore::new();
    store.create_buffer("stars", ElementType::Point).unwrap();
    {
        let stars = store.get_points_mut("stars").unwrap();
        stars.push(Point::new(3_000_000, 100_000_000));
        stars.push(Point::new(-4_000_000, -49_988_000));
        stars.push(Point::new(5, -49_987_999));
    }
    // four milliseconds at three units a second: twelve thousandths of a unit
    assert_eq!(warpspeed::compute(center, &mut store, &tick(4_000_000)), Ok(()));
    let stars = stars_of(&store);
    assert_eq!(stars.len(), 3);
    assert_eq!(stars[0], Point::new(3_000_000, 99_988_000));
    // exactly on the floor: the star stays
    assert_eq!(stars[1], Point::new(-4_000_000, -50_000_000));
    assert_eq!(stars[2], Point::new(5, -49_999_999));
}

#[test]
fn warpspeed_compute_replaces_fallen_stars_in_place() {
    let center = Point::new(2_000_000, -1_000_000);
    let mut store = BufferStore::new();
    store.create_buffer("stars", ElementType::Point).unwrap();
    {
        let stars = store.get_points_mut("stars").unwrap();
        stars.push(Point::new(1, -49_999_000));
        stars.push(Point::new(7_000_000, 60_000_000));
        stars.push(Point::new(2, i32::MIN));
    }
    assert_eq!(warpspeed::compute(center, &mut store, &tick(1_000_000)), Ok(()));
    let stars = stars_of(&store);
    assert_eq!(stars.len(), 3);
    assert!(in_spawn_range(center, stars[0]), "{:?}", stars[0]);
    assert_eq!(stars[1], Point::new(7_000_000, 59_997_000));
    assert!(in_spawn_range(center, stars[2]), "{:?}", stars[2]);
}

#[test]
fn warpspeed_compute_without_time_moves_nothing() {
    let center = Point::new(0, 0);
    let mut store = BufferStore::new();
    warpspeed::startup(center, &mut store).unwrap();
    let before = stars_of(&store);
    assert_eq!(warpspeed::compute(center, &mut store, &tick(0)), Ok(()));
    assert_eq!(stars_of(&store), before);
    assert_eq!(warpspeed::compute(center, &mut store, &tick(999)), Ok(()));
    assert_eq!(
        stars_of(&store),
        before.iter().map(|p| Point::new(p.x, p.y - 2)).collect::<Vec<Point>>()
    );
}

#[test]
fn warpspeed_compute_needs_its_field() {
    let center = Point::new(0, 0);
    let mut store = BufferStore::new();
    assert_eq!(
        warpspeed::compute(center, &mut store, &tick(1)),
        Err(EffectError::MissingBuffer)
    );
    store.create_buffer("stars", ElementType::Color).unwrap();
    assert_eq!(
        warpspeed::compute(center, &mut store, &tick(1)),
        Err(EffectError::TypeMismatch)
    );
    assert_eq!(store.len(), 1);
}

#[test]
fn fallen_tells_a_star_in_the_field_from_one_below_it() {
    assert_eq!(warpspeed::fallen(Point::new(9, 0), 300_000_000), None);
    assert_eq!(warpspeed::fallen(Point::new(9, 0), 50_000_000), Some(Point::new(9, -50_000_000)));
    assert_eq!(warpspeed::fallen(Point::new(9, 0), 50_000_001), None);
    assert_eq!(warpspeed::fallen(Point::new(9, i32::MAX), 0), Some(Point::new(9, i32::MAX)));
}

#[test]
fn warpspeed_draw_fades_and_gives_one_stroke_per_star() {
    let center = Point::new(1_000_000, 0);
    let mut domain = domain_at(center);
    let n = domain.len();
    let all: Vec<usize> = (0..n).collect();
    let white = Stroke {
        target: Target::Angle { microradians: 0 },
        blend: Blend::Replace,
        color: Color::new(1_000_000, 1_000_000, 1_000_000),
    };
    domain.paint(&white, &all).unwrap();
    let mut store = BufferStore::new();
    warpspeed::startup(center, &mut store).unwrap();
    {
        let stars = store.get_points_mut("stars").unwrap();
        stars.clear();
        for _ in 0..10 {
            stars.push(Point::new(1_000_000, 10_000_000));
        }
        stars.push(Point::new(4_000_000, -4_000_000));
    }
    let strokes = warpspeed::draw(&mut domain, &store).unwrap();
    assert!(domain.colors().iter().all(|c| *c == Color::new(980_000, 980_000, 980_000)));
    assert_eq!(strokes.len(), 11);
    // ten units above the centre: a hundredth of the first palette colour
    assert_eq!(
        strokes[0],
        Stroke {
            target: Target::Direction { dx: 0, dy: 10_000_000 },
            blend: Blend::Add,
            color: Color::new(1_500, 5_000, 10_000),
        }
    );
    assert_eq!(strokes[9].color, Color::new(10_000, 7_100, 7_050));
    // the eleventh star takes the first colour again; it is five units away
    assert_eq!(
        strokes[10],
        Stroke {
            target: Target::Direction { dx: 3_000_000, dy: -4_000_000 },
            blend: Blend::Add,
            color: Color::new(6_000, 20_000, 40_000),
        }
    );
}

#[test]
fn warpspeed_draw_needs_field_and_palette() {
    let center = Point::new(0, 0);
    let mut domain = domain_at(center);
    let lit = Stroke {
        target: Target::Angle { microradians: 0 },
        blend: Blend::Replace,
        color: Color::new(1_000, 1_000, 1_000),
    };
    domain.paint(&lit, &vec![0]).unwrap();
    let mut store = BufferStore::new();
    assert_eq!(warpspeed::draw(&mut domain, &store).err(), Some(EffectError::MissingBuffer));
    assert_eq!(domain.colors()[0], Color::new(1_000, 1_000, 1_000));
    store.create_buffer("stars", ElementType::Point).unwrap();
    // an empty field asks for no colour
    assert_eq!(warpspeed::draw(&mut domain, &store).unwrap().len(), 0);
    assert_eq!(domain.colors()[0], Color::new(980, 980, 980));
    store.get_points_mut("stars").unwrap().push(Point::new(1, 1));
    assert_eq!(warpspeed::draw(&mut domain, &store).err(), Some(EffectError::MissingBuffer));
    store.create_buffer("colors", ElementType::Color).unwrap();
    assert_eq!(warpspeed::draw(&mut domain, &store).err(), Some(EffectError::IndexOutOfRange));
    store.get_colors_mut("colors").unwrap().push(Color::new(1, 1, 1));
    assert_eq!(warpspeed::draw(&mut domain, &store).unwrap().len(), 1);
    store.get_points_mut("stars").unwrap().push(Point::new(2, 2));
    assert_eq!(warpspeed::draw(&mut domain, &store).err(), Some(EffectError::IndexOutOfRange));
}

#[test]
fn a_star_on_the_centre_saturates() {
    let center = Point::new(0, 0);
    let mut domain = domain_at(center);
    let mut store = BufferStore::new();
    store.create_buffer("stars", ElementType::Point).unwrap();
    store.create_buffer("colors", ElementType::Color).unwrap();
    store.get_points_mut("stars").unwrap().push(Point::new(0, 0));
    store.get_colors_mut("colors").unwrap().push(Color::new(0, 1, 1_000_000));
    let strokes = warpspeed::draw(&mut domain, &store).unwrap();
    assert_eq!(strokes[0].color, Color::new(0, u32::MAX, u32::MAX));
    assert_eq!(strokes[0].target, Target::Direction { dx: 0, dy: 0 });
}

#[test]
fn comet_wraps_angles_into_one_turn() {
    assert_eq!(comet::wrap(0), 0);
    assert_eq!(comet::wrap(6_283_184), 6_283_184);
    assert_eq!(comet::wrap(6_283_185), 0);
    assert_eq!(comet::wrap(-1), 6_283_184);
    assert_eq!(comet::wrap(-6_283_185), 0);
    assert_eq!(comet::wrap(-6_283_186), 6_283_184);
    assert_eq!(comet::wrap(i64::MIN), 2_518_672);
    assert_eq!(comet::wrap(i64::MAX), 3_764_512);
}

#[test]
fn comet_turns_two_radians_a_second() {
    assert_eq!(comet::turn(0, 1_000_000_000), 2_000_000);
    assert_eq!(comet::turn(0, 499), 0);
    assert_eq!(comet::turn(0, 500), 1);
    assert_eq!(comet::turn(6_000_000, 250_000_000), 216_815);
    assert_eq!(comet::turn(-1, 500), 0);
    assert_eq!(comet::turn(5, u64::MAX), 3_960_903);
}

#[test]
fn comet_startup_compute_and_draw() {
    let mut store = BufferStore::new();
    assert_eq!(comet::startup(&mut store), Ok(()));
    assert_eq!(store.get_buffer_item("progress", ElementType::Scalar, 0), Ok(Item::Scalar(0)));
    assert_eq!(store.get_buffer("progress", ElementType::Scalar).unwrap().len(), 1);
    assert_eq!(comet::startup(&mut store), Err(EffectError::DuplicateBuffer));
    assert_eq!(comet::compute(&mut store, &tick(50_000_000)), Ok(()));
    assert_eq!(
        store.get_buffer_item("progress", ElementType::Scalar, 0),
        Ok(Item::Scalar(100_000))
    );
    assert_eq!(comet::compute(&mut store, &tick(100_000_000)), Ok(()));
    assert_eq!(
        store.get_buffer_item("progress", ElementType::Scalar, 0),
        Ok(Item::Scalar(300_000))
    );
    let mut domain = domain_at(Point::new(0, 0));
    let lit = Stroke {
        target: Target::Angle { microradians: 0 },
        blend: Blend::Replace,
        color: Color::new(500, 500, 500),
    };
    domain.paint(&lit, &vec![3]).unwrap();
    let strokes = comet::draw(&mut domain, &store).unwrap();
    assert_eq!(
        strokes,
        vec![Stroke {
            target: Target::Angle { microradians: 300_000 },
            blend: Blend::Replace,
            color: Color::new(1_000_000, 1_000_000, 1_000_000),
        }]
    );
    assert_eq!(domain.colors()[3], Color::new(490, 490, 490));
}

#[test]
fn comet_needs_its_progress() {
    let mut store = BufferStore::new();
    let mut domain = domain_at(Point::new(0, 0));
    assert_eq!(comet::compute(&mut store, &tick(1)), Err(EffectError::MissingBuffer));
    assert_eq!(comet::draw(&mut domain, &store).err(), Some(EffectError::MissingBuffer));
    store.create_buffer("progress", ElementType::Scalar).unwrap();
    assert_eq!(comet::compute(&mut store, &tick(1)), Err(EffectError::IndexOutOfRange));
    assert_eq!(comet::draw(&mut domain, &store).err(), Some(EffectError::IndexOutOfRange));
    let mut other = BufferStore::new();
    other.create_buffer("progress", ElementType::Point).unwrap();
    assert_eq!(comet::compute(&mut other, &tick(1)), Err(EffectError::TypeMismatch));
    assert_eq!(comet::draw(&mut domain, &other).err(), Some(EffectError::TypeMismatch));
}

#[test]
fn ripples_ring_runs_outwards_and_starts_over() {
    assert_eq!(ripples::radius_at(0), 0);
    // two units a second
    assert_eq!(ripples::radius_at(1_000_000_000), 2_000_000);
    assert_eq!(ripples::radius_at(2_499_999_999), 4_999_999);
    assert_eq!(ripples::radius_at(2_500_000_000), 0);
    assert_eq!(ripples::radius_at(3_000_000_000), 1_000_000);
    assert_eq!(ripples::radius_at(u64::MAX), 2_419_103);
}

#[test]
fn ripples_draw_fades_and_paints_the_ring() {
    let mut domain = domain_at(Point::new(0, 0));
    let lit = Stroke {
        target: Target::Angle { microradians: 0 },
        blend: Blend::Replace,
        color: Color::new(1_000, 100, 10),
    };
    domain.paint(&lit, &vec![0]).unwrap();
    let strokes = ripples::draw(&mut domain, &TimeInfo { elapsed: 500_000_000, delta: 7 });
    assert_eq!(
        strokes,
        vec![Stroke {
            target: Target::Distance { micro: 1_000_000 },
            blend: Blend::Replace,
            color: Color::new(100_000, 600_000, 1_000_000),
        }]
    );
    assert_eq!(domain.colors()[0], Color::new(970, 97, 9));
}

#[test]
fn hooks_follow_the_effect() {
    let center = Point::new(0, 0);
    let time = tick(10_000_000);
    for effect in [Effect::Comet, Effect::Ripples, Effect::Warpspeed] {
        let mut store = BufferStore::new();
        let mut masks = Filters::new();
        masks.set("edge", vec![0, 1]);
        let mut domain = domain_at(center);
        assert_eq!(effect.startup(center, &mut store, &mut masks), Ok(()));
        assert_eq!(effect.startup(center, &mut store, &mut masks).is_err(), effect != Effect::Ripples);
        assert_eq!(effect.compute(center, &mut store, &mut masks, &time), Ok(()));
        let strokes = effect.draw(&mut domain, &store, &masks, &time).unwrap();
        assert_eq!(masks.get("edge"), Some(&vec![0, 1]));
        match effect {
            Effect::Comet => {
                assert_eq!(store.len(), 1);
                assert_eq!(strokes.len(), 1);
                assert_eq!(strokes[0].target, Target::Angle { microradians: 20_000 });
            }
            Effect::Ripples => {
                assert_eq!(store.len(), 0);
                assert_eq!(strokes.len(), 1);
                assert_eq!(strokes[0].target, Target::Distance { micro: 20_000 });
            }
            Effect::Warpspeed => {
                assert_eq!(store.len(), 2);
                assert_eq!(strokes.len(), 5000);
                assert!(strokes.iter().all(|s| s.blend == Blend::Add));
            }
        }
    }
}

#[test]
fn hooks_fail_on_a_store_that_was_not_started() {
    let center = Point::new(0, 0);
    let time = tick(1_000);
    let mut masks = Filters::new();
    let mut store = BufferStore::new();
    let mut domain = domain_at(center);
    assert_eq!(
        Effect::Comet.compute(center, &mut store, &mut masks, &time),
        Err(EffectError::MissingBuffer)
    );
    assert_eq!(
        Effect::Warpspeed.compute(center, &mut store, &mut masks, &time),
        Err(EffectError::MissingBuffer)
    );
    assert_eq!(Effect::Ripples.compute(center, &mut store, &mut masks, &time), Ok(()));
    assert_eq!(
        Effect::Comet.draw(&mut domain, &store, &masks, &time).err(),
        Some(EffectError::MissingBuffer)
    );
    assert_eq!(
        Effect::Warpspeed.draw(&mut domain, &store, &masks, &time).err(),
        Some(EffectError::MissingBuffer)
    );
    assert!(Effect::Ripples.draw(&mut domain, &store, &masks, &time).is_ok());
}

#[test]
fn filters_keep_the_last_mask_set_under_a_name() {
    let mut masks = Filters::new();
    assert_eq!(masks.get("left"), None);
    masks.set("left", vec![0, 1, 2]);
    masks.set("right", vec![7]);
    assert_eq!(masks.get("left"), Some(&vec![0, 1, 2]));
    assert_eq!(masks.get("right"), Some(&vec![7]));
    masks.set("left", vec![]);
    assert_eq!(masks.get("left"), Some(&vec![]));
    assert_eq!(masks.get("right"), Some(&vec![7]));
    assert_eq!(masks.get("lef"), None);
    masks.clear();
    assert_eq!(masks.get("left"), None);
    assert_eq!(masks.get("right"), None);
}
