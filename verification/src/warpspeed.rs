//! The particle field: stars fall through the plane and light the LEDs that
//! lie in their direction from the centre.
//!
//! The stars live in the points buffer `stars`, the palette in the colours
//! buffer `colors`. A star that falls below the floor is replaced, in its
//! place in the buffer, by a fresh one above the centre, so that each star
//! keeps the palette colour that its index selects.

use vstd::prelude::*;
use crate::buffers::{Buffer, BufferStore, BufferView, ElementType, Item};
use crate::chance::{random_between, random_ratio, thread_rng};
use crate::color::Color;
use crate::domain::{decayed, Blend, Domain, Stroke, Target};
use crate::driver::{Driver, DriverView};
use crate::effect::Effect;
use crate::error::EffectError;
use crate::geometry::Point;
use crate::timing::{TimeInfo, MAX_DELTA};

verus! {

/// How many stars the field holds.
pub const NUM_STARS: usize = 5000;

/// How fast a star falls, in layout units per second.
pub const VELOCITY: u64 = 3;

/// The height below which a star is replaced.
pub const FLOOR: i64 = -50_000_000;

/// The thousandths of its colour that an LED keeps from one frame to the next.
pub const DECAY: u32 = 980;

/// The number of palette colours that stars choose from, by index.
pub const PALETTE_SIZE: usize = 10;

/// A fresh star lies at least this far to the side of the centre.
pub const ACROSS_MIN: i64 = 850_000;

/// A fresh star lies less than this far to the side of the centre.
pub const ACROSS_MAX: i64 = 15_000_000;

/// A fresh star lies at least this far above the centre.
pub const ALONG_MIN: i64 = 40_000_000;

/// A fresh star lies less than this far above the centre.
pub const ALONG_MAX: i64 = 250_000_000;

/// The palette.
pub open spec fn palette() -> Seq<Color> {
    seq![
        Color { red: 150_000, green: 500_000, blue: 1_000_000 },
        Color { red: 250_000, green: 300_000, blue: 1_000_000 },
        Color { red: 50_000, green: 400_000, blue: 800_000 },
        Color { red: 700_000, green: 0, blue: 600_000 },
        Color { red: 50_000, green: 750_000, blue: 1_000_000 },
        Color { red: 100_000, green: 800_000, blue: 600_000 },
        Color { red: 600_000, green: 50_000, blue: 200_000 },
        Color { red: 850_000, green: 150_000, blue: 300_000 },
        Color { red: 0, green: 0, blue: 1_000_000 },
        Color { red: 1_000_000, green: 710_000, blue: 705_000 },
    ]
}

/// The distance a star falls in `delta` nanoseconds, in millionths of a
/// layout unit.
pub open spec fn fall(delta: u64) -> int {
    (VELOCITY * delta) / 1000
}

/// The place of a fresh star: `across` to one side of the centre, the side
/// chosen by `positive`, and `along` above it.
pub open spec fn spawn_point(center: Point, positive: bool, across: i64, along: i64) -> Point {
    Point {
        x: (center.x + if positive {
            across as int
        } else {
            -across
        }) as i32,
        y: (center.y + along) as i32,
    }
}

/// Whether `p` is a place where a fresh star can appear around `center`.
pub open spec fn is_spawn(center: Point, p: Point) -> bool {
    &&& ALONG_MIN <= p.y - center.y < ALONG_MAX
    &&& (ACROSS_MIN <= p.x - center.x < ACROSS_MAX || ACROSS_MIN <= center.x - p.x < ACROSS_MAX)
}

/// What one tick may make of a star: it has either fallen by `fall` or, had
/// that brought it below the floor, been replaced by a fresh one.
pub open spec fn advanced(center: Point, before: Point, after: Point, fall: int) -> bool {
    if before.y - fall < FLOOR {
        is_spawn(center, after)
    } else {
        after == (Point { x: before.x, y: (before.y - fall) as i32 })
    }
}

/// What one tick may make of the whole field.
pub open spec fn all_advanced(center: Point, before: Seq<Point>, after: Seq<Point>, fall: int)
    -> bool {
    &&& after.len() == before.len()
    &&& forall|i: int| 0 <= i < before.len() ==> advanced(center, before[i], #[trigger] after[i], fall)
}

/// The stroke a star contributes: its palette colour, divided by the square
/// of its distance from the centre, added to the LEDs in its direction.
pub open spec fn star_stroke(center: Point, star: Point, tint: Color) -> Stroke {
    Stroke {
        target: Target::Direction {
            dx: (star.x - center.x) as i64,
            dy: (star.y - center.y) as i64,
        },
        blend: Blend::Add,
        color: tint.thinned(
            Point::squared_length(star.x - center.x, star.y - center.y) as nat,
        ),
    }
}

/// The outcome of fetching the palette colour of star `i`.
pub open spec fn tint_of(m: Map<Seq<char>, BufferView>, i: int) -> Result<Item, EffectError> {
    BufferStore::lookup_item(m, "colors"@, ElementType::Color, (i % 10) as nat)
}

/// Why drawing `stars` stars fails, if it does: the palette is fetched once
/// per star, so an empty field never fails.
pub open spec fn draw_failure(m: Map<Seq<char>, BufferView>, stars: nat) -> Option<EffectError> {
    if stars == 0 {
        None
    } else {
        match BufferStore::lookup(m, "colors"@, ElementType::Color) {
            Err(e) => Some(e),
            Ok(b) => if b.len() < 10 && b.len() < stars {
                Some(EffectError::IndexOutOfRange)
            } else {
                None
            },
        }
    }
}

/// The strokes of a frame, one per star, in buffer order.
pub open spec fn strokes(m: Map<Seq<char>, BufferView>, center: Point, stars: Seq<Point>) -> Seq<
    Stroke,
> {
    Seq::new(
        stars.len(),
        |i: int| star_stroke(center, stars[i], m["colors"@]->Colors_0[i % 10]),
    )
}

fn palette_colors() -> (v: Vec<Color>)
    ensures
        v@ == palette(),
{
    let mut v: Vec<Color> = Vec::new();
    v.push(Color::new(150_000, 500_000, 1_000_000));
    v.push(Color::new(250_000, 300_000, 1_000_000));
    v.push(Color::new(50_000, 400_000, 800_000));
    v.push(Color::new(700_000, 0, 600_000));
    v.push(Color::new(50_000, 750_000, 1_000_000));
    v.push(Color::new(100_000, 800_000, 600_000));
    v.push(Color::new(600_000, 50_000, 200_000));
    v.push(Color::new(850_000, 150_000, 300_000));
    v.push(Color::new(0, 0, 1_000_000));
    v.push(Color::new(1_000_000, 710_000, 705_000));
    assert(v@ =~= palette());
    v
}

/// Places a fresh star from the three values that chance supplied.
pub fn spawn_location(center: Point, positive: bool, across: i64, along: i64) -> (p: Point)
    requires
        center.in_field(),
        ACROSS_MIN <= across < ACROSS_MAX,
        ALONG_MIN <= along < ALONG_MAX,
    ensures
        p == spawn_point(center, positive, across, along),
        is_spawn(center, p),
        p.x - center.x == (if positive {
            across as int
        } else {
            -across
        }),
        p.y - center.y == along,
{
    let side: i64 = if positive {
        across
    } else {
        -across
    };
    Point { x: (center.x as i64 + side) as i32, y: (center.y as i64 + along) as i32 }
}

/// Draws a side and two offsets and places a fresh star there.
pub fn random_spawn_location(rng: &mut rand::rngs::ThreadRng, center: Point) -> (p: Point)
    requires
        center.in_field(),
    ensures
        is_spawn(center, p),
{
    let positive: bool = random_ratio(rng, 1, 2);
    let across: i64 = random_between(rng, ACROSS_MIN, ACROSS_MAX);
    let along: i64 = random_between(rng, ALONG_MIN, ALONG_MAX);
    spawn_location(center, positive, across, along)
}

/// Where a star is after falling by `drop`, or `None` if that is below the
/// floor and the star is to be replaced.
pub fn fallen(star: Point, drop: u64) -> (r: Option<Point>)
    requires
        drop <= VELOCITY * MAX_DELTA,
    ensures
        r == (if star.y - drop < FLOOR {
            None
        } else {
            Some(Point { x: star.x, y: (star.y - drop) as i32 })
        }),
{
    let y: i64 = star.y as i64 - drop as i64;
    if y < FLOOR {
        None
    } else {
        Some(Point { x: star.x, y: y as i32 })
    }
}

/// Lets every star fall by `drop` and replaces, in place, those that fall
/// below the floor.
pub fn advance_stars(
    rng: &mut rand::rngs::ThreadRng,
    center: Point,
    stars: &mut Vec<Point>,
    drop: u64,
)
    requires
        center.in_field(),
        drop <= VELOCITY * MAX_DELTA,
    ensures
        all_advanced(center, old(stars)@, final(stars)@, drop as int),
{
    let n: usize = stars.len();
    let mut i: usize = 0;
    while i < n
        invariant
            i <= n,
            n == stars.len(),
            stars.len() == old(stars).len(),
            center.in_field(),
            drop <= VELOCITY * MAX_DELTA,
            forall|k: int| 0 <= k < i ==> advanced(center, old(stars)@[k], #[trigger] stars@[k], drop as int),
            forall|k: int| i <= k < n ==> stars@[k] == old(stars)@[k],
        decreases n - i,
    {
        let star: Point = stars[i];
        let moved: Point = match fallen(star, drop) {
            Some(p) => p,
            None => random_spawn_location(rng, center),
        };
        stars.set(i, moved);
        i += 1;
    }
}

/// What `startup` makes of a store that held `before`: the field of
/// [`NUM_STARS`] fresh stars and the palette, beside what was there.
pub open spec fn started(
    before: Map<Seq<char>, BufferView>,
    after: Map<Seq<char>, BufferView>,
    center: Point,
) -> bool {
    &&& after.contains_key("stars"@)
    &&& after["stars"@] is Points
    &&& after["stars"@]->Points_0.len() == NUM_STARS
    &&& forall|i: int|
        0 <= i < NUM_STARS ==> is_spawn(center, #[trigger] after["stars"@]->Points_0[i])
    &&& after == before.insert("stars"@, after["stars"@]).insert(
        "colors"@,
        BufferView::Colors(palette()),
    )
}

/// What `compute` makes of a store that held `before`, in a tick of `delta`
/// nanoseconds: only the field changes, and every star has advanced.
pub open spec fn computed(
    before: Map<Seq<char>, BufferView>,
    after: Map<Seq<char>, BufferView>,
    center: Point,
    delta: u64,
) -> bool {
    &&& before.contains_key("stars"@)
    &&& before["stars"@] is Points
    &&& after.contains_key("stars"@)
    &&& after["stars"@] is Points
    &&& all_advanced(center, before["stars"@]->Points_0, after["stars"@]->Points_0, fall(delta))
    &&& after == before.insert("stars"@, after["stars"@])
}

proof fn lemma_names_differ()
    ensures
        "stars"@ != "colors"@,
{
    reveal_strlit("stars");
    reveal_strlit("colors");
    assert("stars"@.len() == 5);
    assert("colors"@.len() == 6);
}

fn fresh_field(rng: &mut rand::rngs::ThreadRng, center: Point) -> (stars: Vec<Point>)
    requires
        center.in_field(),
    ensures
        stars@.len() == NUM_STARS,
        forall|i: int| 0 <= i < NUM_STARS ==> is_spawn(center, #[trigger] stars@[i]),
{
    let mut stars: Vec<Point> = Vec::new();
    let mut i: usize = 0;
    while i < NUM_STARS
        invariant
            i <= NUM_STARS,
            stars@.len() == i,
            center.in_field(),
            forall|k: int| 0 <= k < i ==> is_spawn(center, #[trigger] stars@[k]),
        decreases NUM_STARS - i,
    {
        let star: Point = random_spawn_location(rng, center);
        stars.push(star);
        i += 1;
    }
    stars
}

/// Creates the field and the palette. Fails, and changes nothing, if either
/// buffer already exists.
pub fn startup(center: Point, buffers: &mut BufferStore) -> (r: Result<(), EffectError>)
    requires
        old(buffers).wf(),
        center.in_field(),
    ensures
        final(buffers).wf(),
        (old(buffers)@.contains_key("stars"@) || old(buffers)@.contains_key("colors"@)) ==> r
            == Err::<(), EffectError>(EffectError::DuplicateBuffer) && final(buffers)@ == old(buffers)@,
        !(old(buffers)@.contains_key("stars"@) || old(buffers)@.contains_key("colors"@)) ==> r
            == Ok::<(), EffectError>(()) && started(old(buffers)@, final(buffers)@, center),
{
    proof {
        lemma_names_differ();
    }
    if buffers.contains("stars") || buffers.contains("colors") {
        return Err(EffectError::DuplicateBuffer);
    }
    let mut rng = thread_rng();
    let field: Vec<Point> = fresh_field(&mut rng, center);
    match buffers.create_buffer("stars", ElementType::Point) {
        Err(e) => {
            return Err(e);
        },
        Ok(_) => {},
    }
    match buffers.get_points_mut("stars") {
        Err(e) => {
            return Err(e);
        },
        Ok(stars) => {
            *stars = field;
        },
    }
    assert(!buffers@.contains_key("colors"@));
    match buffers.create_buffer("colors", ElementType::Color) {
        Err(e) => {
            return Err(e);
        },
        Ok(_) => {},
    }
    match buffers.get_colors_mut("colors") {
        Err(e) => {
            return Err(e);
        },
        Ok(colors) => {
            *colors = palette_colors();
        },
    }
    assert(buffers@ =~= old(buffers)@.insert("stars"@, buffers@["stars"@]).insert(
        "colors"@,
        BufferView::Colors(palette()),
    ));
    Ok(())
}

/// Advances every star by the time of one tick. Fails, and changes nothing,
/// if the field is missing or is no buffer of points.
pub fn compute(center: Point, buffers: &mut BufferStore, time: &TimeInfo) -> (r: Result<
    (),
    EffectError,
>)
    requires
        old(buffers).wf(),
        center.in_field(),
        time.wf(),
    ensures
        final(buffers).wf(),
        match BufferStore::lookup(old(buffers)@, "stars"@, ElementType::Point) {
            Err(e) => r == Err::<(), EffectError>(e) && final(buffers)@ == old(buffers)@,
            Ok(_) => r == Ok::<(), EffectError>(()) && computed(
                old(buffers)@,
                final(buffers)@,
                center,
                time.delta,
            ),
        },
{
    let mut rng = thread_rng();
    let drop: u64 = VELOCITY * time.delta / 1000;
    match buffers.get_points_mut("stars") {
        Err(e) => Err(e),
        Ok(stars) => {
            advance_stars(&mut rng, center, stars, drop);
            Ok(())
        },
    }
}

/// Fades the domain and returns one stroke per star. Fails before anything
/// changes if the field is missing or is no buffer of points, and after the
/// fade if a star finds no palette colour.
#[verifier::loop_isolation(false)]
pub fn draw(domain: &mut Domain, buffers: &BufferStore) -> (r: Result<Vec<Stroke>, EffectError>)
    requires
        buffers.wf(),
    ensures
        final(domain)@.layout == old(domain)@.layout,
        final(domain)@.center == old(domain)@.center,
        match BufferStore::lookup(buffers@, "stars"@, ElementType::Point) {
            Err(e) => r == Err::<Vec<Stroke>, EffectError>(e) && final(domain)@ == old(domain)@,
            Ok(field) => final(domain)@.colors == decayed(old(domain)@.colors, DECAY)
                && match draw_failure(buffers@, field.len()) {
                Some(e) => r == Err::<Vec<Stroke>, EffectError>(e),
                None => r is Ok && r->Ok_0@ == strokes(
                    buffers@,
                    old(domain)@.center,
                    field->Points_0,
                ),
            },
        },
{
    let stars: &Vec<Point> = match buffers.get_buffer("stars", ElementType::Point) {
        Err(e) => {
            assert(domain@ == old(domain)@);
            return Err(e);
        },
        Ok(Buffer::Points(v)) => v,
        Ok(_) => {
            return Err(EffectError::TypeMismatch);
        },
    };
    let center: Point = domain.center();
    domain.decay(DECAY);
    let mut out: Vec<Stroke> = Vec::new();
    let mut i: usize = 0;
    while i < stars.len()
        invariant
            i <= stars.len(),
            buffers.wf(),
            out@.len() == i,
            i > 0 ==> BufferStore::lookup(buffers@, "colors"@, ElementType::Color) is Ok,
            i > 0 ==> (buffers@["colors"@].len() >= 10 || buffers@["colors"@].len() >= i),
            forall|k: int|
                0 <= k < i ==> #[trigger] out@[k] == star_stroke(
                    center,
                    stars@[k],
                    buffers@["colors"@]->Colors_0[k % 10],
                ),
        decreases stars.len() - i,
    {
        let tint: Color = match buffers.get_buffer_item("colors", ElementType::Color, i % PALETTE_SIZE) {
            Err(e) => {
                return Err(e);
            },
            Ok(Item::Color(c)) => c,
            Ok(_) => {
                return Err(EffectError::TypeMismatch);
            },
        };
        let star: Point = stars[i];
        let d: (i64, i64) = star.offset_from(&center);
        assert(d.0 * d.0 + d.1 * d.1 <= 0x2_0000_0000_0000_0000) by (nonlinear_arith)
            requires
                -0x1_0000_0000 <= d.0 <= 0x1_0000_0000,
                -0x1_0000_0000 <= d.1 <= 0x1_0000_0000,
        ;
        assert(0 <= d.0 * d.0 <= 0x1_0000_0000_0000_0000) by (nonlinear_arith)
            requires
                -0x1_0000_0000 <= d.0 <= 0x1_0000_0000,
        ;
        assert(0 <= d.1 * d.1 <= 0x1_0000_0000_0000_0000) by (nonlinear_arith)
            requires
                -0x1_0000_0000 <= d.1 <= 0x1_0000_0000,
        ;
        let squared: u128 = (d.0 as i128 * d.0 as i128) as u128 + (d.1 as i128 * d.1 as i128) as u128;
        out.push(Stroke {
            target: Target::Direction { dx: d.0, dy: d.1 },
            blend: Blend::Add,
            color: tint.thin(squared),
        });
        i += 1;
    }
    assert(out@ =~= strokes(buffers@, center, stars@));
    Ok(out)
}

/// A driver for this effect, with nothing mounted.
pub fn build_driver() -> (driver: Driver)
    ensures
        driver.wf(),
        driver@ == DriverView::idle(Effect::Warpspeed),
{
    Driver::new(Effect::Warpspeed)
}

/// A fresh star lies above the centre, to one side of it, and its distance
/// from the centre lies between the distances of the nearest and of the
/// farthest place that the spawn ranges allow.
pub proof fn law_spawn_lies_in_range(center: Point, p: Point)
    requires
        is_spawn(center, p),
    ensures
        p.y > center.y,
        p.x != center.x,
        ACROSS_MIN * ACROSS_MIN + ALONG_MIN * ALONG_MIN <= Point::squared_length(
            p.x - center.x,
            p.y - center.y,
        ) < ACROSS_MAX * ACROSS_MAX + ALONG_MAX * ALONG_MAX,
{
    let dx: int = p.x - center.x;
    let dy: int = p.y - center.y;
    assert(40_000_000 * 40_000_000 <= dy * dy < 250_000_000 * 250_000_000) by (nonlinear_arith)
        requires
            40_000_000 <= dy < 250_000_000,
    ;
    assert(850_000 * 850_000 <= dx * dx < 15_000_000 * 15_000_000) by (nonlinear_arith)
        requires
            850_000 <= dx < 15_000_000 || 850_000 <= -dx < 15_000_000,
    ;
}

/// Both sides are open to a fresh star: from the same two offsets the one
/// choice places it to the right of the centre and the other, mirrored, to
/// the left, and both places are valid.
pub proof fn law_spawn_takes_either_side(center: Point, across: i64, along: i64)
    requires
        center.in_field(),
        ACROSS_MIN <= across < ACROSS_MAX,
        ALONG_MIN <= along < ALONG_MAX,
    ensures
        is_spawn(center, spawn_point(center, true, across, along)),
        is_spawn(center, spawn_point(center, false, across, along)),
        spawn_point(center, true, across, along).x - center.x == across,
        spawn_point(center, false, across, along).x - center.x == -across,
        spawn_point(center, true, across, along).y == spawn_point(center, false, across, along).y,
{
}

/// A tick keeps the number and the order of the stars: a star that stays in
/// the field keeps its place in the buffer and its side, and one that is
/// replaced is replaced in its place by a valid fresh star.
pub proof fn law_respawn_is_in_place(
    center: Point,
    before: Seq<Point>,
    after: Seq<Point>,
    fall: int,
    i: int,
)
    requires
        all_advanced(center, before, after, fall),
        0 <= fall,
        0 <= i < before.len(),
    ensures
        after.len() == before.len(),
        before[i].y - fall >= FLOOR ==> after[i].x == before[i].x && after[i].y == before[i].y
            - fall,
        before[i].y - fall < FLOOR ==> is_spawn(center, after[i]),
{
    assert(advanced(center, before[i], after[i], fall));
}

} // verus!
