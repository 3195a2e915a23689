//! The radial sweep: a ring runs outwards from the centre, again and again.
//!
//! The ring's radius follows from the time since the mount alone, so the
//! effect keeps no buffers.

use vstd::prelude::*;
use crate::color::Color;
use crate::driver::{Driver, DriverView};
use crate::effect::Effect;
use crate::domain::{decayed, Blend, Domain, Stroke, Target};
use crate::timing::TimeInfo;

verus! {

/// How fast the ring runs outwards, in layout units per second.
pub const SPEED: u64 = 2;

/// The radius at which the ring starts over, in millionths of a layout unit.
pub const MAX_RADIUS: u64 = 5_000_000;

/// The thousandths of its colour that an LED keeps from one frame to the next.
pub const DECAY: u32 = 970;

/// The colour of the ring.
pub open spec fn crest() -> Color {
    Color { red: 100_000, green: 600_000, blue: 1_000_000 }
}

/// The ring's radius `elapsed` nanoseconds after the mount.
pub open spec fn radius(elapsed: u64) -> u64 {
    (((elapsed * SPEED) / 1000) % (MAX_RADIUS as int)) as u64
}

/// The stroke for the ring `elapsed` nanoseconds after the mount.
pub open spec fn ring_stroke(elapsed: u64) -> Stroke {
    Stroke {
        target: Target::Distance { micro: radius(elapsed) },
        blend: Blend::Replace,
        color: crest(),
    }
}

/// The ring's radius `elapsed` nanoseconds after the mount.
pub fn radius_at(elapsed: u64) -> (r: u64)
    ensures
        r == radius(elapsed),
        r < MAX_RADIUS,
{
    let travelled: u128 = (elapsed as u128 * SPEED as u128) / 1000;
    (travelled % (MAX_RADIUS as u128)) as u64
}

/// Fades the domain and returns the stroke for the ring.
pub fn draw(domain: &mut Domain, time: &TimeInfo) -> (strokes: Vec<Stroke>)
    ensures
        final(domain)@.layout == old(domain)@.layout,
        final(domain)@.center == old(domain)@.center,
        final(domain)@.colors == decayed(old(domain)@.colors, DECAY),
        strokes@ == seq![ring_stroke(time.elapsed)],
{
    domain.decay(DECAY);
    let mut out: Vec<Stroke> = Vec::new();
    out.push(Stroke {
        target: Target::Distance { micro: radius_at(time.elapsed) },
        blend: Blend::Replace,
        color: Color::new(100_000, 600_000, 1_000_000),
    });
    assert(out@ =~= seq![ring_stroke(time.elapsed)]);
    out
}

/// A driver for this effect, with nothing mounted.
pub fn build_driver() -> (driver: Driver)
    ensures
        driver.wf(),
        driver@ == DriverView::idle(Effect::Ripples),
{
    Driver::new(Effect::Ripples)
}

} // verus!
