//! The decaying trail: one bright point circles the centre and leaves a
//! fading trail behind it.
//!
//! The angle reached so far lives, alone, in the scalars buffer `progress`,
//! in millionths of a radian.

use vstd::prelude::*;
use crate::buffers::{BufferStore, BufferView, ElementType, Item};
use crate::color::Color;
use crate::domain::{decayed, Blend, Domain, Stroke, Target};
use crate::driver::{Driver, DriverView};
use crate::effect::Effect;
use crate::error::EffectError;
use crate::timing::TimeInfo;

verus! {

/// One full turn, in millionths of a radian.
pub const TURN: i64 = 6_283_185;

/// The nanoseconds in which the point advances by a millionth of a radian:
/// two radians per second.
pub const PACE: u64 = 500;

/// The thousandths of its colour that an LED keeps from one frame to the next.
pub const DECAY: u32 = 980;

/// The colour of the point.
pub open spec fn head() -> Color {
    Color { red: 1_000_000, green: 1_000_000, blue: 1_000_000 }
}

/// An angle brought into one turn.
pub open spec fn wrapped(angle: int) -> int {
    angle % (TURN as int)
}

/// The angle reached after `delta` nanoseconds from `angle`.
pub open spec fn turned(angle: i64, delta: u64) -> i64 {
    wrapped(wrapped(angle as int) + delta / PACE) as i64
}

/// The stroke for the point at `angle`.
pub open spec fn head_stroke(angle: i64) -> Stroke {
    Stroke {
        target: Target::Angle { microradians: wrapped(angle as int) as u32 },
        blend: Blend::Replace,
        color: head(),
    }
}

/// Brings an angle into one turn.
pub fn wrap(angle: i64) -> (r: i64)
    ensures
        r == wrapped(angle as int),
        0 <= r < TURN,
{
    if angle >= 0 {
        angle % TURN
    } else {
        let back: i64 = (-(angle + 1)) % TURN;
        assert((angle as int) % 6_283_185 == 6_283_185 - 1 - ((-(angle + 1)) % 6_283_185));
        TURN - 1 - back
    }
}

/// The angle reached after `delta` nanoseconds from `angle`.
pub fn turn(angle: i64, delta: u64) -> (r: i64)
    ensures
        r == turned(angle, delta),
        0 <= r < TURN,
{
    let from: u64 = wrap(angle) as u64;
    let step: u64 = delta / PACE;
    let to: u64 = (from + step) % (TURN as u64);
    to as i64
}

/// What `compute` makes of a store that held `before`: the angle has
/// advanced, and nothing else has changed.
pub open spec fn computed(
    before: Map<Seq<char>, BufferView>,
    after: Map<Seq<char>, BufferView>,
    delta: u64,
) -> bool {
    &&& before.contains_key("progress"@)
    &&& before["progress"@] is Scalars
    &&& before["progress"@].len() > 0
    &&& after == before.insert(
        "progress"@,
        BufferView::Scalars(
            before["progress"@]->Scalars_0.update(
                0,
                turned(before["progress"@]->Scalars_0[0], delta),
            ),
        ),
    )
}

/// Creates the angle, at zero. Fails, and changes nothing, if the buffer
/// already exists.
pub fn startup(buffers: &mut BufferStore) -> (r: Result<(), EffectError>)
    requires
        old(buffers).wf(),
    ensures
        final(buffers).wf(),
        old(buffers)@.contains_key("progress"@) ==> r == Err::<(), EffectError>(
            EffectError::DuplicateBuffer,
        ) && final(buffers)@ == old(buffers)@,
        !old(buffers)@.contains_key("progress"@) ==> r == Ok::<(), EffectError>(())
            && final(buffers)@ == old(buffers)@.insert(
            "progress"@,
            BufferView::Scalars(seq![0i64]),
        ),
{
    match buffers.create_buffer("progress", ElementType::Scalar) {
        Err(e) => {
            return Err(e);
        },
        Ok(_) => {},
    }
    match buffers.get_scalars_mut("progress") {
        Err(e) => Err(e),
        Ok(progress) => {
            progress.push(0);
            assert(progress@ =~= seq![0i64]);
            Ok(())
        },
    }
}

/// Advances the angle by the time of one tick. Fails, and changes nothing,
/// if the buffer is missing, is no buffer of scalars, or is empty.
pub fn compute(buffers: &mut BufferStore, time: &TimeInfo) -> (r: Result<(), EffectError>)
    requires
        old(buffers).wf(),
    ensures
        final(buffers).wf(),
        match BufferStore::lookup_item(old(buffers)@, "progress"@, ElementType::Scalar, 0) {
            Err(e) => r == Err::<(), EffectError>(e) && final(buffers)@ == old(buffers)@,
            Ok(_) => r == Ok::<(), EffectError>(()) && computed(
                old(buffers)@,
                final(buffers)@,
                time.delta,
            ),
        },
{
    match buffers.get_scalars_mut("progress") {
        Err(e) => Err(e),
        Ok(progress) => {
            if progress.len() == 0 {
                assert(progress@ =~= old(buffers)@["progress"@]->Scalars_0);
                Err(EffectError::IndexOutOfRange)
            } else {
                let next: i64 = turn(progress[0], time.delta);
                progress.set(0, next);
                Ok(())
            }
        },
    }
}

/// Fades the domain and returns the stroke for the point. Fails before
/// anything changes if the angle cannot be read.
pub fn draw(domain: &mut Domain, buffers: &BufferStore) -> (r: Result<Vec<Stroke>, EffectError>)
    requires
        buffers.wf(),
    ensures
        final(domain)@.layout == old(domain)@.layout,
        final(domain)@.center == old(domain)@.center,
        match BufferStore::lookup_item(buffers@, "progress"@, ElementType::Scalar, 0) {
            Err(e) => r == Err::<Vec<Stroke>, EffectError>(e) && final(domain)@ == old(domain)@,
            Ok(item) => final(domain)@.colors == decayed(old(domain)@.colors, DECAY) && r is Ok
                && r->Ok_0@ == seq![head_stroke(item->Scalar_0)],
        },
{
    let angle: i64 = match buffers.get_buffer_item("progress", ElementType::Scalar, 0) {
        Err(e) => {
            assert(domain@ == old(domain)@);
            return Err(e);
        },
        Ok(Item::Scalar(a)) => a,
        Ok(_) => {
            return Err(EffectError::TypeMismatch);
        },
    };
    domain.decay(DECAY);
    let mut out: Vec<Stroke> = Vec::new();
    out.push(Stroke {
        target: Target::Angle { microradians: wrap(angle) as u32 },
        blend: Blend::Replace,
        color: Color::new(1_000_000, 1_000_000, 1_000_000),
    });
    assert(out@ =~= seq![head_stroke(angle)]);
    Ok(out)
}

/// A driver for this effect, with nothing mounted.
pub fn build_driver() -> (driver: Driver)
    ensures
        driver.wf(),
        driver@ == DriverView::idle(Effect::Comet),
{
    Driver::new(Effect::Comet)
}

} // verus!
