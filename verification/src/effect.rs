//! The registered effects, and the three hooks through which a driver runs
//! one of them: `startup` once per mount, then `compute` and `draw` on every
//! tick.

use vstd::prelude::*;
use crate::buffers::{BufferStore, BufferView, ElementType};
use crate::comet;
use crate::domain::{decayed, Domain, Stroke};
use crate::error::EffectError;
use crate::filters::Filters;
use crate::geometry::Point;
use crate::ripples;
use crate::timing::TimeInfo;
use crate::warpspeed;

verus! {

/// How many effects are registered.
pub const EFFECTS: usize = 3;

/// An animation program.
#[derive(PartialEq, Eq, Hash, Clone, Copy, Debug, Structural)]
pub enum Effect {
    Comet,
    Ripples,
    Warpspeed,
}

impl Effect {
    /// The effect's name, as lists show it.
    pub open spec fn name(self) -> Seq<char> {
        match self {
            Effect::Comet => "Comet"@,
            Effect::Ripples => "Ripples"@,
            Effect::Warpspeed => "Warpspeed"@,
        }
    }

    /// The effect's place in the list of effects.
    pub open spec fn place(self) -> nat {
        match self {
            Effect::Comet => 0,
            Effect::Ripples => 1,
            Effect::Warpspeed => 2,
        }
    }

    /// The effect at a place in the list, the list taken round and round.
    pub open spec fn placed(place: nat) -> Effect {
        if place % 3 == 0 {
            Effect::Comet
        } else if place % 3 == 1 {
            Effect::Ripples
        } else {
            Effect::Warpspeed
        }
    }

    /// The thousandths of its colour that an LED keeps from frame to frame.
    pub open spec fn decay(self) -> u32 {
        match self {
            Effect::Comet => comet::DECAY,
            Effect::Ripples => ripples::DECAY,
            Effect::Warpspeed => warpspeed::DECAY,
        }
    }

    /// Whether `startup` is refused on a store that holds `m`: one of the
    /// buffers that it creates exists already.
    pub open spec fn collides(self, m: Map<Seq<char>, BufferView>) -> bool {
        match self {
            Effect::Comet => m.contains_key("progress"@),
            Effect::Ripples => false,
            Effect::Warpspeed => m.contains_key("stars"@) || m.contains_key("colors"@),
        }
    }

    /// What `startup` makes of a store that held `before`.
    pub open spec fn started(
        self,
        before: Map<Seq<char>, BufferView>,
        after: Map<Seq<char>, BufferView>,
        center: Point,
    ) -> bool {
        match self {
            Effect::Comet => after == before.insert("progress"@, BufferView::Scalars(seq![0i64])),
            Effect::Ripples => after == before,
            Effect::Warpspeed => warpspeed::started(before, after, center),
        }
    }

    /// Why `compute` fails on a store that holds `m`, if it does.
    pub open spec fn compute_failure(self, m: Map<Seq<char>, BufferView>) -> Option<EffectError> {
        match self {
            Effect::Comet => match BufferStore::lookup_item(
                m,
                "progress"@,
                ElementType::Scalar,
                0,
            ) {
                Err(e) => Some(e),
                Ok(_) => None,
            },
            Effect::Ripples => None,
            Effect::Warpspeed => match BufferStore::lookup(m, "stars"@, ElementType::Point) {
                Err(e) => Some(e),
                Ok(_) => None,
            },
        }
    }

    /// What a successful `compute` makes of a store that held `before`.
    pub open spec fn computed(
        self,
        before: Map<Seq<char>, BufferView>,
        after: Map<Seq<char>, BufferView>,
        center: Point,
        time: TimeInfo,
    ) -> bool {
        match self {
            Effect::Comet => comet::computed(before, after, time.delta),
            Effect::Ripples => after == before,
            Effect::Warpspeed => warpspeed::computed(before, after, center, time.delta),
        }
    }

    /// Whether `draw` gets as far as fading the domain.
    pub open spec fn fades(self, m: Map<Seq<char>, BufferView>) -> bool {
        match self {
            Effect::Comet => BufferStore::lookup_item(m, "progress"@, ElementType::Scalar, 0) is Ok,
            Effect::Ripples => true,
            Effect::Warpspeed => BufferStore::lookup(m, "stars"@, ElementType::Point) is Ok,
        }
    }

    /// What `draw` returns on a store that holds `m`.
    pub open spec fn drawn(self, m: Map<Seq<char>, BufferView>, center: Point, time: TimeInfo)
        -> Result<Seq<Stroke>, EffectError> {
        match self {
            Effect::Comet => match BufferStore::lookup_item(
                m,
                "progress"@,
                ElementType::Scalar,
                0,
            ) {
                Err(e) => Err(e),
                Ok(item) => Ok(seq![comet::head_stroke(item->Scalar_0)]),
            },
            Effect::Ripples => Ok(seq![ripples::ring_stroke(time.elapsed)]),
            Effect::Warpspeed => match BufferStore::lookup(m, "stars"@, ElementType::Point) {
                Err(e) => Err(e),
                Ok(field) => match warpspeed::draw_failure(m, field.len()) {
                    Some(e) => Err(e),
                    None => Ok(warpspeed::strokes(m, center, field->Points_0)),
                },
            },
        }
    }

    /// Whether a store that holds `m` is in the shape in which the effect
    /// runs: what `startup` creates is there, with its type and size.
    pub open spec fn ready(self, m: Map<Seq<char>, BufferView>) -> bool {
        match self {
            Effect::Comet => BufferStore::lookup_item(m, "progress"@, ElementType::Scalar, 0) is Ok,
            Effect::Ripples => true,
            Effect::Warpspeed => BufferStore::lookup(m, "stars"@, ElementType::Point) is Ok
                && BufferStore::lookup(m, "colors"@, ElementType::Color) is Ok
                && m["colors"@].len() >= warpspeed::PALETTE_SIZE,
        }
    }

    /// The effect's name, as lists show it.
    pub fn as_str(&self) -> (s: &'static str)
        ensures
            s@ == self.name(),
    {
        match self {
            Effect::Comet => "Comet",
            Effect::Ripples => "Ripples",
            Effect::Warpspeed => "Warpspeed",
        }
    }

    /// The effect's place in the list of effects.
    pub fn index(&self) -> (i: usize)
        ensures
            i == self.place(),
            i < EFFECTS,
    {
        match self {
            Effect::Comet => 0,
            Effect::Ripples => 1,
            Effect::Warpspeed => 2,
        }
    }

    /// The effect at a place in the list; places beyond the end count on
    /// from the start.
    pub fn at(place: usize) -> (e: Effect)
        ensures
            e == Self::placed(place as nat),
            place < EFFECTS ==> e.place() == place,
    {
        let p: usize = place % EFFECTS;
        if p == 0 {
            Effect::Comet
        } else if p == 1 {
            Effect::Ripples
        } else {
            Effect::Warpspeed
        }
    }

    /// Runs the effect's startup hook: it creates the effect's buffers, or
    /// fails with nothing changed. None of the registered effects sets a mask.
    pub fn startup(&self, center: Point, buffers: &mut BufferStore, filters: &mut Filters) -> (r:
        Result<(), EffectError>)
        requires
            old(buffers).wf(),
            old(filters).wf(),
            center.in_field(),
        ensures
            final(buffers).wf(),
            final(filters).wf(),
            final(filters)@ == old(filters)@,
            self.collides(old(buffers)@) ==> r == Err::<(), EffectError>(
                EffectError::DuplicateBuffer,
            ) && final(buffers)@ == old(buffers)@,
            !self.collides(old(buffers)@) ==> r == Ok::<(), EffectError>(()) && self.started(
                old(buffers)@,
                final(buffers)@,
                center,
            ),
    {
        match self {
            Effect::Comet => comet::startup(buffers),
            Effect::Ripples => Ok(()),
            Effect::Warpspeed => warpspeed::startup(center, buffers),
        }
    }

    /// Runs the effect's compute hook: it reads the domain's centre and
    /// advances the buffers by the time of one tick, or fails with nothing
    /// changed. It never writes a colour: it is not given the domain. None of
    /// the registered effects sets a mask.
    pub fn compute(
        &self,
        center: Point,
        buffers: &mut BufferStore,
        filters: &mut Filters,
        time: &TimeInfo,
    ) -> (r: Result<(), EffectError>)
        requires
            old(buffers).wf(),
            old(filters).wf(),
            center.in_field(),
            time.wf(),
        ensures
            final(buffers).wf(),
            final(filters).wf(),
            final(filters)@ == old(filters)@,
            match self.compute_failure(old(buffers)@) {
                Some(e) => r == Err::<(), EffectError>(e) && final(buffers)@ == old(buffers)@,
                None => r == Ok::<(), EffectError>(()) && self.computed(
                    old(buffers)@,
                    final(buffers)@,
                    center,
                    *time,
                ),
            },
    {
        match self {
            Effect::Comet => comet::compute(buffers, time),
            Effect::Ripples => Ok(()),
            Effect::Warpspeed => warpspeed::compute(center, buffers, time),
        }
    }

    /// Runs the effect's draw hook: it fades the domain's colours and returns
    /// the strokes of the frame. It reads buffers and masks and cannot change
    /// them. None of the registered effects reads a mask.
    pub fn draw(
        &self,
        domain: &mut Domain,
        buffers: &BufferStore,
        filters: &Filters,
        time: &TimeInfo,
    ) -> (r: Result<Vec<Stroke>, EffectError>)
        requires
            buffers.wf(),
            filters.wf(),
        ensures
            final(domain)@.layout == old(domain)@.layout,
            final(domain)@.center == old(domain)@.center,
            final(domain)@.colors == (if self.fades(buffers@) {
                decayed(old(domain)@.colors, self.decay())
            } else {
                old(domain)@.colors
            }),
            match r {
                Ok(strokes) => self.drawn(buffers@, old(domain)@.center, *time) == Ok::<
                    Seq<Stroke>,
                    EffectError,
                >(strokes@),
                Err(e) => self.drawn(buffers@, old(domain)@.center, *time) == Err::<
                    Seq<Stroke>,
                    EffectError,
                >(e),
            },
    {
        match self {
            Effect::Comet => comet::draw(domain, buffers),
            Effect::Ripples => Ok(ripples::draw(domain, time)),
            Effect::Warpspeed => warpspeed::draw(domain, buffers),
        }
    }
}

/// What `startup` creates on an empty store is the shape in which the effect
/// runs.
pub proof fn lemma_started_is_ready(effect: Effect, after: Map<Seq<char>, BufferView>, center: Point)
    requires
        effect.started(Map::empty(), after, center),
    ensures
        effect.ready(after),
{
    reveal_strlit("stars");
    reveal_strlit("colors");
    assert("stars"@.len() == 5);
    assert("colors"@.len() == 6);
}

/// `compute` keeps the store in the shape in which the effect runs, and in
/// that shape neither `compute` nor `draw` fails.
pub proof fn lemma_ready_runs(
    effect: Effect,
    before: Map<Seq<char>, BufferView>,
    after: Map<Seq<char>, BufferView>,
    center: Point,
    time: TimeInfo,
)
    requires
        effect.ready(before),
    ensures
        effect.compute_failure(before) is None,
        effect.fades(before),
        effect.drawn(before, center, time) is Ok,
        effect.computed(before, after, center, time) ==> effect.ready(after),
{
    reveal_strlit("stars");
    reveal_strlit("colors");
    assert("stars"@.len() == 5);
    assert("colors"@.len() == 6);
}

} // verus!
