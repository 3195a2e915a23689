//! The driver: it holds at most one domain and exactly one effect, and
//! sequences the effect's hooks over the domain, tick by tick.

use vstd::prelude::*;
use crate::buffers::{BufferStore, BufferView};
use crate::domain::{
    all_within, decayed, layout_len, painted, rendered, Domain, DomainView, Stroke,
};
use crate::effect::{lemma_ready_runs, lemma_started_is_ready, Effect};
use crate::error::EffectError;
use crate::filters::Filters;
use crate::timing::TimeInfo;

verus! {

/// Runs one effect on the domain mounted into it.
pub struct Driver {
    domain: Option<Domain>,
    buffers: BufferStore,
    filters: Filters,
    program: Effect,
    started: bool,
    mounted_at: u64,
    last_step: u64,
}

/// What a driver is, to contracts.
pub struct DriverView {
    /// The domain held, if one is mounted.
    pub domain: Option<DomainView>,
    /// What the effect's buffers hold.
    pub buffers: Map<Seq<char>, BufferView>,
    /// The effect's masks.
    pub filters: Map<Seq<char>, Seq<usize>>,
    /// The effect that the driver runs.
    pub program: Effect,
    /// Whether the effect's startup hook has run since the mount.
    pub started: bool,
    /// When the domain was mounted.
    pub mounted_at: u64,
    /// When the last tick began; before the first tick, when the domain was
    /// mounted.
    pub last_step: u64,
}

impl View for Driver {
    type V = DriverView;

    closed spec fn view(&self) -> DriverView {
        DriverView {
            domain: match self.domain {
                Some(d) => Some(d@),
                None => None,
            },
            buffers: self.buffers@,
            filters: self.filters@,
            program: self.program,
            started: self.started,
            mounted_at: self.mounted_at,
            last_step: self.last_step,
        }
    }
}

impl DriverView {
    /// Buffers and masks exist only while a domain is mounted and the effect
    /// has started, and the buffers are then in the shape in which the effect
    /// runs.
    pub open spec fn coherent(self) -> bool {
        &&& self.started ==> self.domain is Some && self.program.ready(self.buffers)
        &&& !self.started ==> self.buffers == Map::<Seq<char>, BufferView>::empty()
            && self.filters == Map::<Seq<char>, Seq<usize>>::empty()
    }

    /// What one tick at time `now` makes of a driver that holds a domain, and
    /// the strokes it returns: the effect has started, the buffers have gone
    /// through the hooks, every colour has faded by the effect's factor, and
    /// the strokes are those that the draw hook derives from the buffers as
    /// the compute hook left them.
    pub open spec fn stepped(self, after: DriverView, now: u64, strokes: Seq<Stroke>) -> bool {
        let time = TimeInfo::measured(self.mounted_at, self.last_step, now);
        let before = self.domain->Some_0;
        &&& after.started
        &&& after.program == self.program
        &&& after.filters == self.filters
        &&& after.mounted_at == self.mounted_at
        &&& after.last_step == now
        &&& self.ticked(after.buffers, time)
        &&& after.domain == Some(
            DomainView { colors: decayed(before.colors, self.program.decay()), ..before },
        )
        &&& Ok::<Seq<Stroke>, EffectError>(strokes) == self.program.drawn(
            after.buffers,
            before.center,
            time,
        )
    }

    /// A driver for `program` that has never held a domain.
    pub open spec fn idle(program: Effect) -> DriverView {
        DriverView {
            domain: None,
            buffers: Map::empty(),
            filters: Map::empty(),
            program,
            started: false,
            mounted_at: 0,
            last_step: 0,
        }
    }

    /// Why a tick is refused, if it is.
    pub open spec fn step_refusal(self) -> Option<EffectError> {
        if self.domain is None {
            Some(EffectError::NotMounted)
        } else {
            None
        }
    }

    /// Why a mount is refused, if it is.
    pub open spec fn mount_refusal(self) -> Option<EffectError> {
        if self.domain is Some {
            Some(EffectError::AlreadyMounted)
        } else {
            None
        }
    }

    /// The driver after it has taken `domain` at time `now`.
    pub open spec fn mounted(self, domain: DomainView, now: u64) -> DriverView {
        DriverView { domain: Some(domain), started: false, mounted_at: now, last_step: now, ..self }
    }

    /// What a dismount hands back.
    pub open spec fn released(self) -> Result<DomainView, EffectError> {
        match self.domain {
            Some(d) => Ok(d),
            None => Err(EffectError::NotMounted),
        }
    }

    /// The driver after it has handed its domain back.
    pub open spec fn dismounted(self) -> DriverView {
        DriverView {
            domain: None,
            buffers: Map::empty(),
            filters: Map::empty(),
            started: false,
            ..self
        }
    }

    /// What the hooks that run before `draw` make of the buffers in one tick:
    /// on the first tick after a mount `startup` and then `compute`, on later
    /// ticks `compute` alone.
    pub open spec fn ticked(self, after: Map<Seq<char>, BufferView>, time: TimeInfo) -> bool {
        let center = self.domain->Some_0.center;
        if self.started {
            self.program.computed(self.buffers, after, center, time)
        } else {
            exists|fresh: Map<Seq<char>, BufferView>|
                self.program.started(Map::empty(), fresh, center) && self.program.computed(
                    fresh,
                    after,
                    center,
                    time,
                )
        }
    }
}

impl Driver {
    /// The driver's state is coherent and its parts are well formed.
    pub closed spec fn wf(&self) -> bool {
        &&& self.buffers.wf()
        &&& self.filters.wf()
        &&& self@.coherent()
        &&& match self.domain {
            Some(d) => d.wf(),
            None => true,
        }
    }

    /// A well-formed driver is coherent, and so is the domain it holds.
    pub proof fn lemma_wf_is_coherent(&self)
        requires
            self.wf(),
        ensures
            self@.coherent(),
            self@.domain is Some ==> self@.domain->Some_0.colors.len() == layout_len(
                self@.domain->Some_0.layout,
            ) && self@.domain->Some_0.center.in_field(),
    {
    }

    /// A driver for `program`, with nothing mounted.
    pub fn new(program: Effect) -> (d: Driver)
        ensures
            d.wf(),
            d@ == DriverView::idle(program),
    {
        Driver {
            domain: None,
            buffers: BufferStore::new(),
            filters: Filters::new(),
            program,
            started: false,
            mounted_at: 0,
            last_step: 0,
        }
    }

    /// Whether a domain is mounted.
    pub fn is_mounted(&self) -> (b: bool)
        ensures
            b == self@.domain is Some,
    {
        self.domain.is_some()
    }

    /// Whether the effect's startup hook has run since the mount.
    pub fn is_started(&self) -> (b: bool)
        ensures
            b == self@.started,
    {
        self.started
    }

    /// The effect that the driver runs.
    pub fn effect(&self) -> (e: Effect)
        ensures
            e == self@.program,
    {
        self.program
    }

    /// The mounted domain, if there is one.
    pub fn domain(&self) -> (d: Option<&Domain>)
        ensures
            match d {
                Some(domain) => self@.domain == Some(domain@),
                None => self@.domain is None,
            },
    {
        match &self.domain {
            Some(d) => Some(d),
            None => None,
        }
    }

    /// The effect's buffers, to show their values.
    pub fn buffers(&self) -> (b: &BufferStore)
        ensures
            b@ == self@.buffers,
    {
        &self.buffers
    }

    /// The effect's masks, to show them.
    pub fn filters(&self) -> (f: &Filters)
        ensures
            f@ == self@.filters,
    {
        &self.filters
    }

    /// Takes ownership of `domain` at time `now`. A driver that already holds
    /// a domain refuses, changes nothing and hands `domain` back. Otherwise
    /// the effect will start anew on the next tick.
    pub fn mount(&mut self, domain: Domain, now: u64) -> (r: Result<(), (EffectError, Domain)>)
        requires
            old(self).wf(),
            domain.wf(),
        ensures
            final(self).wf(),
            match old(self)@.mount_refusal() {
                Some(e) => r == Err::<(), (EffectError, Domain)>((e, domain)) && final(self)@
                    == old(self)@,
                None => r == Ok::<(), (EffectError, Domain)>(()) && final(self)@ == old(self)@.mounted(domain@, now),
            },
    {
        if self.domain.is_some() {
            return Err((EffectError::AlreadyMounted, domain));
        }
        self.domain = Some(domain);
        self.started = false;
        self.mounted_at = now;
        self.last_step = now;
        Ok(())
    }

    /// Hands the domain back and clears the effect's buffers and masks, so
    /// that no state reaches the next effect. Fails if nothing is mounted.
    pub fn dismount(&mut self) -> (r: Result<Domain, EffectError>)
        requires
            old(self).wf(),
        ensures
            final(self).wf(),
            match r {
                Ok(domain) => old(self)@.released() == Ok::<DomainView, EffectError>(domain@)
                    && domain.wf() && final(self)@ == old(self)@.dismounted(),
                Err(e) => old(self)@.released() == Err::<DomainView, EffectError>(e) && final(self)@ == old(self)@,
            },
    {
        match self.domain.take() {
            None => Err(EffectError::NotMounted),
            Some(domain) => {
                self.buffers.clear();
                self.filters.clear();
                self.started = false;
                Ok(domain)
            },
        }
    }

    /// Runs one tick at time `now`: on the first tick after a mount the
    /// startup hook, then on every tick the compute hook and, once that is
    /// done, the draw hook. Returns the frame's strokes, to be resolved
    /// against the layout and handed to [`Driver::paint`]. Fails, and changes
    /// nothing, if no domain is mounted.
    pub fn step(&mut self, now: u64) -> (r: Result<Vec<Stroke>, EffectError>)
        requires
            old(self).wf(),
        ensures
            final(self).wf(),
            match old(self)@.step_refusal() {
                Some(e) => r == Err::<Vec<Stroke>, EffectError>(e) && final(self)@ == old(self)@,
                None => r is Ok && old(self)@.stepped(final(self)@, now, r->Ok_0@),
            },
    {
        let mut domain: Domain = match self.domain.take() {
            None => {
                return Err(EffectError::NotMounted);
            },
            Some(d) => d,
        };
        let center = domain.center();
        if !self.started {
            match self.program.startup(center, &mut self.buffers, &mut self.filters) {
                Err(e) => {
                    self.domain = Some(domain);
                    return Err(e);
                },
                Ok(_) => {},
            }
            self.started = true;
            proof {
                lemma_started_is_ready(self.program, self.buffers@, center);
            }
        }
        let ghost ready = self.buffers@;
        let time: TimeInfo = TimeInfo::measure(self.mounted_at, self.last_step, now);
        self.last_step = now;
        let computed = self.program.compute(center, &mut self.buffers, &mut self.filters, &time);
        proof {
            lemma_ready_runs(self.program, ready, self.buffers@, center, time);
            lemma_ready_runs(self.program, self.buffers@, self.buffers@, center, time);
        }
        match computed {
            Err(e) => {
                self.domain = Some(domain);
                return Err(e);
            },
            Ok(_) => {},
        }
        let drawn = self.program.draw(&mut domain, &self.buffers, &self.filters, &time);
        self.domain = Some(domain);
        drawn
    }

    /// Lets `stroke` touch the LEDs `leds` of the mounted domain, in the
    /// order given. Fails, and paints nothing, if no domain is mounted or an
    /// index names no LED.
    pub fn paint(&mut self, stroke: &Stroke, leds: &Vec<usize>) -> (r: Result<(), EffectError>)
        requires
            old(self).wf(),
        ensures
            final(self).wf(),
            match old(self)@.domain {
                None => r == Err::<(), EffectError>(EffectError::NotMounted) && final(self)@ == old(self)@,
                Some(before) => if all_within(leds@, before.colors.len()) {
                    r == Ok::<(), EffectError>(()) && final(self)@ == (DriverView {
                        domain: Some(
                            DomainView { colors: painted(before.colors, *stroke, leds@), ..before },
                        ),
                        ..old(self)@
                    })
                } else {
                    r == Err::<(), EffectError>(EffectError::IndexOutOfRange) && final(self)@
                        == old(self)@
                },
            },
    {
        let mut domain: Domain = match self.domain.take() {
            None => {
                return Err(EffectError::NotMounted);
            },
            Some(d) => d,
        };
        let r = domain.paint(stroke, leds);
        self.domain = Some(domain);
        r
    }

    /// The frame as byte triples, one per LED, in LED order. Fails if no
    /// domain is mounted.
    pub fn frame(&self) -> (r: Result<Vec<(u8, u8, u8)>, EffectError>)
        ensures
            match self@.domain {
                None => r == Err::<Vec<(u8, u8, u8)>, EffectError>(EffectError::NotMounted),
                Some(d) => r is Ok && r->Ok_0@ == rendered(d.colors),
            },
    {
        match &self.domain {
            None => Err(EffectError::NotMounted),
            Some(d) => Ok(d.frame()),
        }
    }
}

/// Mounting and then dismounting hands back the very domain that was
/// mounted: the same layout, hence the same LEDs at the same positions, and
/// the same colours. This holds for every effect.
pub proof fn law_mount_then_dismount_returns_the_domain(
    driver: DriverView,
    domain: DomainView,
    now: u64,
)
    requires
        driver.domain is None,
    ensures
        driver.mount_refusal() is None,
        driver.mounted(domain, now).released() == Ok::<DomainView, EffectError>(domain),
        driver.mounted(domain, now).dismounted().domain is None,
{
}

/// A driver never holds two domains: once it has taken one, a second mount
/// is refused until the first is dismounted, while ticks are accepted; and
/// with nothing mounted a dismount and a tick are refused.
pub proof fn law_mount_and_dismount_alternate(driver: DriverView, domain: DomainView, now: u64)
    ensures
        driver.mounted(domain, now).mount_refusal() == Some(EffectError::AlreadyMounted),
        driver.mounted(domain, now).step_refusal() is None,
        driver.dismounted().released() == Err::<DomainView, EffectError>(EffectError::NotMounted),
        driver.dismounted().step_refusal() == Some(EffectError::NotMounted),
        driver.dismounted().mount_refusal() is None,
{
}

/// A tick changes colours and buffers, never the LEDs: the driver stays
/// coherent and the domain keeps its layout, hence every LED its position,
/// its centre and its number of LEDs.
pub proof fn law_a_tick_keeps_the_leds(
    before: DriverView,
    after: DriverView,
    now: u64,
    strokes: Seq<Stroke>,
)
    requires
        before.coherent(),
        before.domain is Some,
        before.stepped(after, now, strokes),
    ensures
        after.coherent(),
        after.domain is Some,
        after.domain->Some_0.layout == before.domain->Some_0.layout,
        after.domain->Some_0.center == before.domain->Some_0.center,
        after.domain->Some_0.colors.len() == before.domain->Some_0.colors.len(),
{
    let time = TimeInfo::measured(before.mounted_at, before.last_step, now);
    let center = before.domain->Some_0.center;
    if before.started {
        lemma_ready_runs(before.program, before.buffers, after.buffers, center, time);
    } else {
        let fresh = choose|fresh: Map<Seq<char>, BufferView>|
            before.program.started(Map::empty(), fresh, center) && before.program.computed(
                fresh,
                after.buffers,
                center,
                time,
            );
        lemma_started_is_ready(before.program, fresh, center);
        lemma_ready_runs(before.program, fresh, after.buffers, center, time);
    }
}

/// Before its first mount a driver runs nothing: a tick and a dismount are
/// refused because nothing is mounted, and a mount is accepted.
pub proof fn law_nothing_runs_before_a_mount(program: Effect)
    ensures
        DriverView::idle(program).step_refusal() == Some(EffectError::NotMounted),
        DriverView::idle(program).released() == Err::<DomainView, EffectError>(
            EffectError::NotMounted,
        ),
        DriverView::idle(program).mount_refusal() is None,
        DriverView::idle(program).coherent(),
{
}

} // verus!
