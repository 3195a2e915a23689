//! The spatial domain: an outside layout of LEDs together with the colour of
//! each LED, and the strokes by which an effect paints it.
//!
//! The layout knows where every LED lies and answers spatial queries; this
//! crate keeps the colours, as integers, and leaves the queries to whoever
//! holds the layout: an effect emits strokes, the caller resolves each
//! stroke's target to LED indices and hands them back to be painted.

use vstd::prelude::*;
use crate::color::Color;
use crate::error::EffectError;
use crate::geometry::Point;

verus! {

#[verifier::external_type_specification]
#[verifier::external_body]
pub struct ExSled(spatial_led::Sled);

/// The number of LEDs in a layout.
pub uninterp spec fn layout_len(layout: spatial_led::Sled) -> nat;

/// Calls `Sled::num_leds`, which returns the number of LEDs that the layout
/// was built with. Nothing more is claimed than that this number is the
/// layout's length.
#[verifier::external_body]
fn led_count(layout: &spatial_led::Sled) -> (n: usize)
    ensures
        n == layout_len(*layout),
{
    layout.num_leds()
}

/// Which LEDs a stroke touches. The layout resolves a target to indices.
#[derive(Clone, Copy, Debug, PartialEq, Eq, Structural)]
pub enum Target {
    /// The LEDs that lie in direction `(dx, dy)` from the centre.
    Direction { dx: i64, dy: i64 },
    /// The LEDs that lie at this angle from the centre, in millionths of a
    /// radian.
    Angle { microradians: u32 },
    /// The LEDs at this distance from the centre, in millionths of a layout
    /// unit.
    Distance { micro: u64 },
}

/// How a stroke's colour meets the colour already on an LED.
#[derive(Clone, Copy, Debug, PartialEq, Eq, Structural)]
pub enum Blend {
    /// The stroke's colour is added to what is there.
    Add,
    /// The stroke's colour replaces what is there.
    Replace,
}

/// One contribution of an effect to a frame.
#[derive(Clone, Copy, Debug, PartialEq, Eq, Structural)]
pub struct Stroke {
    pub target: Target,
    pub blend: Blend,
    pub color: Color,
}

impl Stroke {
    /// The colour of an LED that showed `under` once the stroke has touched it.
    pub open spec fn mixed(self, under: Color) -> Color {
        match self.blend {
            Blend::Add => under.plus(self.color),
            Blend::Replace => self.color,
        }
    }

    /// Applies the stroke to one colour.
    pub fn mix(&self, under: &Color) -> (c: Color)
        ensures
            c == self.mixed(*under),
    {
        match self.blend {
            Blend::Add => under.brighten(&self.color),
            Blend::Replace => self.color,
        }
    }
}

/// The colours after a stroke has touched the LEDs `leds`, one after the
/// other. An index that occurs twice is touched twice; one that names no LED
/// touches nothing.
pub open spec fn painted(colors: Seq<Color>, stroke: Stroke, leds: Seq<usize>) -> Seq<Color>
    decreases leds.len(),
{
    if leds.len() == 0 {
        colors
    } else {
        let before = painted(colors, stroke, leds.drop_last());
        let i = leds.last() as int;
        if i < before.len() {
            before.update(i, stroke.mixed(before[i]))
        } else {
            before
        }
    }
}

/// Every colour multiplied by `factor` thousandths.
pub open spec fn decayed(colors: Seq<Color>, factor: u32) -> Seq<Color> {
    Seq::new(colors.len(), |i: int| colors[i].faded(factor))
}

/// The colours as the byte triples a strip takes, in LED order.
pub open spec fn rendered(colors: Seq<Color>) -> Seq<(u8, u8, u8)> {
    Seq::new(colors.len(), |i: int| colors[i].bytes())
}

/// Whether every index names an LED of a domain with `len` LEDs.
pub open spec fn all_within(leds: Seq<usize>, len: nat) -> bool {
    forall|i: int| 0 <= i < leds.len() ==> leds[i] < len
}

/// Painting changes colours, never their number.
pub proof fn lemma_painted_len(colors: Seq<Color>, stroke: Stroke, leds: Seq<usize>)
    ensures
        painted(colors, stroke, leds).len() == colors.len(),
    decreases leds.len(),
{
    if leds.len() > 0 {
        lemma_painted_len(colors, stroke, leds.drop_last());
    }
}

/// A layout with the colour that each of its LEDs currently shows.
#[derive(Debug)]
pub struct Domain {
    layout: spatial_led::Sled,
    center: Point,
    colors: Vec<Color>,
}

/// What a domain is, to contracts.
pub struct DomainView {
    pub layout: spatial_led::Sled,
    pub center: Point,
    pub colors: Seq<Color>,
}

impl View for Domain {
    type V = DomainView;

    closed spec fn view(&self) -> DomainView {
        DomainView { layout: self.layout, center: self.center, colors: self.colors@ }
    }
}

impl Domain {
    /// One colour per LED of the layout, and a centre within the field.
    pub open spec fn wf(&self) -> bool {
        self@.colors.len() == layout_len(self@.layout) && self@.center.in_field()
    }

    /// A domain over `layout` with every LED dark. `center` is the layout's
    /// reference point; a centre outside the field is refused.
    pub fn new(layout: spatial_led::Sled, center: Point) -> (r: Option<Domain>)
        ensures
            center.in_field() == r is Some,
            match r {
                Some(d) => d.wf() && d@.layout == layout && d@.center == center && d@.colors
                    == Seq::new(layout_len(layout), |i: int| Color { red: 0, green: 0, blue: 0 }),
                None => true,
            },
    {
        if !center.is_in_field() {
            return None;
        }
        let n: usize = led_count(&layout);
        let mut colors: Vec<Color> = Vec::new();
        let mut i: usize = 0;
        while i < n
            invariant
                i <= n,
                colors@ == Seq::new(i as nat, |k: int| Color { red: 0, green: 0, blue: 0 }),
            decreases n - i,
        {
            colors.push(Color::black());
            i += 1;
            assert(colors@ =~= Seq::new(i as nat, |k: int| Color { red: 0, green: 0, blue: 0 }));
        }
        Some(Domain { layout, center, colors })
    }

    /// The number of LEDs.
    pub fn len(&self) -> (n: usize)
        ensures
            n == self@.colors.len(),
    {
        self.colors.len()
    }

    /// The layout's reference point.
    pub fn center(&self) -> (c: Point)
        ensures
            c == self@.center,
    {
        self.center
    }

    /// The layout, for spatial queries.
    pub fn layout(&self) -> (l: &spatial_led::Sled)
        ensures
            *l == self@.layout,
    {
        &self.layout
    }

    /// The colour of each LED, in LED order.
    pub fn colors(&self) -> (c: &Vec<Color>)
        ensures
            c@ == self@.colors,
    {
        &self.colors
    }

    /// Multiplies every colour by `factor` thousandths.
    pub fn decay(&mut self, factor: u32)
        ensures
            final(self)@.layout == old(self)@.layout,
            final(self)@.center == old(self)@.center,
            final(self)@.colors == decayed(old(self)@.colors, factor),
            final(self)@.colors.len() == old(self)@.colors.len(),
    {
        let n: usize = self.colors.len();
        let mut i: usize = 0;
        while i < n
            invariant
                i <= n,
                n == self.colors.len(),
                self.colors.len() == old(self).colors.len(),
                self.layout == old(self).layout,
                self.center == old(self).center,
                forall|k: int| 0 <= k < i ==> self.colors@[k] == old(self).colors@[k].faded(factor),
                forall|k: int| i <= k < n ==> self.colors@[k] == old(self).colors@[k],
            decreases n - i,
        {
            let c: Color = self.colors[i].fade(factor);
            self.colors.set(i, c);
            i += 1;
        }
        assert(self.colors@ =~= decayed(old(self).colors@, factor));
    }

    /// Lets `stroke` touch the LEDs `leds`, in the order given. If an index
    /// names no LED, nothing is painted.
    pub fn paint(&mut self, stroke: &Stroke, leds: &Vec<usize>) -> (r: Result<(), EffectError>)
        ensures
            final(self)@.layout == old(self)@.layout,
            final(self)@.center == old(self)@.center,
            final(self)@.colors.len() == old(self)@.colors.len(),
            all_within(leds@, old(self)@.colors.len()) ==> r == Ok::<(), EffectError>(())
                && final(self)@.colors == painted(old(self)@.colors, *stroke, leds@),
            !all_within(leds@, old(self)@.colors.len()) ==> r == Err::<(), EffectError>(
                EffectError::IndexOutOfRange,
            ) && final(self)@.colors == old(self)@.colors,
    {
        let n: usize = self.colors.len();
        let mut k: usize = 0;
        while k < leds.len()
            invariant
                k <= leds.len(),
                n == self.colors.len(),
                *self == *old(self),
                forall|j: int| 0 <= j < k ==> leds@[j] < n,
            decreases leds.len() - k,
        {
            if leds[k] >= n {
                return Err(EffectError::IndexOutOfRange);
            }
            k += 1;
        }
        let mut k: usize = 0;
        while k < leds.len()
            invariant
                k <= leds.len(),
                n == self.colors.len(),
                n == old(self).colors.len(),
                self.layout == old(self).layout,
                self.center == old(self).center,
                all_within(leds@, n as nat),
                self.colors@ == painted(old(self).colors@, *stroke, leds@.take(k as int)),
            decreases leds.len() - k,
        {
            let i: usize = leds[k];
            let c: Color = stroke.mix(&self.colors[i]);
            self.colors.set(i, c);
            proof {
                assert(leds@.take(k + 1).drop_last() =~= leds@.take(k as int));
                assert(leds@.take(k + 1).last() == leds@[k as int]);
            }
            k += 1;
        }
        proof {
            assert(leds@.take(leds.len() as int) =~= leds@);
            lemma_painted_len(old(self).colors@, *stroke, leds@);
        }
        Ok(())
    }

    /// The frame as byte triples, one per LED, in LED order.
    pub fn frame(&self) -> (f: Vec<(u8, u8, u8)>)
        ensures
            f@ == rendered(self@.colors),
    {
        let mut f: Vec<(u8, u8, u8)> = Vec::new();
        let mut i: usize = 0;
        while i < self.colors.len()
            invariant
                i <= self.colors.len(),
                f@ == rendered(self.colors@.take(i as int)),
            decreases self.colors.len() - i,
        {
            f.push(self.colors[i].to_bytes());
            i += 1;
            assert(f@ =~= rendered(self.colors@.take(i as int)));
        }
        assert(self.colors@.take(self.colors.len() as int) =~= self.colors@);
        f
    }
}

} // verus!
