//! The interactive switcher: one driver per effect, a cursor over the list
//! of effects, and the keys that move the cursor, pause and resume the
//! active effect, and hand the domain from one driver to another.

use vstd::prelude::*;
use vstd::string::StringExecFns;
use crate::comet;
use crate::domain::{all_within, painted, rendered, Domain, DomainView, Stroke};
use crate::driver::{Driver, DriverView};
use crate::effect::{Effect, EFFECTS};
use crate::error::EffectError;
use crate::ripples;
use crate::timing::{span, span_between};
use crate::warpspeed;

verus! {

/// The display is redrawn when more than this many nanoseconds have passed
/// since it was last drawn: forty times a second at most.
pub const REDRAW_INTERVAL: u64 = 25_000_000;

/// The panel that takes the keys.
#[derive(Clone, Copy, Debug, PartialEq, Eq, Structural)]
pub enum SelectableWidget {
    Effects,
    Settings,
}

/// A key press.
#[derive(Clone, Copy, Debug, PartialEq, Eq, Structural)]
pub enum Key {
    Char(char),
    Up,
    Down,
    Left,
    Right,
    Enter,
    Other,
}

/// What the caller is to do after a heartbeat.
pub struct Beat {
    /// What to show, if the display is due to be redrawn: the state as the
    /// key left it, before the tick.
    pub screen: Option<Screen>,
    /// The strokes of the tick, to be resolved and painted; `None` while
    /// paused, when no tick ran.
    pub strokes: Option<Vec<Stroke>>,
}

/// What the display shows.
pub struct Screen {
    /// The names of the effects, in list order.
    pub items: Vec<&'static str>,
    /// The place of the cursor in the list.
    pub selected: usize,
    /// Whether the list is set in italics.
    pub list_italic: bool,
    /// Whether the entry under the cursor is set bold; it is shown reversed
    /// otherwise.
    pub highlight_bold: bool,
    /// What stands before the entry under the cursor.
    pub highlight_symbol: &'static str,
    /// The title of the effects panel.
    pub effects_title: &'static str,
    /// Whether the effects panel takes the keys.
    pub effects_focused: bool,
    /// The title of the preview: the active effect and whether it runs.
    pub visualizer_title: String,
    /// Whether the settings panel takes the keys.
    pub settings_focused: bool,
    /// The colour of each LED, in LED order.
    pub leds: Vec<(u8, u8, u8)>,
}

/// The switcher.
pub struct App {
    should_quit: bool,
    should_pause: bool,
    selected_widget: SelectableWidget,
    comet: Driver,
    ripples: Driver,
    warpspeed: Driver,
    current_effect: Effect,
    cursor: usize,
    last_draw: u64,
}

/// What the switcher is, to contracts.
pub struct AppView {
    pub should_quit: bool,
    pub should_pause: bool,
    pub selected_widget: SelectableWidget,
    pub comet: DriverView,
    pub ripples: DriverView,
    pub warpspeed: DriverView,
    /// The effect whose driver holds the domain.
    pub current_effect: Effect,
    /// The place of the cursor in the list of effects.
    pub cursor: usize,
    /// When the display was last drawn.
    pub last_draw: u64,
}

impl View for App {
    type V = AppView;

    closed spec fn view(&self) -> AppView {
        AppView {
            should_quit: self.should_quit,
            should_pause: self.should_pause,
            selected_widget: self.selected_widget,
            comet: self.comet@,
            ripples: self.ripples@,
            warpspeed: self.warpspeed@,
            current_effect: self.current_effect,
            cursor: self.cursor,
            last_draw: self.last_draw,
        }
    }
}

impl AppView {
    /// The driver of an effect.
    pub open spec fn driver(self, effect: Effect) -> DriverView {
        match effect {
            Effect::Comet => self.comet,
            Effect::Ripples => self.ripples,
            Effect::Warpspeed => self.warpspeed,
        }
    }

    /// The switcher with `driver` in the place of the driver of `effect`.
    pub open spec fn with_driver(self, effect: Effect, driver: DriverView) -> AppView {
        match effect {
            Effect::Comet => AppView { comet: driver, ..self },
            Effect::Ripples => AppView { ripples: driver, ..self },
            Effect::Warpspeed => AppView { warpspeed: driver, ..self },
        }
    }

    /// The domain, which the active driver holds.
    pub open spec fn domain(self) -> DomainView {
        self.driver(self.current_effect).domain->Some_0
    }

    /// Whether the driver of `effect` runs that effect, is coherent, and
    /// holds the domain exactly if the effect is the active one.
    pub open spec fn keeps(self, effect: Effect) -> bool {
        &&& self.driver(effect).program == effect
        &&& self.driver(effect).coherent()
        &&& self.driver(effect).domain is Some <==> effect == self.current_effect
    }

    /// The domain is mounted in exactly one driver, that of the active
    /// effect, and the cursor is on the list.
    pub open spec fn coherent(self) -> bool {
        &&& self.cursor < EFFECTS
        &&& self.keeps(Effect::Comet)
        &&& self.keeps(Effect::Ripples)
        &&& self.keeps(Effect::Warpspeed)
    }

    /// The effect under the cursor.
    pub open spec fn chosen(self) -> Effect {
        Effect::placed(self.cursor as nat)
    }

    /// After the cursor has moved one entry down (`forward`) or up, round the
    /// ends of the list: the cursor has moved and the effect is paused.
    pub open spec fn moved(self, forward: bool) -> AppView {
        AppView {
            should_pause: true,
            cursor: if forward {
                ((self.cursor + 1) % 3) as usize
            } else {
                ((self.cursor + 2) % 3) as usize
            },
            ..self
        }
    }

    /// After the domain has gone from the active driver to that of `effect`
    /// at time `now`.
    pub open spec fn handed_to(self, effect: Effect, now: u64) -> AppView {
        let from = self.current_effect;
        let released = self.with_driver(from, self.driver(from).dismounted());
        AppView {
            current_effect: effect,
            ..released.with_driver(effect, released.driver(effect).mounted(self.domain(), now))
        }
    }

    /// After the entry under the cursor has been confirmed at time `now`: on
    /// the active effect the pause flag flips; on another, the domain goes to
    /// that effect's driver, which becomes the active one and runs at once,
    /// and the settings panel takes the keys.
    pub open spec fn confirmed(self, now: u64) -> AppView {
        if self.chosen() == self.current_effect {
            AppView { should_pause: !self.should_pause, ..self }
        } else {
            AppView {
                should_pause: false,
                selected_widget: SelectableWidget::Settings,
                ..self.handed_to(self.chosen(), now)
            }
        }
    }

    /// After a key that the effects panel took.
    pub open spec fn keyed_in_effects(self, key: Key, now: u64) -> AppView {
        match key {
            Key::Down => self.moved(true),
            Key::Up => self.moved(false),
            Key::Enter => self.confirmed(now),
            Key::Right => AppView { selected_widget: SelectableWidget::Settings, ..self },
            _ => self,
        }
    }

    /// After a key that the settings panel took.
    pub open spec fn keyed_in_settings(self, key: Key) -> AppView {
        match key {
            Key::Left => AppView { selected_widget: SelectableWidget::Effects, ..self },
            _ => self,
        }
    }

    /// After a key press at time `now`: `q` asks to quit, every other key
    /// goes to the panel that takes the keys.
    pub open spec fn keyed(self, key: Key, now: u64) -> AppView {
        if key == Key::Char('q') {
            AppView { should_quit: true, ..self }
        } else {
            match self.selected_widget {
                SelectableWidget::Effects => self.keyed_in_effects(key, now),
                SelectableWidget::Settings => self.keyed_in_settings(key),
            }
        }
    }

    /// Whether the display is due to be redrawn at time `now`.
    pub open spec fn redraw_due(self, now: u64) -> bool {
        span(self.last_draw, now) > REDRAW_INTERVAL
    }

    /// Whether `screen` shows this state.
    pub open spec fn shown(self, screen: Screen) -> bool {
        &&& screen.items@.len() == 3
        &&& forall|i: int| 0 <= i < 3 ==> (#[trigger] screen.items@[i])@ == Effect::placed(i as nat).name()
        &&& screen.selected == self.cursor
        &&& screen.list_italic == self.should_pause
        &&& screen.highlight_bold == self.should_pause
        &&& screen.highlight_symbol@ == (if self.should_pause {
            " > "@
        } else {
            "   "@
        })
        &&& screen.effects_title@ == (if self.should_pause {
            " Effects* "@
        } else {
            " Effects "@
        })
        &&& screen.effects_focused == (self.selected_widget == SelectableWidget::Effects)
        &&& screen.settings_focused == (self.selected_widget == SelectableWidget::Settings)
        &&& screen.visualizer_title@ == self.visualizer_title()
        &&& screen.leds@ == rendered(self.domain().colors)
    }

    /// The switcher as it begins at time `now`: the domain is mounted in the
    /// driver of the first effect of the list, which runs; the cursor is on
    /// it; and the effects panel takes the keys.
    pub open spec fn opened(domain: DomainView, now: u64) -> AppView {
        AppView {
            should_quit: false,
            should_pause: false,
            selected_widget: SelectableWidget::Effects,
            comet: DriverView::idle(Effect::Comet).mounted(domain, now),
            ripples: DriverView::idle(Effect::Ripples),
            warpspeed: DriverView::idle(Effect::Warpspeed),
            current_effect: Effect::Comet,
            cursor: 0,
            last_draw: now,
        }
    }

    /// The title of the preview.
    pub open spec fn visualizer_title(self) -> Seq<char> {
        " "@ + self.current_effect.name() + " ["@ + (if self.should_pause {
            "PAUSED"@
        } else {
            "RUNNING"@
        }) + "] "@
    }
}

impl App {
    /// The switcher's state is coherent and its drivers are well formed.
    pub closed spec fn wf(&self) -> bool {
        &&& self@.coherent()
        &&& self.comet.wf()
        &&& self.ripples.wf()
        &&& self.warpspeed.wf()
    }

    /// In a well-formed switcher exactly one driver holds the domain: that of
    /// the active effect.
    pub proof fn lemma_wf_is_coherent(&self)
        requires
            self.wf(),
        ensures
            self@.coherent(),
    {
    }

    /// A switcher with a driver for every effect. The domain is mounted, at
    /// time `now`, into the driver of the first effect of the list, which
    /// runs, and the cursor is on it.
    pub fn new(domain: Domain, now: u64) -> (app: App)
        requires
            domain.wf(),
        ensures
            app.wf(),
            app@ == AppView::opened(domain@, now),
    {
        let mut first: Driver = comet::build_driver();
        match first.mount(domain, now) {
            Ok(_) => {},
            Err(_) => {},
        }
        App {
            should_quit: false,
            should_pause: false,
            selected_widget: SelectableWidget::Effects,
            comet: first,
            ripples: ripples::build_driver(),
            warpspeed: warpspeed::build_driver(),
            current_effect: Effect::Comet,
            cursor: 0,
            last_draw: now,
        }
    }

    /// Whether a key has asked to quit.
    pub fn should_quit(&self) -> (b: bool)
        ensures
            b == self@.should_quit,
    {
        self.should_quit
    }

    /// Whether the active effect is paused.
    pub fn should_pause(&self) -> (b: bool)
        ensures
            b == self@.should_pause,
    {
        self.should_pause
    }

    /// The effect whose driver holds the domain.
    pub fn current_effect(&self) -> (e: Effect)
        ensures
            e == self@.current_effect,
    {
        self.current_effect
    }

    /// The place of the cursor in the list of effects.
    pub fn selected(&self) -> (i: usize)
        ensures
            i == self@.cursor,
    {
        self.cursor
    }

    /// The panel that takes the keys.
    pub fn selected_widget(&self) -> (w: SelectableWidget)
        ensures
            w == self@.selected_widget,
    {
        self.selected_widget
    }

    /// The driver of an effect.
    pub fn driver(&self, effect: Effect) -> (d: &Driver)
        ensures
            d@ == self@.driver(effect),
    {
        match effect {
            Effect::Comet => &self.comet,
            Effect::Ripples => &self.ripples,
            Effect::Warpspeed => &self.warpspeed,
        }
    }

    fn hand_to(&mut self, effect: Effect, now: u64)
        requires
            old(self).wf(),
            effect != old(self)@.current_effect,
        ensures
            final(self).wf(),
            final(self)@ == old(self)@.handed_to(effect, now),
    {
        let released = match self.current_effect {
            Effect::Comet => self.comet.dismount(),
            Effect::Ripples => self.ripples.dismount(),
            Effect::Warpspeed => self.warpspeed.dismount(),
        };
        match released {
            Err(_) => {},
            Ok(domain) => {
                let taken = match effect {
                    Effect::Comet => self.comet.mount(domain, now),
                    Effect::Ripples => self.ripples.mount(domain, now),
                    Effect::Warpspeed => self.warpspeed.mount(domain, now),
                };
                match taken {
                    Ok(_) => {},
                    Err(_) => {},
                }
                self.current_effect = effect;
            },
        }
    }

    /// Confirms the entry under the cursor at time `now`.
    pub fn confirm(&mut self, now: u64)
        requires
            old(self).wf(),
        ensures
            final(self).wf(),
            final(self)@ == old(self)@.confirmed(now),
    {
        let chosen: Effect = Effect::at(self.cursor);
        if chosen == self.current_effect {
            self.should_pause = !self.should_pause;
        } else {
            self.hand_to(chosen, now);
            self.selected_widget = SelectableWidget::Settings;
            self.should_pause = false;
        }
    }

    /// Handles a key that the effects panel took.
    pub fn handle_input_effects(&mut self, key: Key, now: u64)
        requires
            old(self).wf(),
        ensures
            final(self).wf(),
            final(self)@ == old(self)@.keyed_in_effects(key, now),
    {
        match key {
            Key::Down => {
                self.should_pause = true;
                self.cursor = (self.cursor + 1) % EFFECTS;
            },
            Key::Up => {
                self.should_pause = true;
                self.cursor = (self.cursor + (EFFECTS - 1)) % EFFECTS;
            },
            Key::Enter => {
                self.confirm(now);
            },
            Key::Right => {
                self.selected_widget = SelectableWidget::Settings;
            },
            _ => {},
        }
    }

    /// Handles a key that the settings panel took.
    pub fn handle_input_settings(&mut self, key: Key)
        requires
            old(self).wf(),
        ensures
            final(self).wf(),
            final(self)@ == old(self)@.keyed_in_settings(key),
    {
        match key {
            Key::Left => {
                self.selected_widget = SelectableWidget::Effects;
            },
            _ => {},
        }
    }

    /// Handles a key press at time `now`.
    pub fn handle_input(&mut self, key: Key, now: u64)
        requires
            old(self).wf(),
        ensures
            final(self).wf(),
            final(self)@ == old(self)@.keyed(key, now),
    {
        if key == Key::Char('q') {
            self.should_quit = true;
        } else {
            match self.selected_widget {
                SelectableWidget::Effects => self.handle_input_effects(key, now),
                SelectableWidget::Settings => self.handle_input_settings(key),
            }
        }
    }

    /// Lets `stroke` touch the LEDs `leds` of the domain, in the order given.
    /// Fails, and paints nothing, if an index names no LED.
    pub fn paint(&mut self, stroke: &Stroke, leds: &Vec<usize>) -> (r: Result<(), EffectError>)
        requires
            old(self).wf(),
        ensures
            final(self).wf(),
            all_within(leds@, old(self)@.domain().colors.len()) ==> r == Ok::<(), EffectError>(())
                && final(self)@ == old(self)@.with_driver(
                old(self)@.current_effect,
                DriverView {
                    domain: Some(
                        DomainView {
                            colors: painted(old(self)@.domain().colors, *stroke, leds@),
                            ..old(self)@.domain()
                        },
                    ),
                    ..old(self)@.driver(old(self)@.current_effect)
                },
            ),
            !all_within(leds@, old(self)@.domain().colors.len()) ==> r == Err::<(), EffectError>(
                EffectError::IndexOutOfRange,
            ) && final(self)@ == old(self)@,
    {
        match self.current_effect {
            Effect::Comet => self.comet.paint(stroke, leds),
            Effect::Ripples => self.ripples.paint(stroke, leds),
            Effect::Warpspeed => self.warpspeed.paint(stroke, leds),
        }
    }

    /// The frame as byte triples, one per LED, in LED order.
    pub fn frame(&self) -> (f: Vec<(u8, u8, u8)>)
        requires
            self.wf(),
        ensures
            f@ == rendered(self@.domain().colors),
    {
        let r = match self.current_effect {
            Effect::Comet => self.comet.frame(),
            Effect::Ripples => self.ripples.frame(),
            Effect::Warpspeed => self.warpspeed.frame(),
        };
        match r {
            Ok(f) => f,
            Err(_) => Vec::new(),
        }
    }

    /// What the display is to show: the list of effects with the cursor, set
    /// apart while paused, the panel that takes the keys, the preview's title
    /// and the colour of every LED.
    pub fn draw(&self) -> (screen: Screen)
        requires
            self.wf(),
        ensures
            self@.shown(screen),
    {
        let mut items: Vec<&'static str> = Vec::new();
        items.push(Effect::at(0).as_str());
        items.push(Effect::at(1).as_str());
        items.push(Effect::at(2).as_str());
        let mut title: String = String::from_str(" ");
        title.append(self.current_effect.as_str());
        title.append(" [");
        title.append(if self.should_pause {
            "PAUSED"
        } else {
            "RUNNING"
        });
        title.append("] ");
        let paused: bool = self.should_pause;
        Screen {
            items,
            selected: self.cursor,
            list_italic: paused,
            highlight_bold: paused,
            highlight_symbol: if paused {
                " > "
            } else {
                "   "
            },
            effects_title: if paused {
                " Effects* "
            } else {
                " Effects "
            },
            effects_focused: self.selected_widget == SelectableWidget::Effects,
            settings_focused: self.selected_widget == SelectableWidget::Settings,
            visualizer_title: title,
            leds: self.frame(),
        }
    }

    fn step_active(&mut self, now: u64) -> (r: Result<Vec<Stroke>, EffectError>)
        requires
            old(self).wf(),
        ensures
            final(self).wf(),
            r is Ok,
            final(self)@ == old(self)@.with_driver(
                old(self)@.current_effect,
                final(self)@.driver(old(self)@.current_effect),
            ),
            old(self)@.driver(old(self)@.current_effect).stepped(
                final(self)@.driver(old(self)@.current_effect),
                now,
                r->Ok_0@,
            ),
    {
        match self.current_effect {
            Effect::Comet => self.comet.step(now),
            Effect::Ripples => self.ripples.step(now),
            Effect::Warpspeed => self.warpspeed.step(now),
        }
    }

    /// One turn of the control loop at time `now`: the key, if one was
    /// pressed, is handled; the display is prepared if it is due; and unless
    /// the effect is paused, the active driver runs one tick. A request to
    /// quit is left for the caller to act on before the next heartbeat.
    pub fn heartbeat(&mut self, key: Option<Key>, now: u64) -> (r: Result<Beat, EffectError>)
        requires
            old(self).wf(),
        ensures
            final(self).wf(),
            r is Ok,
            ({
                let keyed = match key {
                    Some(k) => old(self)@.keyed(k, now),
                    None => old(self)@,
                };
                let active = keyed.current_effect;
                let beat = r->Ok_0;
                &&& beat.screen is Some == keyed.redraw_due(now)
                &&& beat.screen is Some ==> keyed.shown(beat.screen->Some_0)
                &&& final(self)@.last_draw == (if keyed.redraw_due(now) {
                    now
                } else {
                    keyed.last_draw
                })
                &&& beat.strokes is None == keyed.should_pause
                &&& keyed.should_pause ==> final(self)@ == (AppView {
                    last_draw: final(self)@.last_draw,
                    ..keyed
                })
                &&& !keyed.should_pause ==> final(self)@ == (AppView {
                    last_draw: final(self)@.last_draw,
                    ..keyed.with_driver(active, final(self)@.driver(active))
                }) && keyed.driver(active).stepped(
                    final(self)@.driver(active),
                    now,
                    beat.strokes->Some_0@,
                )
            }),
    {
        match key {
            Some(k) => self.handle_input(k, now),
            None => {},
        }
        let screen: Option<Screen> = if span_between(self.last_draw, now) > REDRAW_INTERVAL {
            let s: Screen = self.draw();
            self.last_draw = now;
            Some(s)
        } else {
            None
        };
        if self.should_pause {
            Ok(Beat { screen, strokes: None })
        } else {
            match self.step_active(now) {
                Err(e) => Err(e),
                Ok(strokes) => Ok(Beat { screen, strokes: Some(strokes) }),
            }
        }
    }
}

/// Confirming the active effect twice in a row pauses it and resumes it: the
/// pause flag goes from off to on to off, and nothing else changes, so the
/// same driver holds the domain throughout.
pub proof fn law_confirming_the_active_effect_toggles_pause(app: AppView, first: u64, second: u64)
    requires
        app.coherent(),
        app.chosen() == app.current_effect,
        !app.should_pause,
    ensures
        app.confirmed(first) == (AppView { should_pause: true, ..app }),
        app.confirmed(first).confirmed(second) == app,
{
}

/// Switching from the active effect to another and at once back again ends
/// with the first effect active and running, and with the domain back in its
/// driver: the same layout with as many LEDs, showing the same colours.
pub proof fn law_switching_there_and_back(app: AppView, other: Effect, first: u64, second: u64)
    requires
        app.coherent(),
        !app.should_pause,
        other != app.current_effect,
    ensures
        ({
            let there = (AppView { cursor: other.place() as usize, ..app }).confirmed(first);
            let back = (AppView { cursor: app.current_effect.place() as usize, ..there }).confirmed(
                second,
            );
            &&& there.coherent()
            &&& there.current_effect == other
            &&& !there.should_pause
            &&& there.domain() == app.domain()
            &&& back.coherent()
            &&& back.current_effect == app.current_effect
            &&& !back.should_pause
            &&& back.domain() == app.domain()
            &&& back.driver(other).domain is None
        }),
{
}

/// Every key leaves the domain mounted in exactly one driver, that of the
/// active effect, and never changes the domain itself.
pub proof fn law_keys_keep_one_owner(app: AppView, key: Key, now: u64)
    requires
        app.coherent(),
    ensures
        app.keyed(key, now).coherent(),
        app.keyed(key, now).domain() == app.domain(),
{
}

/// Moving the cursor pauses the effect and changes neither the active effect
/// nor any driver; one step down and one step up cancel, round the ends of
/// the list.
pub proof fn law_cursor_wraps(app: AppView)
    requires
        app.coherent(),
    ensures
        app.moved(true).cursor == (app.cursor + 1) % 3,
        app.moved(true).moved(false).cursor == app.cursor,
        app.moved(false).moved(true).cursor == app.cursor,
        app.moved(true).moved(true).moved(true).cursor == app.cursor,
        app.moved(true) == (AppView { cursor: app.moved(true).cursor, should_pause: true, ..app }),
{
}

} // verus!
