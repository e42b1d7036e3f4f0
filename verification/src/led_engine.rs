//! The LED ring's state machine: which state it shows, which state an
//! overlay returns to, and how many LEDs the volume meter lights.
//!
//! Timing, the event channel and the bus stay outside the library: the
//! driver hands each event and the time spent in the current state to the
//! machine and performs what it asks for.
use vstd::prelude::*;
use crate::led_ring::{RgbColor, NUM_LEDS};

verus! {

/// How long the Ack overlay stays before the base state returns.
pub const ACK_DURATION_MS: u64 = 1000;

/// How long the Volume overlay stays before the base state returns.
pub const VOLUME_OVERLAY_DURATION_MS: u64 = 2000;

/// How long the TimerAlert overlay stays before the base state returns.
pub const TIMER_ALERT_DURATION_MS: u64 = 4000;

/// LEDs added or removed by one volume step.
pub const VOLUME_STEP: u8 = 1;

/// Tick period of animated states.
pub const ANIMATED_TICK_MS: u64 = 33;

/// Tick period of static states.
pub const STATIC_TICK_MS: u64 = 100;

/// LEDs lit when the engine starts.
pub const INITIAL_VOLUME_LEDS: u8 = 6;

#[derive(Debug, Clone, Copy, PartialEq, Eq, Structural)]
pub enum LedEvent {
    Init,
    Wakeword,
    Processing,
    Responding,
    Error,
    Ack,
    Volume { level: u8 },
    VolumeUp,
    VolumeDown,
    Idle,
    TimerAlert,
}

#[derive(Debug, Clone, Copy, PartialEq, Eq, Structural)]
pub enum LedState {
    Init,
    Idle,
    Listening,
    Processing,
    Responding,
    Error,
    Ack,
    Volume,
    TimerAlert,
}

/// Temporary states that return to the state beneath them on their own.
pub open spec fn is_overlay(s: LedState) -> bool {
    s == LedState::Volume || s == LedState::Ack || s == LedState::TimerAlert
}

/// How long an overlay stays; 0 for the other states.
pub open spec fn overlay_duration_ms(s: LedState) -> u64 {
    match s {
        LedState::Ack => ACK_DURATION_MS,
        LedState::Volume => VOLUME_OVERLAY_DURATION_MS,
        LedState::TimerAlert => TIMER_ALERT_DURATION_MS,
        _ => 0,
    }
}

/// Events that put an overlay on top of the current state.
pub open spec fn is_overlay_event(e: LedEvent) -> bool {
    match e {
        LedEvent::Ack | LedEvent::Volume { .. } | LedEvent::VolumeUp | LedEvent::VolumeDown
        | LedEvent::TimerAlert => true,
        _ => false,
    }
}

/// The state an event switches to.
pub open spec fn event_target(e: LedEvent) -> LedState {
    match e {
        LedEvent::Init => LedState::Init,
        LedEvent::Wakeword => LedState::Listening,
        LedEvent::Processing => LedState::Processing,
        LedEvent::Responding => LedState::Responding,
        LedEvent::Error => LedState::Error,
        LedEvent::Ack => LedState::Ack,
        LedEvent::Volume { .. } => LedState::Volume,
        LedEvent::VolumeUp => LedState::Volume,
        LedEvent::VolumeDown => LedState::Volume,
        LedEvent::Idle => LedState::Idle,
        LedEvent::TimerAlert => LedState::TimerAlert,
    }
}

/// `n / d` rounded to the nearest integer, halves rounding up.
pub open spec fn div_round(n: int, d: int) -> int {
    (2 * n + d) / (2 * d)
}

/// The volume percentage a number of lit LEDs stands for:
/// `round(leds / 12 * 100)`.
pub open spec fn percent_for_leds(leds: u8) -> u8 {
    div_round(leds * 100, NUM_LEDS as int) as u8
}

/// The number of LEDs a volume level lights: `round(min(level, 100) / 100 * 12)`.
pub open spec fn leds_for_level(level: u8) -> u8 {
    let l = if level < 100 {
        level as int
    } else {
        100
    };
    div_round(l * NUM_LEDS, 100) as u8
}

/// The plain content of the machine.
pub struct LedView {
    pub state: LedState,
    pub previous_state: LedState,
    pub volume_leds: u8,
}

/// At most 12 LEDs are lit, and the state beneath an overlay is never an overlay.
pub open spec fn led_view_wf(v: LedView) -> bool {
    v.volume_leds <= NUM_LEDS && !is_overlay(v.previous_state)
}

/// The state shown once every overlay has gone.
pub open spec fn base_of(v: LedView) -> LedState {
    if is_overlay(v.state) {
        v.previous_state
    } else {
        v.state
    }
}

/// The machine after handling an event.
pub open spec fn after_event(v: LedView, e: LedEvent) -> LedView {
    if is_overlay_event(e) || e == LedEvent::Error {
        LedView {
            state: event_target(e),
            previous_state: base_of(v),
            volume_leds: match e {
                LedEvent::Volume { level } => leds_for_level(level),
                LedEvent::VolumeUp => if v.volume_leds + VOLUME_STEP < NUM_LEDS {
                    (v.volume_leds + VOLUME_STEP) as u8
                } else {
                    NUM_LEDS as u8
                },
                LedEvent::VolumeDown => if v.volume_leds >= VOLUME_STEP {
                    (v.volume_leds - VOLUME_STEP) as u8
                } else {
                    0
                },
                _ => v.volume_leds,
            },
        }
    } else {
        LedView { state: event_target(e), previous_state: v.previous_state, volume_leds: v.volume_leds }
    }
}

/// The mixer volume an event asks to set, if any.
pub open spec fn mixer_volume_for(v: LedView, e: LedEvent) -> Option<u8> {
    match e {
        LedEvent::Volume { level } => Some(
            if level < 100 {
                level
            } else {
                100
            },
        ),
        LedEvent::VolumeUp | LedEvent::VolumeDown => Some(
            percent_for_leds(after_event(v, e).volume_leds),
        ),
        _ => None,
    }
}

/// The machine after `elapsed_ms` in its current state: an overlay that has
/// lasted its time gives way to the state beneath it.
pub open spec fn after_time(v: LedView, elapsed_ms: u64) -> LedView {
    if is_overlay(v.state) && elapsed_ms >= overlay_duration_ms(v.state) {
        LedView { state: v.previous_state, previous_state: v.previous_state, volume_leds: v.volume_leds }
    } else {
        v
    }
}

/// The machine after a run of events, handled in order.
pub open spec fn after_events(v: LedView, es: Seq<LedEvent>) -> LedView
    decreases es.len(),
{
    if es.len() == 0 {
        v
    } else {
        after_event(after_events(v, es.drop_last()), es.last())
    }
}

pub struct LedStateMachine {
    state: LedState,
    previous_state: LedState,
    volume_leds: u8,
}

impl View for LedStateMachine {
    type V = LedView;

    closed spec fn view(&self) -> LedView {
        LedView { state: self.state, previous_state: self.previous_state, volume_leds: self.volume_leds }
    }
}

impl LedStateMachine {
    #[verifier::type_invariant]
    spec fn inv(self) -> bool {
        led_view_wf(self@)
    }

    /// A machine in `Init`, with half of the LEDs lit for volume.
    pub fn new() -> (m: Self)
        ensures
            m@ == (LedView {
                state: LedState::Init,
                previous_state: LedState::Init,
                volume_leds: INITIAL_VOLUME_LEDS,
            }),
    {
        Self { state: LedState::Init, previous_state: LedState::Init, volume_leds: INITIAL_VOLUME_LEDS }
    }

    pub fn state(&self) -> (s: LedState)
        ensures
            s == self@.state,
    {
        self.state
    }

    pub fn volume_leds(&self) -> (n: u8)
        ensures
            n == self@.volume_leds,
            n <= NUM_LEDS,
    {
        proof {
            use_type_invariant(self);
        }
        self.volume_leds
    }

    /// The volume percentage the lit LEDs stand for.
    pub fn volume_percent(&self) -> (p: u8)
        ensures
            p == percent_for_leds(self@.volume_leds),
            p <= 100,
    {
        proof {
            use_type_invariant(self);
        }
        percent_of_leds(self.volume_leds)
    }

    /// Whether a state is animated (and so ticks fast).
    pub fn is_animated_state(state: LedState) -> (b: bool)
        ensures
            b == (state != LedState::Idle && state != LedState::Volume),
    {
        match state {
            LedState::Idle | LedState::Volume => false,
            _ => true,
        }
    }

    /// How long to wait before the next tick in a state.
    pub fn tick_interval_ms(state: LedState) -> (ms: u64)
        ensures
            ms == if state != LedState::Idle && state != LedState::Volume {
                ANIMATED_TICK_MS
            } else {
                STATIC_TICK_MS
            },
    {
        if Self::is_animated_state(state) {
            ANIMATED_TICK_MS
        } else {
            STATIC_TICK_MS
        }
    }

    /// The state beneath any overlay.
    pub fn base_state(&self) -> (s: LedState)
        ensures
            s == base_of(self@),
            !is_overlay(s),
    {
        proof {
            use_type_invariant(self);
        }
        match self.state {
            LedState::Volume | LedState::Ack | LedState::TimerAlert => self.previous_state,
            other => other,
        }
    }

    /// Handles one event. Every event enters a state anew (the driver
    /// restarts its clock); the result is the mixer volume to set, if the
    /// event changes the volume.
    pub fn handle_event(&mut self, event: LedEvent) -> (set_volume: Option<u8>)
        ensures
            final(self)@ == after_event(old(self)@, event),
            set_volume == mixer_volume_for(old(self)@, event),
    {
        proof {
            use_type_invariant(&*self);
        }
        let base = self.base_state();
        match event {
            LedEvent::Init => {
                self.state = LedState::Init;
                None
            },
            LedEvent::Wakeword => {
                self.state = LedState::Listening;
                None
            },
            LedEvent::Processing => {
                self.state = LedState::Processing;
                None
            },
            LedEvent::Responding => {
                self.state = LedState::Responding;
                None
            },
            LedEvent::Idle => {
                self.state = LedState::Idle;
                None
            },
            LedEvent::Error => {
                self.previous_state = base;
                self.state = LedState::Error;
                None
            },
            LedEvent::Ack => {
                self.previous_state = base;
                self.state = LedState::Ack;
                None
            },
            LedEvent::Volume { level } => {
                let l: u8 = if level < 100 {
                    level
                } else {
                    100
                };
                self.previous_state = base;
                self.volume_leds = leds_of_level(level);
                self.state = LedState::Volume;
                Some(l)
            },
            LedEvent::VolumeUp => {
                self.previous_state = base;
                self.volume_leds = if self.volume_leds + VOLUME_STEP < NUM_LEDS as u8 {
                    self.volume_leds + VOLUME_STEP
                } else {
                    NUM_LEDS as u8
                };
                self.state = LedState::Volume;
                Some(percent_of_leds(self.volume_leds))
            },
            LedEvent::VolumeDown => {
                self.previous_state = base;
                self.volume_leds = if self.volume_leds >= VOLUME_STEP {
                    self.volume_leds - VOLUME_STEP
                } else {
                    0
                };
                self.state = LedState::Volume;
                Some(percent_of_leds(self.volume_leds))
            },
            LedEvent::TimerAlert => {
                self.previous_state = base;
                self.state = LedState::TimerAlert;
                None
            },
        }
    }

    /// Lets an overlay that has lasted its time give way to the state
    /// beneath it. Returns whether the state changed (the driver then
    /// restarts its clock).
    pub fn check_auto_transitions(&mut self, elapsed_ms: u64) -> (changed: bool)
        ensures
            final(self)@ == after_time(old(self)@, elapsed_ms),
            changed == (is_overlay(old(self)@.state) && elapsed_ms >= overlay_duration_ms(
                old(self)@.state,
            )),
    {
        proof {
            use_type_invariant(&*self);
        }
        let expired = match self.state {
            LedState::Ack => elapsed_ms >= ACK_DURATION_MS,
            LedState::Volume => elapsed_ms >= VOLUME_OVERLAY_DURATION_MS,
            LedState::TimerAlert => elapsed_ms >= TIMER_ALERT_DURATION_MS,
            _ => false,
        };
        if expired {
            self.state = self.previous_state;
        }
        expired
    }
}

fn percent_of_leds(leds: u8) -> (p: u8)
    requires
        leds <= NUM_LEDS,
    ensures
        p == percent_for_leds(leds),
        p <= 100,
{
    let n: u32 = leds as u32 * 100;
    ((2 * n + 12) / 24) as u8
}

fn leds_of_level(level: u8) -> (n: u8)
    ensures
        n == leds_for_level(level),
        n <= NUM_LEDS,
{
    let l: u32 = if level < 100 {
        level as u32
    } else {
        100
    };
    ((2 * (l * 12) + 100) / 200) as u8
}

/// The colour of the volume meter.
pub fn color_volume() -> (c: RgbColor)
    ensures
        c == (RgbColor { r: 0, g: 200, b: 0 }),
{
    RgbColor::new(0, 200, 0)
}

/// The volume meter: the first `volume_leds` LEDs (clockwise from LED 0)
/// lit in green, the rest dark.
pub fn render_volume(volume_leds: u8) -> (frame: [RgbColor; NUM_LEDS])
    ensures
        forall|i: int|
            0 <= i < NUM_LEDS ==> #[trigger] frame@[i] == if i < volume_leds {
                RgbColor { r: 0, g: 200, b: 0 }
            } else {
                RgbColor { r: 0, g: 0, b: 0 }
            },
{
    let mut frame = [RgbColor::black(); NUM_LEDS];
    let count: usize = if (volume_leds as usize) < NUM_LEDS {
        volume_leds as usize
    } else {
        NUM_LEDS
    };
    let mut i: usize = 0;
    while i < count
        invariant
            i <= count <= NUM_LEDS,
            count == if (volume_leds as usize) < NUM_LEDS { volume_leds as usize } else { NUM_LEDS },
            forall|j: int|
                0 <= j < NUM_LEDS ==> #[trigger] frame@[j] == if j < i {
                    RgbColor { r: 0, g: 200, b: 0 }
                } else {
                    RgbColor { r: 0, g: 0, b: 0 }
                },
        decreases count - i,
    {
        frame.set(i, color_volume());
        i += 1;
    }
    frame
}

// ---------------------------------------------------------------------------
// Laws
// ---------------------------------------------------------------------------

/// Whether a rendered frame is to be written to the ring: only when it
/// differs from the last frame written (or none was), so that static
/// states leave the bus silent.
pub fn frame_needs_write(last: Option<&[RgbColor; NUM_LEDS]>, frame: &[RgbColor; NUM_LEDS]) -> (b: bool)
    ensures
        b == (last is None || last->0@ != frame@),
{
    match last {
        None => true,
        Some(l) => {
            let mut i: usize = 0;
            while i < NUM_LEDS
                invariant
                    i <= NUM_LEDS,
                    last == Some(l),
                    l@.len() == NUM_LEDS,
                    frame@.len() == NUM_LEDS,
                    forall|k: int| 0 <= k < i ==> l@[k] == frame@[k],
                decreases NUM_LEDS - i,
            {
                let a = l[i];
                let c = frame[i];
                if a.r != c.r || a.g != c.g || a.b != c.b {
                    assert(l@[i as int] != frame@[i as int]);
                    return true;
                }
                i += 1;
            }
            assert(l@ =~= frame@);
            false
        },
    }
}

/// Every event and every passage of time keeps the machine well formed.
pub proof fn lemma_wf_preserved(v: LedView, e: LedEvent, elapsed_ms: u64)
    requires
        led_view_wf(v),
    ensures
        led_view_wf(after_event(v, e)),
        led_view_wf(after_time(v, elapsed_ms)),
{
}

/// Overlays do not move the state beneath them: after any run of overlay
/// events the base state is the one from before the run, and once the last
/// overlay has lasted its time the ring shows that base state again.
pub proof fn lemma_overlays_return_to_base(v: LedView, es: Seq<LedEvent>, elapsed_ms: u64)
    requires
        led_view_wf(v),
        forall|i: int| 0 <= i < es.len() ==> is_overlay_event(#[trigger] es[i]),
    ensures
        base_of(after_events(v, es)) == base_of(v),
        es.len() > 0 && elapsed_ms >= overlay_duration_ms(after_events(v, es).state) ==> after_time(
            after_events(v, es),
            elapsed_ms,
        ).state == base_of(v),
    decreases es.len(),
{
    if es.len() > 0 {
        let init = es.drop_last();
        assert forall|i: int| 0 <= i < init.len() implies is_overlay_event(#[trigger] init[i]) by {
            assert(init[i] == es[i]);
        }
        lemma_overlays_return_to_base(v, init, elapsed_ms);
        lemma_after_events_wf(v, init);
        assert(is_overlay_event(es[es.len() - 1]));
    }
}

/// A run of events keeps the machine well formed.
pub proof fn lemma_after_events_wf(v: LedView, es: Seq<LedEvent>)
    requires
        led_view_wf(v),
    ensures
        led_view_wf(after_events(v, es)),
    decreases es.len(),
{
    if es.len() > 0 {
        lemma_after_events_wf(v, es.drop_last());
    }
}

/// A state event that is not an overlay shows its state at once and becomes
/// the new base.
pub proof fn lemma_state_events_set_base(v: LedView, e: LedEvent)
    requires
        led_view_wf(v),
        !is_overlay_event(e),
    ensures
        after_event(v, e).state == event_target(e),
        base_of(after_event(v, e)) == event_target(e),
{
}

/// One step up then one step down restores the volume, below the top; at
/// the top a step up changes nothing, and at the bottom a step down.
pub proof fn lemma_volume_steps(v: LedView)
    requires
        led_view_wf(v),
    ensures
        v.volume_leds < NUM_LEDS ==> after_event(after_event(v, LedEvent::VolumeUp), LedEvent::VolumeDown).volume_leds
            == v.volume_leds,
        v.volume_leds == NUM_LEDS ==> after_event(v, LedEvent::VolumeUp).volume_leds == NUM_LEDS,
        v.volume_leds == 0 ==> after_event(v, LedEvent::VolumeDown).volume_leds == 0,
{
}

/// Setting a volume level and reading the percentage back gives the level,
/// to the resolution of one LED: within half an LED's share (50/12 %).
pub proof fn lemma_volume_level_resolution(level: u8)
    requires
        level <= 100,
    ensures
        -5 <= percent_for_leds(leds_for_level(level)) - level <= 5,
{
    let l = level as int;
    let n = (2 * (l * 12) + 100) / 200;
    assert(0 <= n <= 12 && 200 * n <= 24 * l + 100 && 24 * l + 100 < 200 * n + 200) by (nonlinear_arith)
        requires
            0 <= l <= 100,
            n == (2 * (l * 12) + 100) / 200,
    ;
    let p = (2 * (n * 100) + 12) / 24;
    assert(24 * p <= 200 * n + 12 && 200 * n + 12 < 24 * p + 24) by (nonlinear_arith)
        requires
            0 <= n <= 12,
            p == (2 * (n * 100) + 12) / 24,
    ;
    assert(leds_for_level(level) == n);
    assert(percent_for_leds(leds_for_level(level)) == p);
}

/// Each event shows its own state at once, whatever the machine showed
/// before: `Init` shows `Init`, `Wakeword` shows `Listening`, `Processing`
/// shows `Processing`, `Responding` shows `Responding`, `Idle` shows
/// `Idle`, `Error` shows `Error`, and the overlay events show `Ack`,
/// `Volume` and `TimerAlert`.
pub proof fn lemma_events_show_their_states(v: LedView, level: u8)
    ensures
        after_event(v, LedEvent::Init).state == LedState::Init,
        after_event(v, LedEvent::Wakeword).state == LedState::Listening,
        after_event(v, LedEvent::Processing).state == LedState::Processing,
        after_event(v, LedEvent::Responding).state == LedState::Responding,
        after_event(v, LedEvent::Idle).state == LedState::Idle,
        after_event(v, LedEvent::Error).state == LedState::Error,
        after_event(v, LedEvent::Ack).state == LedState::Ack,
        after_event(v, LedEvent::Volume { level }).state == LedState::Volume,
        after_event(v, LedEvent::VolumeUp).state == LedState::Volume,
        after_event(v, LedEvent::VolumeDown).state == LedState::Volume,
        after_event(v, LedEvent::TimerAlert).state == LedState::TimerAlert,
{
}

/// Two different state events (among `Init`, `Wakeword`, `Processing`,
/// `Responding`, `Idle` and `Error`) never leave the ring in the same
/// state.
pub proof fn lemma_distinct_state_events(v: LedView, w: LedView, e1: LedEvent, e2: LedEvent)
    requires
        !is_overlay_event(e1),
        !is_overlay_event(e2),
        e1 != e2,
    ensures
        after_event(v, e1).state != after_event(w, e2).state,
{
}

/// What each event asks of the mixer: a volume event sets its level, capped
/// at 100; a step up or down lights one LED more or fewer (within 0 and 12)
/// and sets the percentage those LEDs stand for; every other event leaves
/// the mixer alone and the lit LEDs unchanged.
pub proof fn lemma_mixer_requests(v: LedView, e: LedEvent)
    requires
        led_view_wf(v),
    ensures
        e matches LedEvent::Volume { level } ==> mixer_volume_for(v, e) == Some(
            if level < 100 {
                level
            } else {
                100u8
            },
        ),
        e == LedEvent::VolumeUp ==> after_event(v, e).volume_leds == if v.volume_leds < 12 {
            v.volume_leds + 1
        } else {
            12
        },
        e == LedEvent::VolumeDown ==> after_event(v, e).volume_leds == if v.volume_leds > 0 {
            v.volume_leds - 1
        } else {
            0
        },
        (e == LedEvent::VolumeUp || e == LedEvent::VolumeDown) ==> mixer_volume_for(v, e) == Some(
            percent_for_leds(after_event(v, e).volume_leds),
        ),
        !(e is Volume || e == LedEvent::VolumeUp || e == LedEvent::VolumeDown) ==> mixer_volume_for(v, e)
            is None && after_event(v, e).volume_leds == v.volume_leds,
{
}

/// The percentage lit LEDs stand for runs from 0 (none lit) to 100 (all 12
/// lit) and never falls as more LEDs are lit.
pub proof fn lemma_percent_for_leds_range(a: u8, b: u8)
    requires
        a <= b <= 12,
    ensures
        percent_for_leds(0) == 0,
        percent_for_leds(12) == 100,
        percent_for_leds(a) <= percent_for_leds(b) <= 100,
{
    assert(percent_for_leds(0) == 0);
    assert(percent_for_leds(12) == 100);
    let x = 2 * (a * 100) + 12;
    let y = 2 * (b * 100) + 12;
    vstd::arithmetic::div_mod::lemma_div_is_ordered(x as int, y as int, 24);
    vstd::arithmetic::div_mod::lemma_div_is_ordered(y as int, 2412, 24);
    assert(2412int / 24 == 100);
    assert(0 <= x / 24 <= y / 24 <= 100);
}

/// A volume level lights from 0 LEDs (level 0) to all 12 (level 100 and
/// above), never fewer for a higher level.
pub proof fn lemma_leds_for_level_range(a: u8, b: u8)
    requires
        a <= b,
    ensures
        leds_for_level(0) == 0,
        leds_for_level(b) <= 12,
        b >= 100 ==> leds_for_level(b) == 12,
        leds_for_level(a) <= leds_for_level(b),
{
    let la: int = if a < 100 { a as int } else { 100 };
    let lb: int = if b < 100 { b as int } else { 100 };
    let x = 2 * (la * 12) + 100;
    let y = 2 * (lb * 12) + 100;
    vstd::arithmetic::div_mod::lemma_div_is_ordered(x, y, 200);
    vstd::arithmetic::div_mod::lemma_div_is_ordered(y, 2500, 200);
    assert(2500int / 200 == 12);
    assert(0 <= x / 200);
}

} // verus!
