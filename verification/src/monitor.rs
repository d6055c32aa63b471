//! The monitor's decisions: what one reading of the button does to the
//! tracked levels, what it puts in the log, and how long to wait before the
//! next reading is taken.

use vstd::prelude::*;
use crate::level::Level;
use crate::pin::{InputPin, OutputPin};

verus! {

/// Milliseconds between two polls of the button.
pub const TICK_MS: u64 = 50;

/// Milliseconds between two looks at a button that is being held down.
pub const HOLD_POLL_MS: u64 = 10;

/// A transition that the log records.
#[derive(Clone, Copy, Debug, PartialEq, Eq, Structural)]
pub enum Event {
    /// The button was seen at a new level.
    Button(Level),
    /// The LED was driven to a new level.
    Led(Level),
}

/// The monitor as contracts see it.
pub struct MonitorState {
    /// The button level that was observed last.
    pub button: Level,
    /// The level the LED is driven to.
    pub led: Level,
    /// Whether a press is being waited out.
    pub holding: bool,
}

impl MonitorState {
    /// A press is only ever waited out while the button is recorded as `Low`.
    pub open spec fn wf(self) -> bool {
        self.holding ==> self.button == Level::Low
    }

    /// The state a monitor starts in: the button as it was first read, or
    /// `High` if it could not be read; the LED off; nothing held.
    pub open spec fn initial(seed: Option<Level>) -> MonitorState {
        MonitorState {
            button: match seed {
                Some(level) => level,
                None => Level::High,
            },
            led: Level::Low,
            holding: false,
        }
    }

    /// Whether `reading` is an edge: the monitor is polling and the button is
    /// not where it was last seen.
    pub open spec fn is_edge(self, reading: Level) -> bool {
        !self.holding && reading != self.button
    }

    /// Whether `reading` is a press: an edge that ends `Low`.
    pub open spec fn is_press(self, reading: Level) -> bool {
        self.is_edge(reading) && reading == Level::Low
    }

    /// The state after `reading` has been taken.
    pub open spec fn next(self, reading: Level) -> MonitorState {
        if self.holding {
            MonitorState { holding: reading == Level::Low, ..self }
        } else if self.is_press(reading) {
            MonitorState { button: Level::Low, led: self.led.spec_toggled(), holding: true }
        } else {
            MonitorState { button: reading, ..self }
        }
    }

    /// What `reading` puts in the log, in order.
    pub open spec fn emitted(self, reading: Level) -> Seq<Event> {
        if self.is_press(reading) {
            seq![Event::Button(Level::Low), Event::Led(self.led.spec_toggled())]
        } else if self.is_edge(reading) {
            seq![Event::Button(reading)]
        } else {
            Seq::empty()
        }
    }

    /// Milliseconds to let pass between `reading` and the reading after it.
    /// A press is followed at once by the first look at the held button.
    pub open spec fn pause(self, reading: Level) -> u64 {
        if self.is_press(reading) {
            0
        } else if self.holding && reading == Level::Low {
            HOLD_POLL_MS
        } else {
            TICK_MS
        }
    }

    /// The state after every reading of `readings` has been taken in turn.
    pub open spec fn run(self, readings: Seq<Level>) -> MonitorState
        decreases readings.len(),
    {
        if readings.len() == 0 {
            self
        } else {
            self.run(readings.drop_last()).next(readings.last())
        }
    }

    /// What `readings`, taken in turn, put in the log.
    pub open spec fn trace(self, readings: Seq<Level>) -> Seq<Event>
        decreases readings.len(),
    {
        if readings.len() == 0 {
            Seq::empty()
        } else {
            self.trace(readings.drop_last()) + self.run(readings.drop_last()).emitted(
                readings.last(),
            )
        }
    }
}

/// What one reading led to.
pub struct Step {
    /// The transitions to log, in order. An [`Event::Led`] among them is also
    /// the level to drive the LED to.
    pub events: Vec<Event>,
    /// Milliseconds to wait before the next reading.
    pub delay_ms: u64,
}

/// The button and LED levels that the polling loop tracks.
pub struct Monitor {
    last_button: Level,
    led: Level,
    holding: bool,
}

impl View for Monitor {
    type V = MonitorState;

    closed spec fn view(&self) -> MonitorState {
        MonitorState { button: self.last_button, led: self.led, holding: self.holding }
    }
}

impl Monitor {
    #[verifier::type_invariant]
    spec fn inv(self) -> bool {
        self.holding ==> self.last_button == Level::Low
    }

    /// A monitor at rest. `seed` is the first reading of the button, `None`
    /// where the button could not be read.
    pub fn new(seed: Option<Level>) -> (monitor: Monitor)
        ensures
            monitor@ == MonitorState::initial(seed),
            monitor@.wf(),
    {
        let last_button = match seed {
            Some(level) => level,
            None => Level::High,
        };
        Monitor { last_button, led: Level::Low, holding: false }
    }

    /// The button level that was observed last.
    pub fn last_button(&self) -> (level: Level)
        ensures
            level == self@.button,
    {
        self.last_button
    }

    /// The level the LED is driven to.
    pub fn led(&self) -> (level: Level)
        ensures
            level == self@.led,
    {
        self.led
    }

    /// Whether a press is being waited out. While it is, the next reading is a
    /// look at whether the button is still down, not a poll.
    pub fn is_holding(&self) -> (holding: bool)
        ensures
            holding == self@.holding,
            self@.wf(),
    {
        proof {
            use_type_invariant(self);
        }
        self.holding
    }

    /// Takes one reading of the button.
    ///
    /// While polling, a reading that differs from the last one is logged, and
    /// if it is `Low` the LED is toggled, that is logged too, and the press is
    /// waited out. While a press is waited out nothing is logged: a `Low`
    /// reading keeps waiting, a `High` one returns to polling.
    pub fn observe(&mut self, reading: Level) -> (step: Step)
        ensures
            final(self)@ == old(self)@.next(reading),
            final(self)@.wf(),
            step.events@ == old(self)@.emitted(reading),
            step.delay_ms == old(self)@.pause(reading),
    {
        proof {
            use_type_invariant(&*self);
        }
        let mut events: Vec<Event> = Vec::new();
        if self.holding {
            if reading.is_low() {
                return Step { events, delay_ms: HOLD_POLL_MS };
            }
            self.holding = false;
            return Step { events, delay_ms: TICK_MS };
        }
        if reading == self.last_button {
            return Step { events, delay_ms: TICK_MS };
        }
        events.push(Event::Button(reading));
        self.last_button = reading;
        if reading.is_low() {
            self.led = self.led.toggled();
            events.push(Event::Led(self.led));
            self.holding = true;
            return Step { events, delay_ms: 0 };
        }
        Step { events, delay_ms: TICK_MS }
    }

    /// One turn of the loop on simulated pins: takes a reading from `button`,
    /// and on a press drives `led` to the toggled level.
    pub fn tick(&mut self, button: &InputPin, led: &mut OutputPin) -> (step: Step)
        ensures
            final(self)@ == old(self)@.next(button@),
            final(self)@.wf(),
            step.events@ == old(self)@.emitted(button@),
            step.delay_ms == old(self)@.pause(button@),
            final(led)@ == if old(self)@.is_press(button@) {
                final(self)@.led
            } else {
                old(led)@
            },
    {
        let reading = if self.holding {
            Level::from_is_low(button.is_low())
        } else {
            button.read()
        };
        let before = self.led;
        let step = self.observe(reading);
        if self.led != before {
            led.write(self.led);
        }
        step
    }

    /// Takes every reading of `readings` in turn and returns all that they
    /// put in the log, in order.
    pub fn run(&mut self, readings: &Vec<Level>) -> (events: Vec<Event>)
        ensures
            final(self)@ == old(self)@.run(readings@),
            final(self)@.wf(),
            events@ == old(self)@.trace(readings@),
    {
        proof {
            use_type_invariant(&*self);
        }
        let ghost start = self@;
        let mut events: Vec<Event> = Vec::new();
        let mut i: usize = 0;
        while i < readings.len()
            invariant
                i <= readings.len(),
                self@ == start.run(readings@.take(i as int)),
                self@.wf(),
                events@ == start.trace(readings@.take(i as int)),
            decreases readings.len() - i,
        {
            let mut step = self.observe(readings[i]);
            proof {
                assert(readings@.take(i + 1).drop_last() == readings@.take(i as int));
            }
            events.append(&mut step.events);
            i += 1;
        }
        proof {
            assert(readings@.take(i as int) == readings@);
        }
        events
    }
}

/// How many entries of `events` record the button.
pub open spec fn button_entries(events: Seq<Event>) -> nat
    decreases events.len(),
{
    if events.len() == 0 {
        0
    } else {
        button_entries(events.drop_last()) + if events.last() is Button {
            1nat
        } else {
            0nat
        }
    }
}

/// How many entries of `events` record the LED.
pub open spec fn led_entries(events: Seq<Event>) -> nat
    decreases events.len(),
{
    if events.len() == 0 {
        0
    } else {
        led_entries(events.drop_last()) + if events.last() is Led {
            1nat
        } else {
            0nat
        }
    }
}

/// How many entries of `events` record a press of the button.
pub open spec fn press_entries(events: Seq<Event>) -> nat
    decreases events.len(),
{
    if events.len() == 0 {
        0
    } else {
        press_entries(events.drop_last()) + if events.last() == Event::Button(Level::Low) {
            1nat
        } else {
            0nat
        }
    }
}

/// A monitor starts well formed, and no reading changes that.
pub proof fn lemma_wf_is_kept(state: MonitorState, seed: Option<Level>, reading: Level)
    ensures
        MonitorState::initial(seed).wf(),
        state.wf() ==> state.next(reading).wf(),
{
}

/// What one reading logs, counted: a button entry for an edge, and a press
/// entry and an LED entry for a press.
pub proof fn lemma_step_entries(state: MonitorState, reading: Level)
    ensures
        button_entries(state.emitted(reading)) == if state.is_edge(reading) {
            1nat
        } else {
            0nat
        },
        press_entries(state.emitted(reading)) == if state.is_press(reading) {
            1nat
        } else {
            0nat
        },
        led_entries(state.emitted(reading)) == if state.is_press(reading) {
            1nat
        } else {
            0nat
        },
{
    reveal_with_fuel(button_entries, 3);
    reveal_with_fuel(press_entries, 3);
    reveal_with_fuel(led_entries, 3);
    let events = state.emitted(reading);
    if state.is_press(reading) {
        assert(events.drop_last() == seq![Event::Button(Level::Low)]);
        assert(events.drop_last().drop_last() == Seq::<Event>::empty());
    } else if state.is_edge(reading) {
        assert(events.drop_last() == Seq::<Event>::empty());
    }
}

/// A reading puts one button entry in the log if it is an edge and none
/// otherwise. For a monitor that is polling, the button is logged exactly
/// when the reading differs from the level observed before it.
pub proof fn lemma_button_logged_iff_edge(state: MonitorState, reading: Level)
    ensures
        button_entries(state.emitted(reading)) == if state.is_edge(reading) {
            1nat
        } else {
            0nat
        },
        state.is_edge(reading) ==> state.emitted(reading)[0] == Event::Button(reading),
        !state.holding ==> (state.emitted(reading).contains(Event::Button(reading)) <==> reading
            != state.button),
        state.next(reading).button == if state.holding {
            state.button
        } else {
            reading
        },
{
    lemma_step_entries(state, reading);
    if state.is_edge(reading) {
        assert(state.emitted(reading)[0] == Event::Button(reading));
    }
}

/// A poll that repeats the reading before it changes nothing and logs
/// nothing.
pub proof fn lemma_repeated_reading_is_silent(state: MonitorState, reading: Level)
    requires
        !state.holding,
    ensures
        state.next(reading).emitted(reading) == Seq::<Event>::empty(),
        state.next(reading).next(reading) == state.next(reading),
{
}

/// The LED changes exactly on a press, and then to the other level. A `High`
/// reading never changes it. The log records the LED exactly when it changes,
/// right after the button entry of the press.
pub proof fn lemma_led_toggles_iff_press(state: MonitorState, reading: Level)
    ensures
        state.next(reading).led != state.led <==> state.is_press(reading),
        state.is_press(reading) ==> state.next(reading).led == state.led.spec_toggled(),
        reading == Level::High ==> state.next(reading).led == state.led,
        led_entries(state.emitted(reading)) == press_entries(state.emitted(reading)),
        led_entries(state.emitted(reading)) == if state.is_press(reading) {
            1nat
        } else {
            0nat
        },
        state.is_press(reading) ==> state.emitted(reading) == seq![
            Event::Button(Level::Low),
            Event::Led(state.next(reading).led),
        ],
{
    lemma_step_entries(state, reading);
}

/// While a press is waited out, a `Low` reading leaves everything as it is
/// and a `High` one only ends the wait: neither is logged, neither touches
/// the LED or the recorded button level.
pub proof fn lemma_hold_blocks_edges(state: MonitorState, reading: Level)
    requires
        state.holding,
    ensures
        state.emitted(reading) == Seq::<Event>::empty(),
        state.next(Level::Low) == state,
        state.next(Level::High) == (MonitorState { holding: false, ..state }),
        state.next(reading).led == state.led,
        state.next(reading).button == state.button,
{
}

/// A press always starts a wait, and the release that ends it is logged by
/// the first poll that follows.
pub proof fn lemma_release_is_logged_after_hold(state: MonitorState)
    requires
        state.wf(),
        state.holding,
    ensures
        !state.next(Level::High).holding,
        state.next(Level::High).emitted(Level::High) == seq![Event::Button(Level::High)],
        state.next(Level::High).next(Level::High).led == state.led,
{
}

/// A simulated input that flips between two polls is always noticed: the
/// poll after the flip is an edge.
pub proof fn lemma_flip_is_observed(state: MonitorState, level: Level)
    requires
        !state.holding,
        state.button == level,
    ensures
        state.is_edge(level.spec_toggled()),
        state.emitted(level.spec_toggled()).len() > 0,
        state.emitted(level.spec_toggled())[0] == Event::Button(level.spec_toggled()),
{
}

} // verus!
