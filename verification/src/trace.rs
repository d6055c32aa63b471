//! What holds of whole runs of the monitor, over any sequence of readings.

use vstd::prelude::*;
use crate::level::Level;
use crate::monitor::{
    button_entries, led_entries, lemma_button_logged_iff_edge, lemma_led_toggles_iff_press,
    press_entries, Event, MonitorState,
};

verus! {

/// The same reading, taken `n` times.
pub open spec fn repeated(level: Level, n: nat) -> Seq<Level> {
    Seq::new(n, |i: int| level)
}

/// How many of `readings`, taken in turn from `state`, are edges.
pub open spec fn edge_count(state: MonitorState, readings: Seq<Level>) -> nat
    decreases readings.len(),
{
    if readings.len() == 0 {
        0
    } else {
        edge_count(state, readings.drop_last()) + if state.run(readings.drop_last()).is_edge(
            readings.last(),
        ) {
            1nat
        } else {
            0nat
        }
    }
}

/// `level`, toggled `n` times.
pub open spec fn toggled_times(level: Level, n: nat) -> Level {
    if n % 2 == 0 {
        level
    } else {
        level.spec_toggled()
    }
}

/// Whether entry `i` of `events` records a press of the button.
pub open spec fn press_at(events: Seq<Event>, i: int) -> bool {
    0 <= i < events.len() && events[i] == Event::Button(Level::Low)
}

/// Whether entry `i` of `events` records the LED.
pub open spec fn led_at(events: Seq<Event>, i: int) -> bool {
    0 <= i < events.len() && events[i] is Led
}

/// Whether `events` records the LED exactly after each press: every press
/// entry is followed by an LED entry, and every LED entry follows a press
/// entry.
pub open spec fn led_follows_press(events: Seq<Event>) -> bool {
    &&& forall|i: int| #[trigger] press_at(events, i) ==> led_at(events, i + 1)
    &&& forall|i: int| #[trigger] led_at(events, i) ==> press_at(events, i - 1)
}

/// Taking `first` and then `second` is taking the two one after the other:
/// the second part starts from the state the first part ended in.
pub proof fn lemma_run_concat(state: MonitorState, first: Seq<Level>, second: Seq<Level>)
    ensures
        state.run(first + second) == state.run(first).run(second),
        state.trace(first + second) == state.trace(first) + state.run(first).trace(second),
    decreases second.len(),
{
    if second.len() == 0 {
        assert(first + second == first);
        assert(state.trace(first) + Seq::<Event>::empty() == state.trace(first));
    } else {
        let all = first + second;
        assert(all.drop_last() == first + second.drop_last());
        assert(all.last() == second.last());
        lemma_run_concat(state, first, second.drop_last());
        let mid = state.run(first);
        assert(state.trace(all) == state.trace(first) + (mid.trace(second.drop_last())
            + mid.run(second.drop_last()).emitted(second.last())));
    }
}

/// One reading taken alone is one step.
pub proof fn lemma_run_single(state: MonitorState, reading: Level)
    ensures
        state.run(seq![reading]) == state.next(reading),
        state.trace(seq![reading]) == state.emitted(reading),
{
    let one = seq![reading];
    assert(one.drop_last() == Seq::<Level>::empty());
    assert(one.last() == reading);
    reveal_with_fuel(MonitorState::run, 2);
    reveal_with_fuel(MonitorState::trace, 2);
    assert(Seq::<Event>::empty() + state.emitted(reading) == state.emitted(reading));
}

/// Entries are counted part by part.
pub proof fn lemma_entries_concat(first: Seq<Event>, second: Seq<Event>)
    ensures
        button_entries(first + second) == button_entries(first) + button_entries(second),
        led_entries(first + second) == led_entries(first) + led_entries(second),
        press_entries(first + second) == press_entries(first) + press_entries(second),
    decreases second.len(),
{
    if second.len() == 0 {
        assert(first + second == first);
    } else {
        let all = first + second;
        assert(all.drop_last() == first + second.drop_last());
        assert(all.last() == second.last());
        lemma_entries_concat(first, second.drop_last());
    }
}

/// A run from a well-formed state ends in one.
pub proof fn lemma_run_keeps_wf(state: MonitorState, readings: Seq<Level>)
    requires
        state.wf(),
    ensures
        state.run(readings).wf(),
    decreases readings.len(),
{
    if readings.len() > 0 {
        lemma_run_keeps_wf(state, readings.drop_last());
    }
}

/// Over any run, the log holds one button entry for each edge and no other:
/// a reading that is no edge adds none.
pub proof fn lemma_button_entries_count_edges(state: MonitorState, readings: Seq<Level>)
    ensures
        button_entries(state.trace(readings)) == edge_count(state, readings),
    decreases readings.len(),
{
    if readings.len() > 0 {
        let before = state.run(readings.drop_last());
        lemma_button_entries_count_edges(state, readings.drop_last());
        lemma_entries_concat(state.trace(readings.drop_last()), before.emitted(readings.last()));
        lemma_button_logged_iff_edge(before, readings.last());
    }
}

/// Polling the same reading again and again logs what the first poll logged
/// and nothing more, and leaves the monitor where the first poll left it.
pub proof fn lemma_repeated_polls_are_silent(state: MonitorState, reading: Level, n: nat)
    requires
        !state.holding,
        n >= 1,
    ensures
        state.run(repeated(reading, n)) == state.next(reading),
        state.trace(repeated(reading, n)) == state.emitted(reading),
    decreases n,
{
    let readings = repeated(reading, n);
    if n == 1 {
        assert(readings == seq![reading]);
        lemma_run_single(state, reading);
    } else {
        assert(readings.drop_last() == repeated(reading, (n - 1) as nat));
        assert(readings.last() == reading);
        lemma_repeated_polls_are_silent(state, reading, (n - 1) as nat);
        assert(state.emitted(reading) + Seq::<Event>::empty() == state.emitted(reading));
    }
}

/// However long the button stays down after a press, nothing more is logged
/// and nothing changes.
pub proof fn lemma_held_button_is_waited_out(state: MonitorState, n: nat)
    requires
        state.holding,
    ensures
        state.run(repeated(Level::Low, n)) == state,
        state.trace(repeated(Level::Low, n)) == Seq::<Event>::empty(),
    decreases n,
{
    let readings = repeated(Level::Low, n);
    if n > 0 {
        assert(readings.drop_last() == repeated(Level::Low, (n - 1) as nat));
        assert(readings.last() == Level::Low);
        lemma_held_button_is_waited_out(state, (n - 1) as nat);
        assert(Seq::<Event>::empty() + Seq::<Event>::empty() == Seq::<Event>::empty());
    }
}

/// One press toggles the LED once, however long the button is held: from a
/// released button, the readings `Low`, then `Low` any number of times, then
/// `High` log one button entry and one LED entry, and the monitor is polling
/// again with the LED toggled.
pub proof fn lemma_one_toggle_per_press(state: MonitorState, held: nat)
    requires
        !state.holding,
        state.button == Level::High,
    ensures
        state.trace(seq![Level::Low] + repeated(Level::Low, held) + seq![Level::High]) == seq![
            Event::Button(Level::Low),
            Event::Led(state.led.spec_toggled()),
        ],
        state.run(seq![Level::Low] + repeated(Level::Low, held) + seq![Level::High]) == (
        MonitorState { button: Level::Low, led: state.led.spec_toggled(), holding: false }),
{
    let press = seq![Level::Low];
    let hold = repeated(Level::Low, held);
    let release = seq![Level::High];
    let pressed = state.next(Level::Low);
    lemma_run_single(state, Level::Low);
    lemma_held_button_is_waited_out(pressed, held);
    lemma_run_concat(state, press, hold);
    lemma_run_single(pressed, Level::High);
    lemma_run_concat(state, press + hold, release);
    assert(state.emitted(Level::Low) + Seq::<Event>::empty() + Seq::<Event>::empty()
        == state.emitted(Level::Low));
}

/// Over any run, the log records the LED once for each press it records, and
/// the LED ends toggled that many times.
pub proof fn lemma_led_entries_match_presses(state: MonitorState, readings: Seq<Level>)
    ensures
        led_entries(state.trace(readings)) == press_entries(state.trace(readings)),
        state.run(readings).led == toggled_times(state.led, led_entries(state.trace(readings))),
    decreases readings.len(),
{
    if readings.len() > 0 {
        let before = state.run(readings.drop_last());
        let reading = readings.last();
        lemma_led_entries_match_presses(state, readings.drop_last());
        lemma_entries_concat(state.trace(readings.drop_last()), before.emitted(reading));
        lemma_led_toggles_iff_press(before, reading);
    }
}

/// Over any run, the LED entries of the log are exactly the entries that
/// follow a press.
pub proof fn lemma_led_follows_press(state: MonitorState, readings: Seq<Level>)
    ensures
        led_follows_press(state.trace(readings)),
    decreases readings.len(),
{
    if readings.len() > 0 {
        let before = state.run(readings.drop_last());
        let earlier = state.trace(readings.drop_last());
        let step = before.emitted(readings.last());
        lemma_led_follows_press(state, readings.drop_last());
        let all = earlier + step;
        assert forall|i: int| #[trigger] press_at(all, i) implies led_at(all, i + 1) by {
            if i < earlier.len() {
                assert(press_at(earlier, i));
                assert(led_at(earlier, i + 1));
            }
        }
        assert forall|i: int| #[trigger] led_at(all, i) implies press_at(all, i - 1) by {
            if i < earlier.len() {
                assert(led_at(earlier, i));
                assert(press_at(earlier, i - 1));
            }
        }
    }
}

} // verus!
