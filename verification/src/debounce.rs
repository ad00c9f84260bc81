//! Edge detection for the four buttons.
//!
//! The poller samples all four inputs once per period and compares each new
//! level to the one recorded on the previous cycle. A press is the rising
//! edge between two samples: exactly one event per press, none while a button
//! is held, and events of one cycle always in the fixed priority order
//! reload, scroll-right, scroll-left, done.

use vstd::prelude::*;
use crate::controller::ButtonEvent;

verus! {

/// The four raw levels read in one polling cycle.
#[derive(Debug, Clone, Copy, PartialEq, Eq, Structural)]
pub struct PollLevels {
    pub reload: bool,
    pub scroll_right: bool,
    pub scroll_left: bool,
    pub done: bool,
}

/// The level each button had on the previous cycle.
#[derive(Debug, Clone, Copy, PartialEq, Eq, Structural)]
pub struct DebounceState {
    pub reload: bool,
    pub scroll_right: bool,
    pub scroll_left: bool,
    pub done: bool,
}

/// A press: the signal was low on the previous sample and is high now.
pub open spec fn rising_edge(prev: bool, now: bool) -> bool {
    now && !prev
}

/// The recorded levels after a cycle that sampled `now`.
pub open spec fn next_state(now: PollLevels) -> DebounceState {
    DebounceState {
        reload: now.reload,
        scroll_right: now.scroll_right,
        scroll_left: now.scroll_left,
        done: now.done,
    }
}

/// The level the cycle `now` sampled for the button behind event `e`.
pub open spec fn event_level(now: PollLevels, e: ButtonEvent) -> bool {
    match e {
        ButtonEvent::ReloadTasks => now.reload,
        ButtonEvent::ScrollRight => now.scroll_right,
        ButtonEvent::ScrollLeft => now.scroll_left,
        ButtonEvent::TaskDone => now.done,
    }
}

/// The level recorded in `prev` for the button behind event `e`.
pub open spec fn stored_level(prev: DebounceState, e: ButtonEvent) -> bool {
    match e {
        ButtonEvent::ReloadTasks => prev.reload,
        ButtonEvent::ScrollRight => prev.scroll_right,
        ButtonEvent::ScrollLeft => prev.scroll_left,
        ButtonEvent::TaskDone => prev.done,
    }
}

/// The events one cycle emits: one per rising edge, in the fixed priority
/// order reload, scroll-right, scroll-left, done.
pub open spec fn emitted_events(prev: DebounceState, now: PollLevels) -> Seq<ButtonEvent> {
    (if rising_edge(prev.reload, now.reload) {
        seq![ButtonEvent::ReloadTasks]
    } else {
        Seq::<ButtonEvent>::empty()
    }) + (if rising_edge(prev.scroll_right, now.scroll_right) {
        seq![ButtonEvent::ScrollRight]
    } else {
        Seq::<ButtonEvent>::empty()
    }) + (if rising_edge(prev.scroll_left, now.scroll_left) {
        seq![ButtonEvent::ScrollLeft]
    } else {
        Seq::<ButtonEvent>::empty()
    }) + (if rising_edge(prev.done, now.done) {
        seq![ButtonEvent::TaskDone]
    } else {
        Seq::<ButtonEvent>::empty()
    })
}

/// How many times event `e` occurs in `s`.
pub open spec fn count_events(s: Seq<ButtonEvent>, e: ButtonEvent) -> nat
    decreases s.len(),
{
    if s.len() == 0 {
        0
    } else {
        (if s[0] == e {
            1nat
        } else {
            0nat
        }) + count_events(s.drop_first(), e)
    }
}

impl DebounceState {
    /// All levels recorded as low, as on the cycle before the first sample.
    pub fn new() -> (r: DebounceState)
        ensures
            r == (DebounceState {
                reload: false,
                scroll_right: false,
                scroll_left: false,
                done: false,
            }),
    {
        DebounceState { reload: false, scroll_right: false, scroll_left: false, done: false }
    }

    /// One polling cycle: emits the events whose buttons rose since the
    /// previous cycle, in priority order, and records the new levels whether
    /// or not an edge fired.
    pub fn poll_cycle(&mut self, now: PollLevels) -> (events: Vec<ButtonEvent>)
        ensures
            events@ == emitted_events(*old(self), now),
            *final(self) == next_state(now),
    {
        let ghost prev = *self;
        let mut events: Vec<ButtonEvent> = Vec::new();
        if now.reload && !self.reload {
            events.push(ButtonEvent::ReloadTasks);
        }
        self.reload = now.reload;
        if now.scroll_right && !self.scroll_right {
            events.push(ButtonEvent::ScrollRight);
        }
        self.scroll_right = now.scroll_right;
        if now.scroll_left && !self.scroll_left {
            events.push(ButtonEvent::ScrollLeft);
        }
        self.scroll_left = now.scroll_left;
        if now.done && !self.done {
            events.push(ButtonEvent::TaskDone);
        }
        self.done = now.done;
        proof {
            assert(events@ =~= emitted_events(prev, now));
        }
        events
    }
}

/// Counting an event distributes over concatenation.
proof fn lemma_count_events_concat(a: Seq<ButtonEvent>, b: Seq<ButtonEvent>, e: ButtonEvent)
    ensures
        count_events(a + b, e) == count_events(a, e) + count_events(b, e),
    decreases a.len(),
{
    if a.len() == 0 {
        assert(a + b =~= b);
    } else {
        assert((a + b).drop_first() =~= a.drop_first() + b);
        lemma_count_events_concat(a.drop_first(), b, e);
    }
}

/// Counting in a one-event sequence finds that event and nothing else.
proof fn lemma_count_events_singleton(x: ButtonEvent, e: ButtonEvent)
    ensures
        count_events(seq![x], e) == (if x == e {
            1nat
        } else {
            0nat
        }),
{
    assert(seq![x].drop_first() =~= Seq::<ButtonEvent>::empty());
    assert(count_events(Seq::<ButtonEvent>::empty(), e) == 0);
    assert(seq![x][0] == x);
}

/// Law: one cycle emits the event of a button exactly once when its signal
/// rose since the previous cycle, and not at all otherwise.
pub proof fn lemma_emits_iff_rising_edge(prev: DebounceState, now: PollLevels, e: ButtonEvent)
    ensures
        count_events(emitted_events(prev, now), e) == (if rising_edge(
            stored_level(prev, e),
            event_level(now, e),
        ) {
            1nat
        } else {
            0nat
        }),
{
    let s1 = if rising_edge(prev.reload, now.reload) {
        seq![ButtonEvent::ReloadTasks]
    } else {
        Seq::<ButtonEvent>::empty()
    };
    let s2 = if rising_edge(prev.scroll_right, now.scroll_right) {
        seq![ButtonEvent::ScrollRight]
    } else {
        Seq::<ButtonEvent>::empty()
    };
    let s3 = if rising_edge(prev.scroll_left, now.scroll_left) {
        seq![ButtonEvent::ScrollLeft]
    } else {
        Seq::<ButtonEvent>::empty()
    };
    let s4 = if rising_edge(prev.done, now.done) {
        seq![ButtonEvent::TaskDone]
    } else {
        Seq::<ButtonEvent>::empty()
    };
    lemma_count_events_concat(s1, s2 + s3 + s4, e);
    lemma_count_events_concat(s2, s3 + s4, e);
    lemma_count_events_concat(s3, s4, e);
    assert(emitted_events(prev, now) =~= s1 + (s2 + s3 + s4));
    assert(s2 + s3 + s4 =~= s2 + (s3 + s4));
    assert(count_events(Seq::<ButtonEvent>::empty(), e) == 0);
    lemma_count_events_singleton(ButtonEvent::ReloadTasks, e);
    lemma_count_events_singleton(ButtonEvent::ScrollRight, e);
    lemma_count_events_singleton(ButtonEvent::ScrollLeft, e);
    lemma_count_events_singleton(ButtonEvent::TaskDone, e);
}

/// Law: a rising edge followed by a held-high level emits exactly one event
/// for that button across the two cycles.
pub proof fn lemma_press_emits_once(
    prev: DebounceState,
    first: PollLevels,
    second: PollLevels,
    e: ButtonEvent,
)
    requires
        !stored_level(prev, e),
        event_level(first, e),
        event_level(second, e),
    ensures
        count_events(emitted_events(prev, first), e) + count_events(
            emitted_events(next_state(first), second),
            e,
        ) == 1,
{
    lemma_emits_iff_rising_edge(prev, first, e);
    lemma_emits_iff_rising_edge(next_state(first), second, e);
}

/// Law: with no rising edge — the signal is low now, or was already high on
/// the previous cycle — the cycle emits no event for that button.
pub proof fn lemma_no_edge_no_event(prev: DebounceState, now: PollLevels, e: ButtonEvent)
    requires
        !event_level(now, e) || stored_level(prev, e),
    ensures
        count_events(emitted_events(prev, now), e) == 0,
{
    lemma_emits_iff_rising_edge(prev, now, e);
}

} // verus!
