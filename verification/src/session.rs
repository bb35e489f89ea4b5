//! The session-stop coordinator: a one-shot running flag, the event callback
//! that drives it, and the laws of the stop transition.

use vstd::prelude::*;

use crate::input::{is_stop_gesture, is_stop_event, InputEvent};

verus! {

/// The process-wide "is the session still running" flag. It starts in the
/// running state and can only ever move to stopped; nothing sets it back.
pub struct SessionFlag {
    running: bool,
}

impl SessionFlag {
    /// Whether the session is still running, as contracts see it.
    pub closed spec fn running(&self) -> bool {
        self.running
    }

    /// A fresh flag for a session that has just started.
    pub fn new() -> (flag: SessionFlag)
        ensures
            flag.running(),
    {
        SessionFlag { running: true }
    }

    /// Move the flag to stopped. Stopping an already-stopped session changes
    /// nothing, so the running-to-stopped transition happens at most once.
    pub fn stop(&mut self)
        ensures
            !final(self).running(),
            !old(self).running() ==> *final(self) == *old(self),
    {
        self.running = false;
    }

    /// Read the flag.
    pub fn is_running(&self) -> (running: bool)
        ensures
            running == self.running(),
    {
        self.running
    }
}

/// Handle one event from the global input stream: on a stop gesture, stop the
/// session and report that the process should terminate; on anything else,
/// leave the flag untouched.
pub fn callback(event: &InputEvent, running: &mut SessionFlag) -> (stop: bool)
    ensures
        stop == is_stop_gesture(*event),
        final(running).running() == (old(running).running() && !is_stop_gesture(*event)),
        !stop ==> *final(running) == *old(running),
{
    if is_stop_event(event) {
        running.stop();
        true
    } else {
        false
    }
}

/// Whether the session is still running after the whole event sequence has
/// been delivered: it is, exactly as long as no stop gesture has arrived.
pub open spec fn running_after(events: Seq<InputEvent>) -> bool
    decreases events.len(),
{
    if events.len() == 0 {
        true
    } else {
        running_after(events.drop_last()) && !is_stop_gesture(events.last())
    }
}

/// The session survives an event sequence exactly when no event in it is a
/// stop gesture: no other event kind or button ever ends the session.
pub proof fn lemma_running_iff_no_gesture(events: Seq<InputEvent>)
    ensures
        running_after(events) <==> (forall|i: int|
            0 <= i < events.len() ==> !is_stop_gesture(events[i])),
    decreases events.len(),
{
    if events.len() > 0 {
        lemma_running_iff_no_gesture(events.drop_last());
        if running_after(events) {
            assert(forall|i: int| 0 <= i < events.len() - 1 ==> {
                &&& events.drop_last()[i] == events[i]
                &&& !is_stop_gesture(events[i])
            });
        } else {
            if !is_stop_gesture(events.last()) {
                let j = choose|j: int|
                    0 <= j < events.len() - 1 && is_stop_gesture(events.drop_last()[j]);
                assert(is_stop_gesture(events[j]));
            }
        }
    }
}

/// The stop is a one-way door: once some prefix of the event sequence has
/// stopped the session, every longer prefix finds it stopped as well.
pub proof fn lemma_stopped_is_permanent(events: Seq<InputEvent>, i: int, j: int)
    requires
        0 <= i <= j <= events.len(),
        !running_after(events.take(i)),
    ensures
        !running_after(events.take(j)),
    decreases j - i,
{
    if i < j {
        assert(events.take(i + 1).drop_last() =~= events.take(i));
        assert(!running_after(events.take(i + 1)));
        lemma_stopped_is_permanent(events, i + 1, j);
    }
}

/// The event at position `i` is the one that stops the session: the session
/// was still running just before it and is stopped just after it.
pub open spec fn transition_at(events: Seq<InputEvent>, i: int) -> bool {
    &&& 0 <= i < events.len()
    &&& running_after(events.take(i))
    &&& !running_after(events.take(i + 1))
}

/// The running-to-stopped transition happens at most once, no matter how many
/// qualifying events the sequence delivers.
pub proof fn lemma_at_most_one_transition(events: Seq<InputEvent>, i: int, j: int)
    requires
        transition_at(events, i),
        transition_at(events, j),
    ensures
        i == j,
{
    if i < j {
        lemma_stopped_is_permanent(events, i + 1, j);
    }
    if j < i {
        lemma_stopped_is_permanent(events, j + 1, i);
    }
}

/// A stop gesture anywhere in the sequence stops the session, and it does so
/// through exactly one transition.
pub proof fn lemma_gesture_stops_exactly_once(events: Seq<InputEvent>)
    requires
        exists|i: int| 0 <= i < events.len() && is_stop_gesture(events[i]),
    ensures
        !running_after(events),
        exists|i: int| transition_at(events, i),
        forall|i: int, j: int|
            transition_at(events, i) && transition_at(events, j) ==> i == j,
    decreases events.len(),
{
    lemma_running_iff_no_gesture(events);
    let w = choose|w: int| 0 <= w < events.len() && is_stop_gesture(events[w]);
    if exists|i: int| 0 <= i < events.len() - 1 && is_stop_gesture(events.drop_last()[i]) {
        lemma_gesture_stops_exactly_once(events.drop_last());
        let i = choose|i: int| transition_at(events.drop_last(), i);
        assert(events.drop_last().take(i) =~= events.take(i));
        assert(events.drop_last().take(i + 1) =~= events.take(i + 1));
        assert(transition_at(events, i));
    } else {
        lemma_running_iff_no_gesture(events.drop_last());
        if w < events.len() - 1 {
            assert(is_stop_gesture(events.drop_last()[w]));
            assert(false);
        }
        assert(events.take(events.len() - 1) =~= events.drop_last());
        assert(events.take(events.len() as int) =~= events);
        assert(transition_at(events, events.len() - 1));
    }
    assert(forall|i: int, j: int|
        transition_at(events, i) && transition_at(events, j) ==> i == j) by {
        assert forall|i: int, j: int|
            transition_at(events, i) && transition_at(events, j) implies i == j by {
            lemma_at_most_one_transition(events, i, j);
        }
    }
}

/// Deliver a sequence of events to a freshly running session, exactly as the
/// listening loop would: the first stop gesture stops the session and ends
/// delivery (the process terminates), and its position is returned; if no
/// event qualifies, the session is still running afterwards.
pub fn process_events(events: &Vec<InputEvent>, flag: &mut SessionFlag) -> (stopped_at: Option<
    usize,
>)
    requires
        old(flag).running(),
    ensures
        final(flag).running() == running_after(events@),
        stopped_at is Some <==> !final(flag).running(),
        stopped_at matches Some(i) ==> {
            &&& i < events@.len()
            &&& is_stop_gesture(events@[i as int])
            &&& forall|j: int| 0 <= j < i ==> !is_stop_gesture(events@[j])
        },
        stopped_at is None ==> forall|j: int|
            0 <= j < events@.len() ==> !is_stop_gesture(events@[j]),
{
    let mut i: usize = 0;
    while i < events.len()
        invariant
            i <= events@.len(),
            flag.running(),
            *flag == *old(flag),
            forall|j: int| 0 <= j < i ==> !is_stop_gesture(events@[j]),
        decreases events@.len() - i,
    {
        if callback(&events[i], flag) {
            proof {
                lemma_running_iff_no_gesture(events@);
            }
            return Some(i);
        }
        i += 1;
    }
    proof {
        lemma_running_iff_no_gesture(events@);
    }
    None
}

} // verus!
