//! The frame loop controller: a two-state machine (running, stopped)
//! driven by the events the windowing backend delivers each iteration.
//! It decides when the loop ends and which side effects the backend is
//! asked to perform; the backend itself lives outside this crate.

use vstd::prelude::*;

verus! {

/// A key as far as the loop distinguishes keys: the exit key, or any
/// other key.
#[derive(Clone, Copy, Debug, PartialEq, Eq, Structural)]
pub enum Key {
    Escape,
    Other,
}

/// One input or window event, as handed over by the windowing backend.
#[derive(Clone, Copy, Debug, PartialEq, Eq, Structural)]
pub enum Event {
    /// The user asked to close the window.
    CloseRequested,
    /// A key was pressed.
    KeyPress(Key),
    /// The window was resized to the given width and height in pixels.
    Resized(u32, u32),
    /// Any event the loop does not react to.
    Other,
}

/// A side effect the controller asks of the graphics backend while
/// draining events: rebuild the render-target and depth views for the
/// given window dimensions.
#[derive(Clone, Copy, Debug, PartialEq, Eq, Structural)]
pub enum Action {
    Reconfigure(u32, u32),
}

/// The event stops the loop: a close request, or the exit key.
pub open spec fn stops(e: Event) -> bool {
    e == Event::CloseRequested || e == Event::KeyPress(Key::Escape)
}

/// Whether the loop still runs after draining `events`, starting from
/// the running flag `r0`.  Once false it stays false: every event of the
/// batch is applied, and none can restart the loop.
pub open spec fn running_after(r0: bool, events: Seq<Event>) -> bool
    decreases events.len(),
{
    if events.len() == 0 {
        r0
    } else {
        running_after(r0, events.drop_last()) && !stops(events.last())
    }
}

/// The backend side effects that draining `events` asks for, in order:
/// one view reconfiguration per resize event, nothing for any other
/// event.  Independent of the running flag, and with no change
/// detection: a repeated size asks again.
pub open spec fn actions_of(events: Seq<Event>) -> Seq<Action>
    decreases events.len(),
{
    if events.len() == 0 {
        Seq::empty()
    } else {
        actions_of(events.drop_last()) + (match events.last() {
            Event::Resized(w, h) => seq![Action::Reconfigure(w, h)],
            _ => Seq::empty(),
        })
    }
}

/// The frame loop controller.  It owns the running flag; the loop ends
/// when the flag falls to false.
pub struct FrameController {
    pub running: bool,
}

impl FrameController {
    /// A controller starts running.
    pub fn new() -> (c: Self)
        ensures
            c.running,
    {
        FrameController { running: true }
    }

    /// Apply a single event: a close request or the exit key stops the
    /// loop, a resize asks the backend to rebuild its views, and every
    /// other event is a no-op.
    pub fn handle_event(&mut self, event: &Event) -> (action: Option<Action>)
        ensures
            final(self).running == (old(self).running && !stops(*event)),
            action == (match *event {
                Event::Resized(w, h) => Some(Action::Reconfigure(w, h)),
                _ => None::<Action>,
            }),
    {
        match *event {
            Event::CloseRequested => {
                self.running = false;
                None
            },
            Event::KeyPress(Key::Escape) => {
                self.running = false;
                None
            },
            Event::KeyPress(Key::Other) => None,
            Event::Resized(w, h) => Some(Action::Reconfigure(w, h)),
            Event::Other => None,
        }
    }

    /// Drain one iteration's batch of pending events, in order.  The
    /// running flag afterwards is `running_after` of the batch, and the
    /// returned actions are exactly the view reconfigurations the batch
    /// asks for, in order.
    pub fn handle_events(&mut self, events: &Vec<Event>) -> (actions: Vec<Action>)
        ensures
            final(self).running == running_after(old(self).running, events@),
            actions@ == actions_of(events@),
    {
        let ghost r0 = self.running;
        let mut actions: Vec<Action> = Vec::new();
        for idx in 0..events.len()
            invariant
                self.running == running_after(r0, events@.take(idx as int)),
                actions@ == actions_of(events@.take(idx as int)),
        {
            let action = self.handle_event(&events[idx]);
            if let Some(act) = action {
                actions.push(act);
            }
            proof {
                assert(events@.take(idx as int + 1).drop_last() =~= events@.take(idx as int));
            }
        }
        proof {
            assert(events@.take(events@.len() as int) =~= events@);
        }
        actions
    }

    /// The per-iteration gate: a frame is drawn only while the loop
    /// still runs.  Checked right after draining events, so that no
    /// draw follows a stop.
    pub fn should_draw(&self) -> (d: bool)
        ensures
            d == self.running,
    {
        self.running
    }
}

/// Law: a batch that holds a stopping event — a close request or an
/// Escape key press — leaves the loop stopped, wherever in the batch
/// the event stands and whatever else the batch holds.
pub proof fn lemma_stop_event_stops(r0: bool, events: Seq<Event>, i: int)
    requires
        0 <= i < events.len(),
        stops(events[i]),
    ensures
        !running_after(r0, events),
    decreases events.len(),
{
    if i < events.len() - 1 {
        lemma_stop_event_stops(r0, events.drop_last(), i);
    }
}

/// Law: once stopped, the loop never resumes: no batch of events brings
/// the running flag back.
pub proof fn lemma_stopped_stays_stopped(events: Seq<Event>)
    ensures
        !running_after(false, events),
    decreases events.len(),
{
    if events.len() > 0 {
        lemma_stopped_stays_stopped(events.drop_last());
    }
}

/// Law: resize handling has no change detection.  Two consecutive
/// resize events with the same dimensions append exactly two
/// reconfigure actions, one for each.
pub proof fn lemma_resize_repeated(events: Seq<Event>, w: u32, h: u32)
    ensures
        actions_of(events.push(Event::Resized(w, h)).push(Event::Resized(w, h)))
            == actions_of(events)
                + seq![Action::Reconfigure(w, h), Action::Reconfigure(w, h)],
{
    let once = events.push(Event::Resized(w, h));
    let twice = once.push(Event::Resized(w, h));
    assert(twice.drop_last() =~= once);
    assert(once.drop_last() =~= events);
    assert(actions_of(once) =~= actions_of(events) + seq![Action::Reconfigure(w, h)]);
    assert(actions_of(twice) =~= actions_of(once) + seq![Action::Reconfigure(w, h)]);
    assert(actions_of(twice) =~= actions_of(events)
        + seq![Action::Reconfigure(w, h), Action::Reconfigure(w, h)]);
}

} // verus!
