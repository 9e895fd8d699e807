//! What the app is told over time of its window being minimized and restored.

use vstd::prelude::*;
use crate::window::events::{is_input, released, without_input, Controls, EventV};
use crate::window::poll::{
    button_outcome, controller_event, dpad_outcome, flushed, key_event, pointer_event,
    poll_ended, polled, stick_outcome, translated, unpinched, window_event, CursorChange, HostEvent,
    PollV,
};
use crate::window::suspend::{minimized_after, queue_after, SuspendEvent};

verus! {

/// What an event says of the window: `true` for minimized, `false` for
/// restored.
pub open spec fn mark(e: EventV) -> Seq<bool> {
    match e {
        EventV::WindowMinimized => seq![true],
        EventV::WindowRestored => seq![false],
        _ => Seq::empty(),
    }
}

/// What a row of events says of the window.
pub open spec fn marks(q: Seq<EventV>) -> Seq<bool>
    decreases q.len(),
{
    if q.len() == 0 {
        Seq::empty()
    } else {
        marks(q.drop_last()) + mark(q.last())
    }
}

/// What is told where the window was, and then is, minimized.
pub open spec fn change(before: bool, after: bool) -> Seq<bool> {
    if before == after {
        Seq::empty()
    } else {
        seq![after]
    }
}

/// The marks take turns; the first says the opposite of `first`.
pub open spec fn take_turns(m: Seq<bool>, first: bool) -> bool {
    forall|i: int| 0 <= i < m.len() ==> #[trigger] m[i] == ((i % 2 == 0) != first)
}

/// Something that happens to a window.
pub enum WindowStep {
    /// An event of the host is translated.
    Polled { ev: HostEvent, desktop: bool, text_input: bool },
    /// Asking for events ends.
    Ended { now: u64, cursor: Option<CursorChange> },
    /// An event of the host comes in the background.
    Suspended { event: SuspendEvent, desktop: bool },
    /// The time in the background begins or ends: input is dropped.
    Dropped,
    /// The app takes an event.
    Taken,
    /// Anything else, such as a pinch or a turn of the device: it leaves alone
    /// what says something of the window.
    Changed { poll: PollV },
}

/// A window, and what the app has taken of the marks so far.
pub struct Watched {
    pub poll: PollV,
    pub taken: Seq<bool>,
}

impl Watched {
    /// All that was ever told, in order: what the app has taken, and what
    /// still waits.
    pub open spec fn told(self) -> Seq<bool> {
        self.taken + marks(self.poll.queue)
    }

    pub open spec fn minimized(self) -> bool {
        self.poll.controls.window_minimized
    }
}

/// The window after a step.
pub open spec fn stepped(w: Watched, k: WindowStep) -> Watched {
    let s = w.poll;
    match k {
        WindowStep::Polled { ev, desktop, text_input } => Watched {
            poll: polled(s, ev, desktop, text_input),
            ..w
        },
        WindowStep::Ended { now, cursor } => Watched {
            poll: PollV { controller_updated: false, ..poll_ended(s, now, cursor) },
            ..w
        },
        WindowStep::Suspended { event, desktop } => Watched {
            poll: PollV {
                queue: queue_after(s.queue, s.controls.window_minimized, event, desktop),
                controls: Controls {
                    window_minimized: minimized_after(s.controls.window_minimized, event, desktop),
                    ..s.controls
                },
                ..s
            },
            ..w
        },
        WindowStep::Dropped => Watched {
            poll: PollV {
                queue: without_input(s.queue),
                controls: released(s.controls),
                ..s
            },
            ..w
        },
        WindowStep::Taken => if s.urgent is Some {
            Watched { poll: PollV { urgent: None, ..s }, ..w }
        } else if s.queue.len() > 0 {
            Watched {
                poll: PollV { queue: s.queue.skip(1), ..s },
                taken: w.taken + mark(s.queue[0]),
            }
        } else {
            w
        },
        WindowStep::Changed { poll } => if marks(poll.queue) == marks(s.queue)
            && poll.controls.window_minimized == s.controls.window_minimized {
            Watched { poll, ..w }
        } else {
            w
        },
    }
}

/// The window after a row of steps.
pub open spec fn after_steps(w: Watched, steps: Seq<WindowStep>) -> Watched
    decreases steps.len(),
{
    if steps.len() == 0 {
        w
    } else {
        stepped(after_steps(w, steps.drop_last()), steps.last())
    }
}

proof fn lemma_marks_push(q: Seq<EventV>, e: EventV)
    ensures
        marks(q.push(e)) == marks(q) + mark(e),
{
    assert(q.push(e).drop_last() =~= q);
}

/// An event that says nothing of the window changes no mark.
proof fn lemma_marks_silent()
    ensures
        forall|q: Seq<EventV>, e: EventV|
            !(e is WindowMinimized) && !(e is WindowRestored) ==> marks(#[trigger] q.push(e))
                == marks(q),
{
    assert forall|q: Seq<EventV>, e: EventV|
        !(e is WindowMinimized) && !(e is WindowRestored) implies marks(#[trigger] q.push(e))
        == marks(q) by {
        lemma_marks_push(q, e);
        assert(marks(q) + mark(e) =~= marks(q));
    }
}

proof fn lemma_marks_first(q: Seq<EventV>)
    requires
        q.len() > 0,
    ensures
        marks(q) == mark(q[0]) + marks(q.skip(1)),
    decreases q.len(),
{
    if q.len() == 1 {
        assert(q.drop_last() =~= Seq::<EventV>::empty());
        assert(q.skip(1) =~= Seq::<EventV>::empty());
        assert(marks(q.drop_last()) =~= Seq::<bool>::empty());
        assert(marks(q.skip(1)) =~= Seq::<bool>::empty());
        assert(marks(q) =~= mark(q[0]) + marks(q.skip(1)));
    } else {
        lemma_marks_first(q.drop_last());
        assert(q.drop_last().skip(1) =~= q.skip(1).drop_last());
        assert(marks(q) =~= mark(q[0]) + marks(q.skip(1)));
    }
}

proof fn lemma_marks_without_input(q: Seq<EventV>)
    ensures
        marks(without_input(q)) == marks(q),
    decreases q.len(),
{
    if q.len() > 0 {
        lemma_marks_without_input(q.drop_last());
        if is_input(q.last()) {
            assert(marks(q) =~= marks(q.drop_last()));
        } else {
            lemma_marks_push(without_input(q.drop_last()), q.last());
        }
    }
}

proof fn lemma_translated(s: PollV, ev: HostEvent, desktop: bool, text_input: bool)
    ensures
        ({
            let t = translated(s, ev, desktop, text_input);
            &&& t.controls.window_minimized == (if !desktop {
                s.controls.window_minimized
            } else {
                (ev is Minimized || s.controls.window_minimized) && !(ev is Restored)
            })
            &&& marks(t.queue) == marks(s.queue) + change(
                s.controls.window_minimized,
                t.controls.window_minimized,
            )
        }),
{
    reveal(pointer_event);
    reveal(key_event);
    reveal(window_event);
    reveal(controller_event);
    reveal(button_outcome);
    reveal(dpad_outcome);
    reveal(stick_outcome);
    lemma_marks_silent();
    assert(marks(s.queue) + Seq::<bool>::empty() =~= marks(s.queue));
    lemma_marks_push(unpinched(s).queue, EventV::WindowMinimized);
    lemma_marks_push(s.queue, EventV::WindowRestored);
}

/// On a desktop the window counts as minimized from the host's word that it is
/// minimized or hidden until the host's word that it is restored, shown or
/// maximized; nothing else the host says, and nothing off a desktop, changes
/// that. The app is told exactly when it changes: a repeated word, a window
/// shown at the start and one maximized while it is visible tell nothing.
pub proof fn law_window_marks_are_changes(
    s: PollV,
    ev: HostEvent,
    desktop: bool,
    text_input: bool,
)
    ensures
        ({
            let t = polled(s, ev, desktop, text_input);
            &&& t.controls.window_minimized == (if !desktop {
                s.controls.window_minimized
            } else {
                (ev is Minimized || s.controls.window_minimized) && !(ev is Restored)
            })
            &&& marks(t.queue) == marks(s.queue) + change(
                s.controls.window_minimized,
                t.controls.window_minimized,
            )
        }),
{
    lemma_marks_silent();
    lemma_translated(s, ev, desktop, text_input);
    lemma_translated(flushed(s), ev, desktop, text_input);
    assert(marks(s.queue) + Seq::<bool>::empty() =~= marks(s.queue));
}

proof fn lemma_ended(s: PollV, now: u64, cursor: Option<CursorChange>)
    ensures
        ({
            let t = poll_ended(s, now, cursor);
            &&& t.controls.window_minimized == s.controls.window_minimized
            &&& marks(t.queue) == marks(s.queue)
        }),
{
    lemma_marks_silent();
}

/// One step adds to what was told exactly the change of the window.
proof fn lemma_stepped(w: Watched, k: WindowStep)
    ensures
        stepped(w, k).told() == w.told() + change(w.minimized(), stepped(w, k).minimized()),
{
    let s = w.poll;
    let t = stepped(w, k);
    assert(w.told() + Seq::<bool>::empty() =~= w.told());
    match k {
        WindowStep::Polled { ev, desktop, text_input } => {
            law_window_marks_are_changes(s, ev, desktop, text_input);
            assert(t.told() =~= w.told() + change(w.minimized(), t.minimized()));
        },
        WindowStep::Ended { now, cursor } => {
            lemma_ended(s, now, cursor);
        },
        WindowStep::Suspended { event, desktop } => {
            lemma_marks_push(s.queue, EventV::WindowMinimized);
            lemma_marks_push(s.queue, EventV::WindowRestored);
            assert(t.told() =~= w.told() + change(w.minimized(), t.minimized()));
        },
        WindowStep::Dropped => {
            lemma_marks_without_input(s.queue);
        },
        WindowStep::Taken => {
            if s.urgent is None && s.queue.len() > 0 {
                lemma_marks_first(s.queue);
                assert(t.told() =~= w.told());
            }
        },
        WindowStep::Changed { .. } => {},
    }
}

/// Whatever the host says, however often it repeats itself, and whether the
/// app is in front or in the background: all that the app was ever told of its
/// window, taken or still waiting, says minimized and restored by turns. For a
/// window that was not minimized at first it begins with minimized, and the
/// last mark is how the window is now.
pub proof fn law_minimize_and_restore_take_turns(w: Watched, steps: Seq<WindowStep>)
    requires
        w.told().len() == 0,
    ensures
        ({
            let t = after_steps(w, steps);
            &&& take_turns(t.told(), w.minimized())
            &&& t.told().len() == 0 ==> t.minimized() == w.minimized()
            &&& t.told().len() > 0 ==> t.told().last() == t.minimized()
        }),
    decreases steps.len(),
{
    if steps.len() > 0 {
        law_minimize_and_restore_take_turns(w, steps.drop_last());
        let m = after_steps(w, steps.drop_last());
        lemma_stepped(m, steps.last());
        let t = after_steps(w, steps);
        assert(t == stepped(m, steps.last()));
        let told = m.told();
        if m.minimized() == t.minimized() {
            assert(t.told() =~= told);
        } else {
            assert(t.told() =~= told.push(t.minimized()));
            if told.len() > 0 {
                assert(told.last() == told[told.len() - 1]);
            }
            assert forall|i: int| 0 <= i < t.told().len() implies #[trigger] t.told()[i] == ((i % 2
                == 0) != w.minimized()) by {
                if i < told.len() {
                    assert(t.told()[i] == told[i]);
                }
            }
        }
    }
}

} // verus!
