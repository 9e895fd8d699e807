//! The time the app spends in the background.

use vstd::prelude::*;
use crate::window::events::{released, without_input, Controls, Event, EventV, Window};
use crate::window::poll::resized;

verus! {

/// Nanoseconds of rest after each round of looking for events.
pub const SUSPEND_POLL_INTERVAL: u64 = 50_000_000;

/// The first rounds follow each other at once, so that the host can put the
/// graphics aside in time.
pub const SUSPEND_FAST_ROUNDS: u32 = 3;

/// What ends the time in the background.
#[derive(Clone, Copy, Debug, PartialEq, Eq, Structural)]
pub enum SuspendEnd {
    /// The host says that the app is in the foreground.
    Foreground,
    /// So many nanoseconds have passed.
    Timer(u64),
}

/// How the time in the background ended.
#[derive(Clone, Copy, Debug, PartialEq, Eq, Structural)]
pub enum SuspendOutcome {
    /// The app goes on.
    Resumed,
    /// The app has to end.
    Terminate,
    /// The graphics were lost; the app has to save and end.
    RenderDeviceLost,
}

/// An event of the host in the background.
#[derive(Clone, Copy, Debug, PartialEq, Eq, Structural)]
pub enum SuspendEvent {
    Quit,
    Terminating,
    /// The app is going, or has gone, to the background.
    Background,
    DidEnterForeground,
    DeviceReset,
    Minimized,
    Restored,
    Resized { height: Option<u32> },
    /// Input of the user, and anything else.
    Other,
}

/// State of the time in the background.
#[derive(Clone, Copy, Debug, PartialEq, Eq, Structural)]
pub struct Suspension {
    /// When it ends, where a timer ends it.
    pub deadline: Option<u64>,
    pub foreground: bool,
    pub device_lost: bool,
    pub round: u32,
    /// Whether the window can be minimized.
    pub desktop: bool,
}

/// What to do after a round of looking for events.
#[derive(Clone, Copy, Debug, PartialEq, Eq, Structural)]
pub enum SuspendStep {
    Done(SuspendOutcome),
    /// Look again at once.
    Again,
    /// Rest for so many nanoseconds, then look again.
    Rest(u64),
}

/// When a time in the background that begins at `now` ends by a timer.
pub open spec fn deadline_of(end: SuspendEnd, now: u64) -> Option<u64> {
    match end {
        SuspendEnd::Foreground => None,
        SuspendEnd::Timer(t) => Some(
            if now + t > u64::MAX {
                u64::MAX
            } else {
                (now + t) as u64
            },
        ),
    }
}

/// The state at the beginning.
pub open spec fn begun(end: SuspendEnd, now: u64, desktop: bool) -> Suspension {
    Suspension {
        deadline: deadline_of(end, now),
        foreground: false,
        device_lost: false,
        round: 0,
        desktop,
    }
}

/// The state after an event.
pub open spec fn noticed(s: Suspension, ev: SuspendEvent) -> Suspension {
    match ev {
        SuspendEvent::Background => Suspension { foreground: false, ..s },
        SuspendEvent::DidEnterForeground => Suspension { foreground: true, ..s },
        SuspendEvent::DeviceReset => Suspension { device_lost: true, ..s },
        _ => s,
    }
}

/// Whether the window counts as minimized after an event in the background.
pub open spec fn minimized_after(minimized: bool, ev: SuspendEvent, desktop: bool) -> bool {
    if !desktop {
        minimized
    } else {
        match ev {
            SuspendEvent::Minimized => true,
            SuspendEvent::Restored => false,
            _ => minimized,
        }
    }
}

/// What waits after an event in the background: the app is told of the window
/// where it was minimized or restored by it.
pub open spec fn queue_after(
    q: Seq<EventV>,
    minimized: bool,
    ev: SuspendEvent,
    desktop: bool,
) -> Seq<EventV> {
    let after = minimized_after(minimized, ev, desktop);
    if after == minimized {
        q
    } else if after {
        q.push(EventV::WindowMinimized)
    } else {
        q.push(EventV::WindowRestored)
    }
}

/// Whether the time in the background is over.
pub open spec fn is_over(s: Suspension, now: u64) -> bool {
    match s.deadline {
        Some(d) => now >= d,
        None => s.foreground,
    }
}

/// What to do after a round, of which `round` are over.
pub open spec fn next_step(s: Suspension, now: u64) -> SuspendStep {
    if is_over(s, now) {
        SuspendStep::Done(
            if s.device_lost {
                SuspendOutcome::RenderDeviceLost
            } else {
                SuspendOutcome::Resumed
            },
        )
    } else if s.round < SUSPEND_FAST_ROUNDS {
        SuspendStep::Again
    } else {
        SuspendStep::Rest(
            match s.deadline {
                Some(d) => if d - now < SUSPEND_POLL_INTERVAL {
                    (d - now) as u64
                } else {
                    SUSPEND_POLL_INTERVAL
                },
                None => SUSPEND_POLL_INTERVAL,
            },
        )
    }
}

/// The round that follows.
pub open spec fn next_round(s: Suspension) -> Suspension {
    Suspension {
        round: if s.round == u32::MAX {
            u32::MAX
        } else {
            (s.round + 1) as u32
        },
        ..s
    }
}

impl Window {
    /// Begins the time in the background: input that waits is dropped.
    pub fn suspend_until_foreground(&mut self, end: SuspendEnd, now: u64, desktop: bool) -> (s:
        Suspension)
        requires
            old(self).frame.on_main_stack,
        ensures
            s == begun(end, now, desktop),
            final(self).queue() == without_input(old(self).queue()),
            final(self).controls == released(old(self).controls),
            final(self).high_priority_event == old(self).high_priority_event,
            final(self).frame == old(self).frame,
            final(self).controllers == old(self).controllers,
    {
        let deadline: Option<u64> = match end {
            SuspendEnd::Foreground => None,
            SuspendEnd::Timer(t) => Some(now.saturating_add(t)),
        };
        let _dropped: usize = self.discard_pending_input();
        Suspension { deadline, foreground: false, device_lost: false, round: 0, desktop }
    }

    /// Takes note of an event in the background; the outcome where it ends the
    /// time at once.
    pub fn suspend_event(&mut self, s: &mut Suspension, ev: SuspendEvent) -> (r: Option<
        SuspendOutcome,
    >)
        ensures
            r == (if ends_app(ev) {
                Some(SuspendOutcome::Terminate)
            } else {
                None::<SuspendOutcome>
            }),
            *final(s) == noticed(*old(s), ev),
            final(self).controls == (Controls {
                window_minimized: minimized_after(
                    old(self).controls.window_minimized,
                    ev,
                    old(s).desktop,
                ),
                ..old(self).controls
            }),
            final(self).queue() == queue_after(
                old(self).queue(),
                old(self).controls.window_minimized,
                ev,
                old(s).desktop,
            ),
            final(self).controllers == old(self).controllers,
            final(self).frame == (match ev {
                SuspendEvent::Resized { height } => resized(old(self).frame, height),
                _ => old(self).frame,
            }),
            final(self).high_priority_event == old(self).high_priority_event,
    {
        match ev {
            SuspendEvent::Quit | SuspendEvent::Terminating => {
                return Some(SuspendOutcome::Terminate);
            },
            SuspendEvent::Background => s.foreground = false,
            SuspendEvent::DidEnterForeground => s.foreground = true,
            SuspendEvent::DeviceReset => s.device_lost = true,
            SuspendEvent::Minimized => {
                if s.desktop && !self.controls.window_minimized {
                    self.controls = Controls { window_minimized: true, ..self.controls };
                    self.push(Event::WindowMinimized);
                }
            },
            SuspendEvent::Restored => {
                if s.desktop && self.controls.window_minimized {
                    self.controls = Controls { window_minimized: false, ..self.controls };
                    self.push(Event::WindowRestored);
                }
            },
            SuspendEvent::Resized { height } => self.note_height(height),
            SuspendEvent::Other => {},
        }
        None
    }

    /// Ends the time in the background: input that has come is dropped, and
    /// events are asked for again at once.
    pub fn suspend_finish(&mut self)
        ensures
            final(self).queue() == without_input(old(self).queue()),
            final(self).controls == input_after(old(self).controls),
            final(self).controls == (Controls {
                enable_event_polling: true,
                last_polled: None,
                ..released(old(self).controls)
            }),
            final(self).high_priority_event == old(self).high_priority_event,
            final(self).frame == old(self).frame,
            final(self).controllers == old(self).controllers,
    {
        let _dropped: usize = self.discard_pending_input();
        self.controls =
        Controls { enable_event_polling: true, last_polled: None, ..self.controls };
    }
}

impl Suspension {
    /// Ends a round of looking for events.
    pub fn round_over(&mut self, now: u64) -> (r: SuspendStep)
        ensures
            *final(self) == next_round(*old(self)),
            r == next_step(next_round(*old(self)), now),
    {
        self.round = self.round.saturating_add(1);
        let done = match self.deadline {
            Some(d) => now >= d,
            None => self.foreground,
        };
        if done {
            return SuspendStep::Done(
                if self.device_lost {
                    SuspendOutcome::RenderDeviceLost
                } else {
                    SuspendOutcome::Resumed
                },
            );
        }
        if self.round < SUSPEND_FAST_ROUNDS {
            return SuspendStep::Again;
        }
        let nap: u64 = match self.deadline {
            Some(d) => {
                let left: u64 = d - now;
                if left < SUSPEND_POLL_INTERVAL {
                    left
                } else {
                    SUSPEND_POLL_INTERVAL
                }
            },
            None => SUSPEND_POLL_INTERVAL,
        };
        SuspendStep::Rest(nap)
    }
}

/// A round of looking for events: what came, in order, and the time after it.
pub struct Round {
    pub events: Seq<SuspendEvent>,
    pub now: u64,
}

/// Whether an event ends the app.
pub open spec fn ends_app(ev: SuspendEvent) -> bool {
    ev == SuspendEvent::Quit || ev == SuspendEvent::Terminating
}

/// Whether some event of a round ends the app.
pub open spec fn round_ends_app(r: Round) -> bool {
    exists|i: int| 0 <= i < r.events.len() && ends_app(#[trigger] r.events[i])
}

/// Whether graphics were lost in a round.
pub open spec fn round_loses_graphics(r: Round) -> bool {
    exists|i: int| 0 <= i < r.events.len() && #[trigger] r.events[i] == SuspendEvent::DeviceReset
}

/// Whether the last word of a round on fore- and background is that the app is
/// in the foreground.
pub open spec fn round_ends_in_front(r: Round) -> bool {
    exists|i: int| #![trigger r.events[i]]
        0 <= i < r.events.len() && r.events[i] == SuspendEvent::DidEnterForeground && forall|j: int|
            i < j < r.events.len() ==> #[trigger] r.events[j] != SuspendEvent::Background
}

/// The state after a row of events.
pub open spec fn all_noticed(s: Suspension, events: Seq<SuspendEvent>) -> Suspension
    decreases events.len(),
{
    if events.len() == 0 {
        s
    } else {
        noticed(all_noticed(s, events.drop_last()), events.last())
    }
}

/// The state after a round, where the app did not end in it.
pub open spec fn after_round(s: Suspension, r: Round) -> Suspension {
    next_round(all_noticed(s, r.events))
}

/// How the time in the background ends in a round, where it does: at once with
/// an event that ends the app, else after the round's last event.
pub open spec fn end_in_round(s: Suspension, r: Round) -> Option<SuspendOutcome> {
    if round_ends_app(r) {
        Some(SuspendOutcome::Terminate)
    } else {
        match next_step(after_round(s, r), r.now) {
            SuspendStep::Done(o) => Some(o),
            _ => None,
        }
    }
}

/// The state after the first `n` rounds.
pub open spec fn after_rounds(s: Suspension, rounds: Seq<Round>, n: int) -> Suspension
    decreases n,
{
    if n <= 0 {
        s
    } else {
        after_round(after_rounds(s, rounds, n - 1), rounds[n - 1])
    }
}

/// Whether the time in the background lasts beyond the first `n` rounds.
pub open spec fn lasts(s: Suspension, rounds: Seq<Round>, n: int) -> bool
    decreases n,
{
    n <= 0 || (lasts(s, rounds, n - 1) && end_in_round(
        after_rounds(s, rounds, n - 1),
        rounds[n - 1],
    ) is None)
}

/// How the time in the background that lasts `n` rounds ends in the next one,
/// where it does.
pub open spec fn stay_end(s: Suspension, rounds: Seq<Round>, n: int) -> Option<SuspendOutcome> {
    end_in_round(after_rounds(s, rounds, n), rounds[n])
}

proof fn lemma_all_noticed(s: Suspension, r: Round)
    ensures
        ({
            let t = all_noticed(s, r.events);
            &&& t.deadline == s.deadline
            &&& t.round == s.round
            &&& t.desktop == s.desktop
            &&& t.device_lost == (s.device_lost || round_loses_graphics(r))
            &&& !s.foreground ==> t.foreground == round_ends_in_front(r)
        }),
    decreases r.events.len(),
{
    let e = r.events;
    if e.len() > 0 {
        let before = Round { events: e.drop_last(), now: r.now };
        lemma_all_noticed(s, before);
        let last: int = e.len() - 1;
        assert forall|i: int| 0 <= i < last implies #[trigger] before.events[i] == e[i] by {}
        if round_loses_graphics(before) {
            let i = choose|i: int|
                0 <= i < before.events.len() && #[trigger] before.events[i]
                    == SuspendEvent::DeviceReset;
            assert(e[i] == SuspendEvent::DeviceReset);
        }
        if round_loses_graphics(r) && e[last] != SuspendEvent::DeviceReset {
            let i = choose|i: int|
                0 <= i < e.len() && #[trigger] e[i] == SuspendEvent::DeviceReset;
            assert(before.events[i] == SuspendEvent::DeviceReset);
        }
        if e[last] == SuspendEvent::DeviceReset {
            assert(round_loses_graphics(r));
        }
        if e[last] == SuspendEvent::DidEnterForeground {
            assert(round_ends_in_front(r));
        } else if e[last] == SuspendEvent::Background {
            if round_ends_in_front(r) {
                let i = choose|i: int| #![trigger e[i]]
                    0 <= i < e.len() && e[i] == SuspendEvent::DidEnterForeground && forall|j: int|
                        i < j < e.len() ==> #[trigger] e[j] != SuspendEvent::Background;
                assert(e[last] == SuspendEvent::Background && i < last);
            }
        } else {
            if round_ends_in_front(before) {
                let i = choose|i: int| #![trigger before.events[i]]
                    0 <= i < before.events.len() && before.events[i]
                        == SuspendEvent::DidEnterForeground && forall|j: int|
                        i < j < before.events.len() ==> #[trigger] before.events[j]
                            != SuspendEvent::Background;
                assert(e[i] == SuspendEvent::DidEnterForeground);
                assert forall|j: int| i < j < e.len() implies #[trigger] e[j]
                    != SuspendEvent::Background by {
                    if j < last {
                        assert(before.events[j] != SuspendEvent::Background);
                    }
                }
            }
            if round_ends_in_front(r) {
                let i = choose|i: int| #![trigger e[i]]
                    0 <= i < e.len() && e[i] == SuspendEvent::DidEnterForeground && forall|j: int|
                        i < j < e.len() ==> #[trigger] e[j] != SuspendEvent::Background;
                assert(before.events[i] == SuspendEvent::DidEnterForeground);
            }
        }
    }
}

/// While the time in the background lasts: no event ended the app, the loss of
/// graphics is remembered, and without a timer no round ended in front.
proof fn lemma_lasts(s: Suspension, rounds: Seq<Round>, n: int)
    requires
        0 <= n <= rounds.len(),
        lasts(s, rounds, n),
    ensures
        ({
            let t = after_rounds(s, rounds, n);
            &&& t.deadline == s.deadline
            &&& t.device_lost == (s.device_lost || exists|i: int|
                0 <= i < n && round_loses_graphics(#[trigger] rounds[i]))
            &&& s.deadline is None && !s.foreground ==> !t.foreground
            &&& forall|i: int| 0 <= i < n ==> !round_ends_app(#[trigger] rounds[i])
        }),
    decreases n,
{
    if n > 0 {
        lemma_lasts(s, rounds, n - 1);
        let m = after_rounds(s, rounds, n - 1);
        lemma_all_noticed(m, rounds[n - 1]);
        if round_loses_graphics(rounds[n - 1]) {
            assert(exists|i: int| 0 <= i < n && round_loses_graphics(#[trigger] rounds[i]));
        }
    }
}

/// A whole stay in the background that ends in round `n` ends in exactly one
/// of three ways. The app has to end if and only if an event that ends it
/// came. Otherwise its graphics are reported lost if and only if they were
/// reset in any of the rounds; else it goes on.
pub proof fn law_stay_ends_as_events_say(
    end: SuspendEnd,
    start: u64,
    desktop: bool,
    rounds: Seq<Round>,
    n: int,
)
    requires
        0 <= n < rounds.len(),
        lasts(begun(end, start, desktop), rounds, n),
        stay_end(begun(end, start, desktop), rounds, n) is Some,
    ensures
        ({
            let o = stay_end(begun(end, start, desktop), rounds, n)->0;
            let ended = exists|i: int| 0 <= i <= n && round_ends_app(#[trigger] rounds[i]);
            let lost = exists|i: int| 0 <= i <= n && round_loses_graphics(#[trigger] rounds[i]);
            &&& o == SuspendOutcome::Terminate <==> ended
            &&& o == SuspendOutcome::RenderDeviceLost <==> !ended && lost
            &&& o == SuspendOutcome::Resumed <==> !ended && !lost
        }),
{
    let s = begun(end, start, desktop);
    lemma_lasts(s, rounds, n);
    let m = after_rounds(s, rounds, n);
    lemma_all_noticed(m, rounds[n]);
    if round_ends_app(rounds[n]) {
        assert(exists|i: int| 0 <= i <= n && round_ends_app(#[trigger] rounds[i]));
    }
    if round_loses_graphics(rounds[n]) {
        assert(exists|i: int| 0 <= i <= n && round_loses_graphics(#[trigger] rounds[i]));
    }
    if exists|i: int| 0 <= i < n && round_loses_graphics(#[trigger] rounds[i]) {
        let i = choose|i: int| 0 <= i < n && round_loses_graphics(#[trigger] rounds[i]);
        assert(0 <= i <= n && round_loses_graphics(rounds[i]));
    }
}

/// A stay that lasts `n` rounds ends in the next one exactly if an event there
/// ends the app, or, without a timer, if the round's last word on fore- and
/// background is the foreground, or, with a timer, if it has run out when the
/// round is over. Being in front for part of a round, or before the timer has
/// run out, ends nothing.
pub proof fn law_stay_ends_when_due(
    end: SuspendEnd,
    start: u64,
    desktop: bool,
    rounds: Seq<Round>,
    n: int,
)
    requires
        0 <= n < rounds.len(),
        lasts(begun(end, start, desktop), rounds, n),
    ensures
        stay_end(begun(end, start, desktop), rounds, n) is Some <==> round_ends_app(rounds[n])
            || match end {
            SuspendEnd::Foreground => round_ends_in_front(rounds[n]),
            SuspendEnd::Timer(_) => rounds[n].now >= deadline_of(end, start)->0,
        },
{
    let s = begun(end, start, desktop);
    lemma_lasts(s, rounds, n);
    lemma_all_noticed(after_rounds(s, rounds, n), rounds[n]);
}

/// An app that was brought back and sent away again within one round stays in
/// the background; one that stays in front goes on, unless its graphics were
/// lost.
pub proof fn law_last_word_counts(s: Suspension, now: u64)
    requires
        s.deadline is None,
    ensures
        ({
            let back = noticed(s, SuspendEvent::DidEnterForeground);
            let away = noticed(back, SuspendEvent::Background);
            &&& is_over(back, now)
            &&& !is_over(away, now)
            &&& next_step(back, now) == SuspendStep::Done(
                if s.device_lost {
                    SuspendOutcome::RenderDeviceLost
                } else {
                    SuspendOutcome::Resumed
                },
            )
        }),
{
}

/// A loss of graphics is not forgotten.
pub proof fn law_lost_graphics_are_remembered(s: Suspension, ev: SuspendEvent)
    ensures
        s.device_lost ==> noticed(s, ev).device_lost,
{
}

/// No rest lasts longer than one interval, nor beyond the timer.
pub proof fn law_rest_is_short(s: Suspension, now: u64)
    ensures
        next_step(s, now) matches SuspendStep::Rest(t) ==> t <= SUSPEND_POLL_INTERVAL && (
        s.deadline matches Some(d) ==> now + t <= d),
{
}

/// Between rounds: the first two are followed at once by another; after that
/// there is a rest of 0.05 seconds, or less where the timer ends before.
pub proof fn law_rests_between_rounds(s: Suspension, now: u64)
    requires
        !is_over(s, now),
    ensures
        s.round < 3 ==> next_step(s, now) == SuspendStep::Again,
        s.round >= 3 && s.deadline is None ==> next_step(s, now) == SuspendStep::Rest(50_000_000),
        s.round >= 3 && s.deadline is Some && s.deadline->0 - now >= 50_000_000 ==> next_step(s, now)
            == SuspendStep::Rest(50_000_000),
        s.round >= 3 && s.deadline is Some && s.deadline->0 - now < 50_000_000 ==> next_step(s, now)
            == SuspendStep::Rest((s.deadline->0 - now) as u64),
        s.round < u32::MAX ==> next_round(s).round == s.round + 1,
        next_round(s).foreground == s.foreground && next_round(s).device_lost == s.device_lost
            && next_round(s).deadline == s.deadline && next_round(s).desktop == s.desktop,
{
}

/// Events in the background: only being sent there, coming to the front and a
/// loss of graphics are noted; a timer ends as much later as it lasts. The app
/// is told of its window on a desktop, where it changes.
pub proof fn law_events_in_the_background(s: Suspension, ev: SuspendEvent, now: u64, t: u64, q: Seq<EventV>)
    ensures
        noticed(s, ev).foreground == (ev == SuspendEvent::DidEnterForeground || (s.foreground && ev
            != SuspendEvent::Background)),
        noticed(s, ev).device_lost == (s.device_lost || ev == SuspendEvent::DeviceReset),
        noticed(s, ev).deadline == s.deadline && noticed(s, ev).round == s.round,
        ends_app(ev) <==> ev == SuspendEvent::Quit || ev == SuspendEvent::Terminating,
        now + t <= u64::MAX ==> begun(SuspendEnd::Timer(t), now, true).deadline == Some(
            (now + t) as u64,
        ),
        begun(SuspendEnd::Foreground, now, true).deadline is None,
        minimized_after(false, SuspendEvent::Minimized, true) && !minimized_after(
            true,
            SuspendEvent::Restored,
            true,
        ),
        queue_after(q, false, SuspendEvent::Minimized, true) == q.push(EventV::WindowMinimized),
        queue_after(q, true, SuspendEvent::Restored, true) == q.push(EventV::WindowRestored),
        queue_after(q, true, SuspendEvent::Minimized, true) == q && queue_after(
            q,
            false,
            SuspendEvent::Restored,
            true,
        ) == q,
        queue_after(q, s.foreground, ev, false) == q,
{
}

/// The state of the host's input once the time in the background is over.
pub open spec fn input_after(c: Controls) -> Controls {
    Controls { enable_event_polling: true, last_polled: None, ..released(c) }
}

/// After the time in the background events are asked for again, at once, and
/// nothing is held any more; the window is as it was.
pub proof fn law_after_the_background(c: Controls)
    ensures
        ({
            let d = input_after(c);
            &&& d.enable_event_polling && d.last_polled is None
            &&& d.pinch is None && !d.mouse_left_down && !d.stick_active && !d.dpad.active
            &&& d.window_minimized == c.window_minimized
        }),
{
}

} // verus!
