//! The kernel's global state and the operations the interrupt path and the
//! four long-lived tasks perform on it: the interrupts-disabled critical
//! section, timer-tick delivery, the event task's drain of the input queue
//! into the session or the debug console, and the idle and redraw steps.
use vstd::prelude::*;
use crate::context::ContextTable;
use crate::event::Event;
use crate::event::EventOption;
use crate::event::K_BKSP;
use crate::event::K_F1;
use crate::event::K_F2;
use crate::event::spec_to_option;
use crate::paging::Paging;
use crate::queue::EventQueue;
use crate::session::Session;
use crate::time::Duration;
use crate::time::pit_duration;

verus! {

/// All kernel globals: the two clocks, the context table, the event queue,
/// the session, the debug console state, the paging state, and the CPU's
/// interrupt-enable flag together with the one latched timer tick.
pub struct Kernel {
    /// The IF flag: whether interrupts are delivered at once.
    pub intr_enabled: bool,
    /// A timer tick that arrived while interrupts were disabled and is
    /// still latched in the interrupt controller.
    pub pending_tick: bool,
    /// Whether the debug console owns the framebuffer.
    pub debug_draw: bool,
    /// Whether the debug framebuffer needs a flip.
    pub debug_redraw: bool,
    /// The published debug command slot.
    pub debug_command: Vec<char>,
    /// The debug console's command-line accumulator.
    pub cmd: Vec<char>,
    /// The serial-mirrored debug output.
    pub log: Vec<char>,
    /// Wall-clock time, seeded from the RTC during bring-up.
    pub clock_realtime: Duration,
    /// Time since boot, zero at bring-up.
    pub clock_monotonic: Duration,
    /// The context table and scheduler state.
    pub contexts: ContextTable,
    /// The bounded input-event queue.
    pub events: EventQueue,
    /// The session aggregate.
    pub session: Session,
    /// The address-translation state.
    pub paging: Paging,
    /// The installed font blob address.
    pub font_addr: usize,
}

/// The part of the kernel the event task reads and writes while draining
/// the queue, as one spec-level value.
pub struct ConsoleState {
    pub draw: bool,
    pub redraw: bool,
    pub command: Seq<char>,
    pub cmd: Seq<char>,
    pub log: Seq<char>,
    pub session_redraw: bool,
}

/// Whether an event is an F1 key press, the toggle into the debug console.
pub open spec fn is_f1_press(e: Event) -> bool {
    e.code == 'k' && e.b == K_F1 && e.c > 0
}

/// One event, as the event task handles it. In debug mode a pressed key
/// edits the command accumulator (F2 leaves debug mode and asks the
/// session to redraw; backspace removes the last character; a line break
/// publishes the accumulator to the command slot and clears it; any other
/// printable character is appended); everything else in debug mode is
/// discarded. Outside debug mode an F1 press enters the debug console and
/// all other events pass through to the session.
pub open spec fn spec_handle_event(s: ConsoleState, e: Event) -> ConsoleState {
    if s.draw {
        match spec_to_option(e) {
            EventOption::Key(ke) => {
                if ke.pressed {
                    if ke.scancode == K_F2 {
                        ConsoleState { draw: false, session_redraw: true, ..s }
                    } else if ke.scancode == K_BKSP {
                        if s.cmd.len() > 0 {
                            ConsoleState {
                                cmd: s.cmd.drop_last(),
                                log: s.log.push(8u8 as char),
                                ..s
                            }
                        } else {
                            s
                        }
                    } else if ke.character == '\0' {
                        s
                    } else if ke.character == '\n' {
                        ConsoleState {
                            command: s.cmd.push('\n'),
                            cmd: Seq::empty(),
                            log: s.log.push('\n'),
                            ..s
                        }
                    } else {
                        ConsoleState {
                            cmd: s.cmd.push(ke.character),
                            log: s.log.push(ke.character),
                            ..s
                        }
                    }
                } else {
                    s
                }
            },
            EventOption::Unknown(_) => s,
        }
    } else {
        if is_f1_press(e) {
            ConsoleState { draw: true, redraw: true, ..s }
        } else {
            s
        }
    }
}

/// The event the session receives for `e`, if any: outside debug mode
/// every event but the F1 toggle is delivered; in debug mode the console
/// consumes everything.
pub open spec fn spec_delivered(s: ConsoleState, e: Event) -> Option<Event> {
    if !s.draw && !is_f1_press(e) {
        Some(e)
    } else {
        None
    }
}

/// The console state after handling each event of `evs` in order.
pub open spec fn spec_run_events(s: ConsoleState, evs: Seq<Event>) -> ConsoleState
    decreases evs.len(),
{
    if evs.len() == 0 {
        s
    } else {
        spec_run_events(spec_handle_event(s, evs[0]), evs.drop_first())
    }
}

/// The events the session receives while the event task handles `evs`.
pub open spec fn spec_run_delivered(s: ConsoleState, evs: Seq<Event>) -> Seq<Event>
    decreases evs.len(),
{
    if evs.len() == 0 {
        Seq::empty()
    } else {
        match spec_delivered(s, evs[0]) {
            Some(e) => seq![e] + spec_run_delivered(spec_handle_event(s, evs[0]), evs.drop_first()),
            None => spec_run_delivered(spec_handle_event(s, evs[0]), evs.drop_first()),
        }
    }
}

impl Kernel {
    /// The kernel invariant: both clocks are normalized, the context table
    /// and the queue are well formed, and a tick can only be latched while
    /// interrupts are disabled.
    pub open spec fn wf(self) -> bool {
        &&& self.clock_realtime.wf()
        &&& self.clock_monotonic.wf()
        &&& self.contexts.wf()
        &&& self.events.wf()
        &&& (self.pending_tick ==> !self.intr_enabled)
    }

    /// The console-relevant part of the state.
    pub open spec fn console(self) -> ConsoleState {
        ConsoleState {
            draw: self.debug_draw,
            redraw: self.debug_redraw,
            command: self.debug_command@,
            cmd: self.cmd@,
            log: self.log@,
            session_redraw: self.session.redraw,
        }
    }

    /// Everything `other` leaves untouched that the console state does not
    /// cover: clocks, contexts, queue drop count, paging, font, and the
    /// session's items, packages and images.
    pub open spec fn same_but_console_and_queue(self, other: Kernel) -> bool {
        &&& self.intr_enabled == other.intr_enabled
        &&& self.pending_tick == other.pending_tick
        &&& self.clock_realtime == other.clock_realtime
        &&& self.clock_monotonic == other.clock_monotonic
        &&& self.contexts == other.contexts
        &&& self.session.items@ == other.session.items@
        &&& self.session.packages@ == other.session.packages@
        &&& self.session.cursor_set == other.session.cursor_set
        &&& self.session.background_set == other.session.background_set
        &&& self.paging == other.paging
        &&& self.font_addr == other.font_addr
    }

    /// Enter an interrupts-disabled critical section, returning the prior
    /// IF state so a paired exit can restore it.
    pub fn start_no_ints(&mut self) -> (prev: bool)
        requires
            old(self).wf(),
        ensures
            final(self).wf(),
            prev == old(self).intr_enabled,
            !final(self).intr_enabled,
            *final(self) == (Kernel { intr_enabled: false, ..*old(self) }),
    {
        let prev = self.intr_enabled;
        self.intr_enabled = false;
        prev
    }

    /// Leave an interrupts-disabled critical section, restoring the IF
    /// state saved by the paired entry. A timer tick that arrived inside
    /// the section is delivered at once when interrupts come back on: the
    /// clocks advance by exactly one quantum per delivered tick, never by
    /// elapsed wall time.
    pub fn end_no_ints(&mut self, prev: bool)
        requires
            old(self).wf(),
        ensures
            final(self).wf(),
            end_no_ints_rel(*old(self), *final(self), prev),
    {
        if prev && self.pending_tick {
            self.pending_tick = false;
            self.deliver_tick();
        }
        self.intr_enabled = prev;
    }

    /// The timer-tick handler body: advance both clocks by the quantum and
    /// yield to the next runnable context, marking the preempted one
    /// interrupted.
    pub fn deliver_tick(&mut self)
        requires
            old(self).wf(),
        ensures
            final(self).wf(),
            final(self).clock_realtime == old(self).clock_realtime.spec_add(pit_duration()),
            final(self).clock_monotonic == old(self).clock_monotonic.spec_add(pit_duration()),
            crate::context::switch_rel(old(self).contexts, final(self).contexts, true),
            final(self).intr_enabled == old(self).intr_enabled,
            final(self).pending_tick == old(self).pending_tick,
            final(self).console() == old(self).console(),
            final(self).events == old(self).events,
            final(self).session.items@ == old(self).session.items@,
            final(self).session.packages@ == old(self).session.packages@,
            final(self).session.cursor_set == old(self).session.cursor_set,
            final(self).session.background_set == old(self).session.background_set,
            final(self).paging == old(self).paging,
            final(self).font_addr == old(self).font_addr,
    {
        self.clock_realtime = self.clock_realtime.plus(Duration::pit_quantum());
        self.clock_monotonic = self.clock_monotonic.plus(Duration::pit_quantum());
        self.contexts.context_switch(true);
    }

    /// A timer interrupt reaching the CPU: delivered at once while
    /// interrupts are enabled, latched until the critical section ends
    /// otherwise.
    pub fn raise_timer(&mut self)
        requires
            old(self).wf(),
        ensures
            final(self).wf(),
            old(self).intr_enabled ==> {
                &&& final(self).clock_realtime == old(self).clock_realtime.spec_add(
                    pit_duration(),
                )
                &&& final(self).clock_monotonic == old(self).clock_monotonic.spec_add(
                    pit_duration(),
                )
                &&& crate::context::switch_rel(old(self).contexts, final(self).contexts, true)
                &&& final(self).intr_enabled
                &&& !final(self).pending_tick
                &&& final(self).console() == old(self).console()
                &&& final(self).events == old(self).events
            },
            !old(self).intr_enabled ==> *final(self) == (Kernel {
                pending_tick: true,
                ..*old(self)
            }),
    {
        if self.intr_enabled {
            self.pending_tick = false;
            self.deliver_tick();
        } else {
            self.pending_tick = true;
        }
    }

    /// Read both clocks from a task. A `Duration` is two words, so the
    /// load is wrapped in a critical section to keep a mid-read tick from
    /// tearing it; a tick that arrived while reading lands right after.
    pub fn read_clocks(&mut self) -> (r: (Duration, Duration))
        requires
            old(self).wf(),
        ensures
            final(self).wf(),
            r.0 == old(self).clock_realtime,
            r.1 == old(self).clock_monotonic,
            end_no_ints_rel(
                Kernel { intr_enabled: false, ..*old(self) },
                *final(self),
                old(self).intr_enabled,
            ),
    {
        let prev = self.start_no_ints();
        let realtime = self.clock_realtime;
        let monotonic = self.clock_monotonic;
        self.end_no_ints(prev);
        (realtime, monotonic)
    }

    /// Enqueue one input event from an IRQ handler; on a full queue the
    /// event is dropped and counted, never blocking the handler.
    pub fn push_event(&mut self, e: Event)
        requires
            old(self).wf(),
        ensures
            final(self).wf(),
            final(self).events@ == crate::queue::spec_push(old(self).events@, e),
            final(self).console() == old(self).console(),
            final(self).intr_enabled == old(self).intr_enabled,
            final(self).pending_tick == old(self).pending_tick,
            final(self).clock_realtime == old(self).clock_realtime,
            final(self).clock_monotonic == old(self).clock_monotonic,
            final(self).contexts == old(self).contexts,
    {
        self.events.push(e);
    }

    /// One pass of the idle task's loop body: whether the CPU may halt,
    /// true exactly when no context beyond the root has been interrupted
    /// with work left.
    pub fn idle_step(&self) -> (halt: bool)
        requires
            self.wf(),
        ensures
            halt <==> forall|i: int|
                1 <= i < self.contexts.contexts@.len()
                    ==> !self.contexts.contexts@[i].interrupted,
    {
        let len = self.contexts.contexts.len();
        let mut i: usize = 1;
        while i < len
            invariant
                len == self.contexts.contexts@.len(),
                1 <= i <= len || len < 1,
                forall|i2: int| 1 <= i2 < i ==> !self.contexts.contexts@[i2].interrupted,
            decreases len - i,
        {
            if self.contexts.contexts[i].interrupted {
                return false;
            }
            i = i + 1;
        }
        true
    }

    /// One pass of the redraw task's loop body. While the debug console
    /// owns the framebuffer a pending debug redraw asks for a flip;
    /// otherwise the session recomposes if its dirty flag was set, and the
    /// flag is cleared.
    pub fn redraw_step(&mut self) -> (r: RedrawAction)
        requires
            old(self).wf(),
        ensures
            final(self).wf(),
            old(self).debug_draw && old(self).debug_redraw ==> r == RedrawAction::FlipDebug
                && *final(self) == (Kernel { debug_redraw: false, ..*old(self) }),
            old(self).debug_draw && !old(self).debug_redraw ==> r == RedrawAction::Nothing
                && *final(self) == *old(self),
            !old(self).debug_draw ==> r == (RedrawAction::SessionRedraw {
                dirty: old(self).session.redraw,
            }) && final(self).session.redraw == false && final(self).same_but_console_and_queue(
                *old(self),
            ) && final(self).console() == (ConsoleState {
                session_redraw: false,
                ..old(self).console()
            }) && final(self).events == old(self).events,
    {
        if self.debug_draw {
            if self.debug_redraw {
                self.debug_redraw = false;
                RedrawAction::FlipDebug
            } else {
                RedrawAction::Nothing
            }
        } else {
            let dirty = self.session.redraw;
            self.session.redraw = false;
            RedrawAction::SessionRedraw { dirty }
        }
    }

    /// One pass of the event task's loop body: drain the queue, handing
    /// each event to the debug console or through to the session. The
    /// returned events are the ones the session must receive, in queue
    /// order. Runs with interrupts enabled and takes the critical section
    /// around each dequeue and around the command publish.
    pub fn event_task_step(&mut self) -> (delivered: Vec<Event>)
        requires
            old(self).wf(),
            old(self).intr_enabled,
        ensures
            final(self).wf(),
            final(self).events@ == Seq::<Event>::empty(),
            final(self).console() == spec_run_events(old(self).console(), old(self).events@),
            delivered@ == spec_run_delivered(old(self).console(), old(self).events@),
            final(self).same_but_console_and_queue(*old(self)),
            final(self).events.spec_dropped() == old(self).events.spec_dropped(),
    {
        let mut delivered: Vec<Event> = Vec::new();
        let ghost evs0 = self.events@;
        let ghost s0 = self.console();
        loop
            invariant
                self.wf(),
                self.intr_enabled,
                !self.pending_tick,
                spec_run_events(s0, evs0) == spec_run_events(self.console(), self.events@),
                spec_run_delivered(s0, evs0) == delivered@ + spec_run_delivered(
                    self.console(),
                    self.events@,
                ),
                self.same_but_console_and_queue(*old(self)),
                self.events.spec_dropped() == old(self).events.spec_dropped(),
            ensures
                self.wf(),
                self.events@ == Seq::<Event>::empty(),
                self.console() == spec_run_events(s0, evs0),
                delivered@ == spec_run_delivered(s0, evs0),
                self.same_but_console_and_queue(*old(self)),
                self.events.spec_dropped() == old(self).events.spec_dropped(),
            decreases self.events@.len(),
        {
            let reenable = self.start_no_ints();
            let event_option = self.events.pop();
            self.end_no_ints(reenable);
            match event_option {
                Some(event) => {
                    let ghost s_before = self.console();
                    let d = self.handle_event(event);
                    match d {
                        Some(e) => {
                            delivered.push(e);
                            assert(delivered@ =~= delivered@.drop_last().push(e));
                        },
                        None => {},
                    }
                    proof {
                        assert(spec_run_delivered(s0, evs0) =~= delivered@ + spec_run_delivered(
                            self.console(),
                            self.events@,
                        ));
                    }
                },
                None => {
                    break ;
                },
            }
        }
        delivered
    }

    /// Handle one drained event, returning it when the session must
    /// receive it.
    pub fn handle_event(&mut self, event: Event) -> (delivered: Option<Event>)
        requires
            old(self).wf(),
        ensures
            final(self).wf(),
            final(self).console() == spec_handle_event(old(self).console(), event),
            delivered == spec_delivered(old(self).console(), event),
            final(self).same_but_console_and_queue(*old(self)),
            final(self).events == old(self).events,
    {
        if self.debug_draw {
            match event.to_option() {
                EventOption::Key(key_event) => {
                    if key_event.pressed {
                        if key_event.scancode == K_F2 {
                            self.debug_draw = false;
                            self.session.redraw = true;
                        } else if key_event.scancode == K_BKSP {
                            if self.cmd.len() > 0 {
                                self.log.push(8u8 as char);
                                self.cmd.pop();
                                assert(self.cmd@ =~= old(self).cmd@.drop_last());
                            }
                        } else {
                            if key_event.character == '\0' {
                            } else if key_event.character == '\n' {
                                let reenable = self.start_no_ints();
                                let mut published = Vec::new();
                                core::mem::swap(&mut published, &mut self.cmd);
                                published.push('\n');
                                self.debug_command = published;
                                self.end_no_ints(reenable);
                                self.log.push('\n');
                            } else {
                                self.cmd.push(key_event.character);
                                self.log.push(key_event.character);
                            }
                        }
                    }
                },
                EventOption::Unknown(_) => {},
            }
            None
        } else {
            if event.code == 'k' && event.b == K_F1 && event.c > 0 {
                self.debug_draw = true;
                self.debug_redraw = true;
                None
            } else {
                Some(event)
            }
        }
    }

    /// Yield the current task: the voluntary `context_switch(false)` at
    /// the bottom of every task loop, or the preemptive
    /// `context_switch(true)` the idle task makes after waking.
    pub fn yield_now(&mut self, from_interrupt: bool)
        requires
            old(self).wf(),
        ensures
            final(self).wf(),
            crate::context::switch_rel(old(self).contexts, final(self).contexts, from_interrupt),
            final(self).console() == old(self).console(),
            final(self).events == old(self).events,
            final(self).intr_enabled == old(self).intr_enabled,
            final(self).pending_tick == old(self).pending_tick,
            final(self).clock_realtime == old(self).clock_realtime,
            final(self).clock_monotonic == old(self).clock_monotonic,
    {
        self.contexts.context_switch(from_interrupt);
    }
}

/// What the redraw task asks the display side to do.
#[derive(Clone, Copy, PartialEq, Eq, Structural, Debug)]
pub enum RedrawAction {
    /// Flip the debug framebuffer to the screen.
    FlipDebug,
    /// Let the session recompose; `dirty` tells whether its flag was set.
    SessionRedraw { dirty: bool },
    /// Debug mode with no pending redraw: nothing to draw.
    Nothing,
}

/// How one `end_no_ints(prev)` call relates the state before (`pre`) to
/// the state after (`post`): the IF flag becomes exactly `prev`; a latched
/// tick is delivered when `prev` turns interrupts back on (one quantum on
/// each clock and a preemptive switch), and nothing else changes.
pub open spec fn end_no_ints_rel(pre: Kernel, post: Kernel, prev: bool) -> bool {
    &&& post.wf()
    &&& post.intr_enabled == prev
    &&& (!(prev && pre.pending_tick) ==> post == (Kernel { intr_enabled: prev, ..pre }))
    &&& (prev && pre.pending_tick ==> {
        &&& !post.pending_tick
        &&& post.clock_realtime == pre.clock_realtime.spec_add(pit_duration())
        &&& post.clock_monotonic == pre.clock_monotonic.spec_add(pit_duration())
        &&& crate::context::switch_rel(pre.contexts, post.contexts, true)
        &&& post.console() == pre.console()
        &&& post.events == pre.events
        &&& post.session.items@ == pre.session.items@
        &&& post.paging == pre.paging
        &&& post.font_addr == pre.font_addr
    })
}

/// For every interleaving of critical sections: a paired
/// `start_no_ints` / `end_no_ints` leaves the IF flag exactly as it was
/// before the entry. `before` is the state the section was entered from,
/// so the entry saved `before.intr_enabled`; `mid` is the state the exit
/// runs on — any state at all, so any work and any nesting may have
/// happened in between; every `post` the exit can produce carries the IF
/// flag from before the entry.
pub proof fn lemma_no_ints_restore(before: Kernel, mid: Kernel, post: Kernel)
    requires
        end_no_ints_rel(mid, post, before.intr_enabled),
    ensures
        post.intr_enabled == before.intr_enabled,
{
}

/// The round trip: push one event and run the event task once. Outside
/// debug mode the session receives exactly that event (unless it is the
/// F1 toggle); in debug mode the console consumes it and the session
/// receives nothing.
pub proof fn lemma_single_event_round_trip(s: ConsoleState, e: Event)
    ensures
        !s.draw && !is_f1_press(e) ==> spec_run_delivered(s, seq![e]) == seq![e],
        s.draw || is_f1_press(e) ==> spec_run_delivered(s, seq![e]) == Seq::<Event>::empty(),
{
    let evs = seq![e];
    assert(evs[0] == e);
    assert(evs.drop_first() =~= Seq::<Event>::empty());
    assert(spec_run_delivered(spec_handle_event(s, e), Seq::<Event>::empty())
        == Seq::<Event>::empty());
    if !s.draw && !is_f1_press(e) {
        assert(seq![e] + Seq::<Event>::empty() =~= seq![e]);
    }
}

/// Outside debug mode, a drained event that is not the F1 toggle is
/// delivered to the session unchanged; in debug mode the console consumes
/// it and the session receives nothing.
pub proof fn lemma_event_delivery(s: ConsoleState, e: Event)
    ensures
        !s.draw && !is_f1_press(e) ==> spec_delivered(s, e) == Some(e),
        s.draw ==> spec_delivered(s, e) is None,
        !s.draw && is_f1_press(e) ==> spec_delivered(s, e) is None && spec_handle_event(s, e).draw
            && spec_handle_event(s, e).redraw,
{
}

} // verus!
