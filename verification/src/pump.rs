//! The scheduling of the event loop: what the loop does next, in either of
//! its two modes, and where it raises a fault again that a handler has
//! raised.
use crate::context::{maybe_resume_unwind, Context, RunType};
use vstd::prelude::*;

verus! {

/// Where the loop stands.
#[derive(Clone, Copy, PartialEq, Eq, Structural, Debug)]
pub enum Phase {
    /// Nothing has been done yet.
    Start,
    /// The handler is being told that a turn begins.
    Pre,
    /// The queue is being asked for a message without waiting.
    Polling,
    /// The queue is being waited on.
    Waiting,
    /// A message is being dispatched.
    Dispatching,
    /// The handler is being told that there was no message.
    Idling,
    /// The handler is being told that a turn ends.
    Post,
    /// The loop has ended.
    Finished,
}

/// What the queue gave when it was asked.
#[derive(Clone, Copy, PartialEq, Eq, Structural, Debug)]
pub enum Polled {
    /// A message; `quit` tells whether it ends the loop.
    Message { quit: bool },
    /// No message was waiting.
    Nothing,
}

/// What the loop does next.
pub enum PumpAction<F> {
    /// Tell the handler that a turn begins.
    PreProcessing,
    /// Ask the queue for a message without waiting.
    Peek,
    /// Wait for the next message.
    Wait,
    /// Translate and dispatch the message that was taken from the queue.
    Dispatch,
    /// Tell the handler that there was no message.
    Idle,
    /// Tell the handler that a turn ends.
    PostProcessing,
    /// Raise again the fault that a handler has raised.
    Raise(F),
    /// Leave the loop.
    Exit,
}

/// The state of the loop.
#[derive(Clone, Copy, PartialEq, Eq, Structural, Debug)]
pub struct Pump {
    pub run_type: RunType,
    pub phase: Phase,
    /// The message that ends the loop has been taken from the queue.
    pub quit_seen: bool,
}

/// What the loop does at the head of a turn in the polling mode: it leaves
/// where the message that ends the loop has been seen, and otherwise tells
/// the handler that a turn begins.
pub open spec fn turn_head<F>(pump: Pump) -> (Pump, PumpAction<F>) {
    if pump.quit_seen {
        (Pump { phase: Phase::Finished, ..pump }, PumpAction::Exit)
    } else {
        (Pump { phase: Phase::Pre, ..pump }, PumpAction::PreProcessing)
    }
}

/// What the loop does once a message has been dispatched, or the handler has
/// been told that there was none: a fault that was kept is raised again, and
/// the loop ends with it; otherwise the turn goes on.
pub open spec fn after_dispatch<F>(pump: Pump, fault: Option<F>) -> (Pump, PumpAction<F>) {
    match fault {
        Some(f) => (Pump { phase: Phase::Finished, ..pump }, PumpAction::Raise(f)),
        None => match pump.run_type {
            RunType::Idle => (Pump { phase: Phase::Post, ..pump }, PumpAction::PostProcessing),
            RunType::Wait => (Pump { phase: Phase::Waiting, ..pump }, PumpAction::Wait),
        },
    }
}

/// The next state of the loop and what it does next, from where it stands,
/// the fault that is kept, and what the queue gave if it was just asked.
///
/// The polling mode never waits: each turn tells the handler that it begins,
/// asks the queue without waiting, dispatches the message if there was one
/// and tells the handler that there was none otherwise, and tells the handler
/// that the turn ends. The waiting mode waits for each message and
/// dispatches it. In both modes the loop ends when the message that ends it
/// has come, and a fault is raised again right after the step in which it was
/// caught.
pub open spec fn pump_step<F>(pump: Pump, fault: Option<F>, polled: Polled) -> (
    Pump,
    PumpAction<F>,
) {
    match pump.phase {
        Phase::Start => match pump.run_type {
            RunType::Idle => turn_head(pump),
            RunType::Wait => (Pump { phase: Phase::Waiting, ..pump }, PumpAction::Wait),
        },
        Phase::Pre => (Pump { phase: Phase::Polling, ..pump }, PumpAction::Peek),
        Phase::Polling => match polled {
            Polled::Message { quit } => (
                Pump { phase: Phase::Dispatching, quit_seen: quit, ..pump },
                PumpAction::Dispatch,
            ),
            Polled::Nothing => (Pump { phase: Phase::Idling, ..pump }, PumpAction::Idle),
        },
        Phase::Waiting => match polled {
            Polled::Message { quit } => if quit {
                (Pump { phase: Phase::Finished, quit_seen: true, ..pump }, PumpAction::Exit)
            } else {
                (Pump { phase: Phase::Dispatching, ..pump }, PumpAction::Dispatch)
            },
            Polled::Nothing => (pump, PumpAction::Wait),
        },
        Phase::Dispatching => after_dispatch(pump, fault),
        Phase::Idling => after_dispatch(pump, fault),
        Phase::Post => turn_head(pump),
        Phase::Finished => (pump, PumpAction::Exit),
    }
}

impl Pump {
    /// A loop that has not begun.
    pub fn new(run_type: RunType) -> (r: Pump)
        ensures
            r == (Pump { run_type, phase: Phase::Start, quit_seen: false }),
    {
        Pump { run_type, phase: Phase::Start, quit_seen: false }
    }

    /// Tells whether the loop has just asked the queue, so that the next step
    /// depends on what the queue gave.
    pub fn awaits_message(&self) -> (r: bool)
        ensures
            r == (self.phase == Phase::Polling || self.phase == Phase::Waiting),
    {
        self.phase == Phase::Polling || self.phase == Phase::Waiting
    }

    /// Says what the loop does next, once what it did last is done. `polled`
    /// is what the queue gave; it is looked at only where the loop has just
    /// asked the queue. A fault that is kept is given up to be raised again as
    /// soon as the step in which it was caught is done.
    pub fn run<H, F>(&mut self, ctx: &mut Context<H, F>, polled: Polled) -> (action: PumpAction<F>)
        ensures
            (*final(self), action) == pump_step(
                *old(self),
                if old(self).phase == Phase::Dispatching || old(self).phase == Phase::Idling {
                    old(ctx).unwind
                } else {
                    None
                },
                polled,
            ),
            final(ctx).unwind == if old(self).phase == Phase::Dispatching || old(self).phase
                == Phase::Idling {
                None
            } else {
                old(ctx).unwind
            },
            final(ctx).event_handler == old(ctx).event_handler,
            final(ctx).state == old(ctx).state,
            final(ctx).window_table == old(ctx).window_table,
            final(ctx).raw_input == old(ctx).raw_input,
    {
        match self.phase {
            Phase::Start => match self.run_type {
                RunType::Idle => self.head(),
                RunType::Wait => {
                    self.phase = Phase::Waiting;
                    PumpAction::Wait
                },
            },
            Phase::Pre => {
                self.phase = Phase::Polling;
                PumpAction::Peek
            },
            Phase::Polling => match polled {
                Polled::Message { quit } => {
                    self.phase = Phase::Dispatching;
                    self.quit_seen = quit;
                    PumpAction::Dispatch
                },
                Polled::Nothing => {
                    self.phase = Phase::Idling;
                    PumpAction::Idle
                },
            },
            Phase::Waiting => match polled {
                Polled::Message { quit } => {
                    if quit {
                        self.phase = Phase::Finished;
                        self.quit_seen = true;
                        PumpAction::Exit
                    } else {
                        self.phase = Phase::Dispatching;
                        PumpAction::Dispatch
                    }
                },
                Polled::Nothing => PumpAction::Wait,
            },
            Phase::Dispatching | Phase::Idling => {
                match maybe_resume_unwind(ctx) {
                    Some(f) => {
                        self.phase = Phase::Finished;
                        PumpAction::Raise(f)
                    },
                    None => match self.run_type {
                        RunType::Idle => {
                            self.phase = Phase::Post;
                            PumpAction::PostProcessing
                        },
                        RunType::Wait => {
                            self.phase = Phase::Waiting;
                            PumpAction::Wait
                        },
                    },
                }
            },
            Phase::Post => self.head(),
            Phase::Finished => PumpAction::Exit,
        }
    }

    fn head<F>(&mut self) -> (action: PumpAction<F>)
        ensures
            (*final(self), action) == turn_head::<F>(*old(self)),
    {
        if self.quit_seen {
            self.phase = Phase::Finished;
            PumpAction::Exit
        } else {
            self.phase = Phase::Pre;
            PumpAction::PreProcessing
        }
    }
}

/// A fault that is kept when a message has been dispatched is raised again
/// as the very next thing the loop does, in either mode, and the loop ends
/// with it: no further message is taken from the queue.
pub proof fn lemma_fault_ends_loop<F>(pump: Pump, fault: F, polled: Polled, later: Polled)
    requires
        pump.phase == Phase::Dispatching || pump.phase == Phase::Idling,
    ensures
        pump_step(pump, Some(fault), polled).1 == PumpAction::Raise(fault),
        pump_step(pump, Some(fault), polled).0.phase == Phase::Finished,
        pump_step::<F>(pump_step(pump, Some(fault), polled).0, None, later).1 == PumpAction::<
            F,
        >::Exit,
{
}

/// The polling mode never waits: whatever the state, it never asks to wait
/// for a message.
pub proof fn lemma_polling_never_waits<F>(pump: Pump, fault: Option<F>, polled: Polled)
    requires
        pump.run_type == RunType::Idle,
        pump.phase != Phase::Waiting,
    ensures
        !(pump_step(pump, fault, polled).1 is Wait),
        pump_step(pump, fault, polled).0.phase != Phase::Waiting,
        pump_step(pump, fault, polled).0.run_type == RunType::Idle,
{
}

} // verus!
