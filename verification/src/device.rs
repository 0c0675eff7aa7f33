//! The control-loop core: one frame parser and one toggle scheduler sharing
//! a single thread of control.
//!
//! Each loop iteration observes exactly one event: either one byte arrived
//! on the serial input, or the non-blocking read found nothing. `step` turns
//! the event into the next state and the one action the platform must
//! perform — nothing, one toggle of the output line, or a platform reset.
//! Byte arrival takes priority: the scheduler only advances on iterations
//! where the input was empty, so the loop never blocks and the scheduler is
//! never starved for longer than the serial stream stays busy.

use vstd::prelude::*;

use crate::parser::{
    Command, Parser, spec_feed, spec_init, BLINK_RATE_SELECTOR, END_BYTE, REBOOT_SELECTOR,
    START_BYTE,
};
use crate::scheduler::{Scheduler, spec_elapsed, spec_interval, DEFAULT_RATE};

verus! {

/// What one iteration of the control loop observed.
#[derive(Clone, Copy, Debug, PartialEq, Eq, Structural)]
pub enum Event {
    /// The non-blocking read delivered one byte.
    ByteReceived(u8),
    /// The non-blocking read found nothing; the cycle counter read this.
    NoData(u32),
}

/// What the platform must do after one iteration of the control loop.
#[derive(Clone, Copy, Debug, PartialEq, Eq, Structural)]
pub enum Action {
    /// Nothing to perform; poll again.
    Continue,
    /// Toggle the output line once.
    ToggleLed,
    /// Reset the platform; the loop does not resume.
    Reset,
}

/// Engine state: the parser and the scheduler, owned by one thread of
/// control.
#[derive(Clone, Copy, Debug, PartialEq, Eq, Structural)]
pub struct Device {
    /// Assembles command frames from the serial byte stream.
    pub parser: Parser,
    /// Paces the output-line toggles.
    pub scheduler: Scheduler,
}

/// Effect of one decoded command on the scheduler, and the action it
/// demands. Only a set-blink-rate command touches the scheduler; a reboot
/// command demands a reset; an unknown command is a no-op.
pub open spec fn spec_dispatch(s: Scheduler, cmd: Command) -> (Scheduler, Action) {
    match cmd {
        Command::SetBlinkRate(rate) => (
            Scheduler { interval: spec_interval(rate), ..s },
            Action::Continue,
        ),
        Command::Reboot => (s, Action::Reset),
        Command::Unknown(_) => (s, Action::Continue),
    }
}

/// One control-loop decision: the next engine state and the demanded action,
/// for a given event.
pub open spec fn spec_step(d: Device, event: Event) -> (Device, Action) {
    match event {
        Event::ByteReceived(byte) => {
            let fed = spec_feed(d.parser, byte);
            match fed.1 {
                Some(cmd) => {
                    let dispatched = spec_dispatch(d.scheduler, cmd);
                    (Device { parser: fed.0, scheduler: dispatched.0 }, dispatched.1)
                },
                None => (Device { parser: fed.0, ..d }, Action::Continue),
            }
        },
        Event::NoData(now) => {
            if spec_elapsed(now, d.scheduler.last_toggle) >= d.scheduler.interval {
                (
                    Device { scheduler: Scheduler { last_toggle: now, ..d.scheduler }, ..d },
                    Action::ToggleLed,
                )
            } else {
                (d, Action::Continue)
            }
        },
    }
}

/// Law: a well-formed set-blink-rate frame, fed byte by byte to an engine
/// whose parser is idle, demands no action along the way and leaves the
/// scheduler running at exactly the interval the rate denotes, with its
/// last-toggle mark untouched.
pub proof fn lemma_set_rate_frame(d: Device, rate: u8)
    requires
        !d.parser.reading,
        rate != START_BYTE,
        rate != END_BYTE,
    ensures
        ({
            let s1 = spec_step(d, Event::ByteReceived(START_BYTE));
            let s2 = spec_step(s1.0, Event::ByteReceived(BLINK_RATE_SELECTOR));
            let s3 = spec_step(s2.0, Event::ByteReceived(rate));
            let s4 = spec_step(s3.0, Event::ByteReceived(END_BYTE));
            &&& s1.1 == Action::Continue
            &&& s2.1 == Action::Continue
            &&& s3.1 == Action::Continue
            &&& s4.1 == Action::Continue
            &&& s4.0.scheduler.interval == spec_interval(rate)
            &&& s4.0.scheduler.last_toggle == d.scheduler.last_toggle
            &&& !s4.0.parser.reading
        }),
{
}

/// Law: a complete frame with an unrecognized selector, fed byte by byte to
/// an engine whose parser is idle, demands no action — in particular no
/// reset — and leaves the scheduler exactly as it was, whatever the payload
/// byte is.
pub proof fn lemma_unknown_selector_frame(d: Device, selector: u8, payload: u8)
    requires
        !d.parser.reading,
        selector != START_BYTE,
        selector != END_BYTE,
        selector != BLINK_RATE_SELECTOR,
        selector != REBOOT_SELECTOR,
    ensures
        ({
            let s1 = spec_step(d, Event::ByteReceived(START_BYTE));
            let s2 = spec_step(s1.0, Event::ByteReceived(selector));
            let s3 = spec_step(s2.0, Event::ByteReceived(payload));
            let s4 = spec_step(s3.0, Event::ByteReceived(END_BYTE));
            &&& s1.1 == Action::Continue
            &&& s2.1 == Action::Continue
            &&& s3.1 == Action::Continue
            &&& s4.1 == Action::Continue
            &&& s4.0.scheduler == d.scheduler
            &&& !s4.0.parser.reading
        }),
{
}

impl Device {
    /// The engine's boot state: idle parser, default blink rate, with the
    /// elapsed-time measurement started at the counter reading `now`.
    pub fn new(now: u32) -> (d: Device)
        ensures
            d.parser == spec_init(),
            d.scheduler.interval == spec_interval(DEFAULT_RATE),
            d.scheduler.last_toggle == now,
            d.parser.wf(),
    {
        Device { parser: Parser::new(), scheduler: Scheduler::new(now) }
    }

    /// Apply one decoded command: mutate the scheduler for a set-blink-rate,
    /// demand a reset for a reboot, do nothing for an unknown command.
    pub fn dispatch(&mut self, cmd: Command) -> (action: Action)
        ensures
            (final(self).scheduler, action) == spec_dispatch(old(self).scheduler, cmd),
            final(self).parser == old(self).parser,
    {
        match cmd {
            Command::SetBlinkRate(rate) => {
                self.scheduler.set_interval(rate);
                Action::Continue
            },
            Command::Reboot => Action::Reset,
            Command::Unknown(_) => Action::Continue,
        }
    }

    /// One iteration of the control loop: feed a received byte to the parser
    /// and dispatch any command it closed, or, when no data was available,
    /// run one scheduler tick.
    pub fn step(&mut self, event: Event) -> (action: Action)
        requires
            old(self).parser.wf(),
        ensures
            final(self).parser.wf(),
            (*final(self), action) == spec_step(*old(self), event),
    {
        match event {
            Event::ByteReceived(byte) => {
                match self.parser.feed(byte) {
                    Some(cmd) => self.dispatch(cmd),
                    None => Action::Continue,
                }
            },
            Event::NoData(now) => {
                if self.scheduler.tick(now) {
                    Action::ToggleLed
                } else {
                    Action::Continue
                }
            },
        }
    }
}

} // verus!
