//! Byte-at-a-time frame parser for the wire protocol.
//!
//! A frame is exactly four bytes on the wire: start delimiter, command
//! selector, payload byte, end delimiter. Only the two middle bytes are
//! buffered; the delimiters are never stored. Bytes seen while no frame is
//! open are discarded, and a start delimiter always (re)opens a frame, so a
//! stray delimiter resynchronizes the stream. Once the two-byte buffer is
//! full, further payload bytes of an over-long frame are dropped rather than
//! written out of bounds; the next end delimiter still closes the frame.

use vstd::prelude::*;

verus! {

/// Marks the first byte of every frame.
pub const START_BYTE: u8 = 0xFF;

/// Marks the last byte of every frame.
pub const END_BYTE: u8 = 0xFE;

/// Command selector requesting a new blink rate.
pub const BLINK_RATE_SELECTOR: u8 = 0x01;

/// Command selector requesting a platform reset.
pub const REBOOT_SELECTOR: u8 = 0x02;

/// A command decoded from a closed frame.
#[derive(Clone, Copy, Debug, PartialEq, Eq, Structural)]
pub enum Command {
    /// Change the toggle cadence to the given rate.
    SetBlinkRate(u8),
    /// Reset the platform; the payload byte is ignored.
    Reboot,
    /// Unrecognized selector, kept for forward compatibility; acted on as a
    /// no-op.
    Unknown(u8),
}

/// The command a closed frame denotes, given the two buffered bytes.
pub open spec fn spec_command(selector: u8, payload: u8) -> Command {
    if selector == BLINK_RATE_SELECTOR {
        Command::SetBlinkRate(payload)
    } else if selector == REBOOT_SELECTOR {
        Command::Reboot
    } else {
        Command::Unknown(selector)
    }
}

/// Parser state: whether a frame is open, the two buffered payload bytes,
/// and the number of payload bytes stored so far.
#[derive(Clone, Copy, Debug, PartialEq, Eq, Structural)]
pub struct Parser {
    /// A start delimiter has been seen and the frame is still open.
    pub reading: bool,
    /// First buffered byte of the open frame: the command selector.
    pub buf0: u8,
    /// Second buffered byte of the open frame: the payload.
    pub buf1: u8,
    /// How many payload bytes of the open frame have been stored (0..=2).
    pub index: u8,
}

/// The parser's start-up state: idle, with an empty buffer.
pub open spec fn spec_init() -> Parser {
    Parser { reading: false, buf0: 0, buf1: 0, index: 0 }
}

/// One parser transition: the state after consuming `byte`, and the command
/// emitted if this byte closed a frame.
pub open spec fn spec_feed(p: Parser, byte: u8) -> (Parser, Option<Command>) {
    if byte == START_BYTE {
        // Open a frame, or resynchronize an already-open one.
        (Parser { reading: true, index: 0, ..p }, None)
    } else if p.reading && byte == END_BYTE {
        // Close the frame on the buffer contents as they stood.
        (Parser { reading: false, index: 0, ..p }, Some(spec_command(p.buf0, p.buf1)))
    } else if p.reading && p.index == 0 {
        (Parser { buf0: byte, index: 1, ..p }, None)
    } else if p.reading && p.index == 1 {
        (Parser { buf1: byte, index: 2, ..p }, None)
    } else {
        // Idle noise, or an over-long frame whose buffer is already full.
        (p, None)
    }
}

/// The parser run over a whole byte sequence, collecting every emitted
/// command in order.
pub open spec fn spec_feed_all(p: Parser, bytes: Seq<u8>) -> (Parser, Seq<Command>)
    decreases bytes.len(),
{
    if bytes.len() == 0 {
        (p, Seq::empty())
    } else {
        let step = spec_feed(p, bytes[0]);
        let rest = spec_feed_all(step.0, bytes.drop_first());
        match step.1 {
            Some(c) => (rest.0, seq![c] + rest.1),
            None => rest,
        }
    }
}

/// Law: a byte stream that never carries a start delimiter leaves an idle
/// parser exactly as it is and never emits a command.
pub proof fn lemma_noise_keeps_idle(p: Parser, bytes: Seq<u8>)
    requires
        !p.reading,
        forall|i: int| 0 <= i < bytes.len() ==> bytes[i] != START_BYTE,
    ensures
        spec_feed_all(p, bytes).0 == p,
        spec_feed_all(p, bytes).1 == Seq::<Command>::empty(),
    decreases bytes.len(),
{
    if bytes.len() > 0 {
        let step = spec_feed(p, bytes[0]);
        assert(step.0 == p && step.1 is None);
        assert forall|i: int| 0 <= i < bytes.drop_first().len() implies bytes.drop_first()[i]
            != START_BYTE by {
            assert(bytes.drop_first()[i] == bytes[i + 1]);
        }
        lemma_noise_keeps_idle(p, bytes.drop_first());
    }
}

/// Law: a second consecutive start delimiter only resynchronizes. Feeding
/// two start delimiters and then any byte stream is, in final state and in
/// every emitted command, the same as feeding one start delimiter and that
/// stream.
pub proof fn lemma_double_start(p: Parser, rest: Seq<u8>)
    ensures
        spec_feed_all(p, seq![START_BYTE, START_BYTE] + rest) == spec_feed_all(
            p,
            seq![START_BYTE] + rest,
        ),
{
    let two = seq![START_BYTE, START_BYTE] + rest;
    let one = seq![START_BYTE] + rest;
    let opened = spec_feed(p, START_BYTE).0;
    assert(spec_feed(opened, START_BYTE).0 == opened);
    assert(two[0] == START_BYTE);
    assert(two.drop_first() =~= one);
    assert(one[0] == START_BYTE);
    assert(one.drop_first() =~= rest);
    assert(spec_feed_all(p, two) == spec_feed_all(opened, one));
    assert(spec_feed_all(opened, one) == spec_feed_all(opened, rest));
    assert(spec_feed_all(p, one) == spec_feed_all(opened, rest));
}

/// Law: a complete frame whose selector and payload are no delimiters, fed
/// to an idle parser, emits exactly the one command the two bytes denote and
/// leaves the parser idle again.
pub proof fn lemma_frame_commands(p: Parser, selector: u8, payload: u8)
    requires
        !p.reading,
        selector != START_BYTE,
        selector != END_BYTE,
        payload != START_BYTE,
        payload != END_BYTE,
    ensures
        spec_feed_all(p, seq![START_BYTE, selector, payload, END_BYTE]).1 == seq![
            spec_command(selector, payload),
        ],
        !spec_feed_all(p, seq![START_BYTE, selector, payload, END_BYTE]).0.reading,
        spec_feed_all(p, seq![START_BYTE, selector, payload, END_BYTE]).0.index == 0,
{
    reveal_with_fuel(spec_feed_all, 5);
    let frame = seq![START_BYTE, selector, payload, END_BYTE];
    let p1 = spec_feed(p, START_BYTE).0;
    let p2 = spec_feed(p1, selector).0;
    let p3 = spec_feed(p2, payload).0;
    assert(p2.buf0 == selector && p2.index == 1);
    assert(p3.buf0 == selector && p3.buf1 == payload);
    assert(spec_feed(p3, END_BYTE).1 == Some(spec_command(selector, payload)));
    assert(frame.drop_first() =~= seq![selector, payload, END_BYTE]);
    assert(seq![selector, payload, END_BYTE].drop_first() =~= seq![payload, END_BYTE]);
    assert(seq![payload, END_BYTE].drop_first() =~= seq![END_BYTE]);
    assert(seq![END_BYTE].drop_first() =~= Seq::<u8>::empty());
    assert(spec_feed_all(p, frame).1 =~= seq![spec_command(selector, payload)]);
}

/// Law: a complete reboot frame fed to an idle parser emits exactly one
/// reboot command, whatever its payload byte is — a payload that happens to
/// be a delimiter only closes or reopens the frame early, after the reboot
/// selector is already buffered.
pub proof fn lemma_reboot_frame_any_payload(p: Parser, payload: u8)
    requires
        !p.reading,
    ensures
        spec_feed_all(p, seq![START_BYTE, REBOOT_SELECTOR, payload, END_BYTE]).1 == seq![
            Command::Reboot,
        ],
{
    if payload != START_BYTE && payload != END_BYTE {
        lemma_frame_commands(p, REBOOT_SELECTOR, payload);
    } else {
        reveal_with_fuel(spec_feed_all, 5);
        let frame = seq![START_BYTE, REBOOT_SELECTOR, payload, END_BYTE];
        let p1 = spec_feed(p, START_BYTE).0;
        let p2 = spec_feed(p1, REBOOT_SELECTOR).0;
        let p3 = spec_feed(p2, payload).0;
        assert(p2.buf0 == REBOOT_SELECTOR && p2.index == 1);
        if payload == END_BYTE {
            // The payload closes the frame; the reboot selector is
            // already in place, and the frame's own end delimiter is
            // then idle noise.
            assert(spec_feed(p2, payload).1 == Some(Command::Reboot));
            assert(spec_feed(p3, END_BYTE).1 is None);
        } else {
            // The payload reopens the frame without touching the
            // buffer; the end delimiter still closes on the reboot
            // selector.
            assert(p3.buf0 == REBOOT_SELECTOR && p3.reading);
            assert(spec_feed(p3, END_BYTE).1 == Some(Command::Reboot));
        }
        assert(frame.drop_first() =~= seq![REBOOT_SELECTOR, payload, END_BYTE]);
        assert(seq![REBOOT_SELECTOR, payload, END_BYTE].drop_first() =~= seq![
            payload,
            END_BYTE,
        ]);
        assert(seq![payload, END_BYTE].drop_first() =~= seq![END_BYTE]);
        assert(seq![END_BYTE].drop_first() =~= Seq::<u8>::empty());
        assert(spec_feed_all(p, frame).1 =~= seq![Command::Reboot]);
    }
}

impl Parser {
    /// Well-formedness: the write position never leaves the two-byte buffer.
    pub open spec fn wf(self) -> bool {
        self.index <= 2
    }

    /// A fresh parser in its start-up state.
    pub fn new() -> (p: Parser)
        ensures
            p == spec_init(),
            p.wf(),
    {
        Parser { reading: false, buf0: 0, buf1: 0, index: 0 }
    }

    /// Consume one byte; return the command if this byte closed a frame.
    pub fn feed(&mut self, byte: u8) -> (cmd: Option<Command>)
        requires
            old(self).wf(),
        ensures
            final(self).wf(),
            (*final(self), cmd) == spec_feed(*old(self), byte),
    {
        if byte == START_BYTE {
            self.reading = true;
            self.index = 0;
            None
        } else if self.reading && byte == END_BYTE {
            self.reading = false;
            self.index = 0;
            if self.buf0 == BLINK_RATE_SELECTOR {
                Some(Command::SetBlinkRate(self.buf1))
            } else if self.buf0 == REBOOT_SELECTOR {
                Some(Command::Reboot)
            } else {
                Some(Command::Unknown(self.buf0))
            }
        } else if self.reading {
            if self.index == 0 {
                self.buf0 = byte;
                self.index = 1;
            } else if self.index == 1 {
                self.buf1 = byte;
                self.index = 2;
            }
            None
        } else {
            None
        }
    }
}

} // verus!
