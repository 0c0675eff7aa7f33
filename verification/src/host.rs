//! Host-side protocol logic: encoding the two command frames and validating
//! the operator's typed input.
//!
//! The host offers a two-entry menu. Entry one prompts for a blink rate and
//! sends a set-blink-rate frame; entry two sends a reboot frame whose payload
//! byte is zero because the firmware ignores it. Typed input is accepted only
//! when it is a decimal unsigned byte (an optional leading plus sign, then
//! digits, value at most 255); on anything else no frame is built and the
//! menu is shown again. Writing the frames to the serial endpoint is the
//! caller's job.

use vstd::prelude::*;

use crate::parser::{BLINK_RATE_SELECTOR, END_BYTE, REBOOT_SELECTOR, START_BYTE};

verus! {

/// ASCII plus sign, the one sign a decimal unsigned byte may carry.
pub const PLUS_SIGN: u8 = 0x2B;

/// The four wire bytes of a set-blink-rate frame.
pub open spec fn spec_set_rate_frame(rate: u8) -> Seq<u8> {
    seq![START_BYTE, BLINK_RATE_SELECTOR, rate, END_BYTE]
}

/// The four wire bytes of a reboot frame: the payload byte is zero.
pub open spec fn spec_reboot_frame() -> Seq<u8> {
    seq![START_BYTE, REBOOT_SELECTOR, 0u8, END_BYTE]
}

/// Whether `byte` is an ASCII decimal digit.
pub open spec fn spec_is_digit(byte: u8) -> bool {
    0x30 <= byte <= 0x39
}

/// Whether every byte of `s` is an ASCII decimal digit.
pub open spec fn spec_all_digits(s: Seq<u8>) -> bool {
    forall|i: int| 0 <= i < s.len() ==> spec_is_digit(s[i])
}

/// The number an ASCII digit string denotes, most significant digit first.
pub open spec fn spec_digits_value(s: Seq<u8>) -> int
    decreases s.len(),
{
    if s.len() == 0 {
        0
    } else {
        spec_digits_value(s.drop_last()) * 10 + (s.last() - 0x30)
    }
}

/// The digits of a typed number: everything after an optional leading plus
/// sign.
pub open spec fn spec_digits_of(s: Seq<u8>) -> Seq<u8> {
    if s.len() > 0 && s[0] == PLUS_SIGN {
        s.drop_first()
    } else {
        s
    }
}

/// Whether the typed bytes are a valid unsigned byte: an optional leading
/// plus sign, then at least one decimal digit, denoting a value of at most
/// 255.
pub open spec fn spec_valid_rate(s: Seq<u8>) -> bool {
    &&& spec_digits_of(s).len() > 0
    &&& spec_all_digits(spec_digits_of(s))
    &&& spec_digits_value(spec_digits_of(s)) <= 255
}

/// What the host must do for a chosen menu entry.
#[derive(Clone, Copy, Debug, PartialEq, Eq, Structural)]
pub enum MenuChoice {
    /// Prompt for a new blink rate and send a set-blink-rate frame.
    ChangeBlinkRate,
    /// Send a reboot frame.
    Reboot,
    /// No such menu entry; report it and show the menu again.
    Invalid,
}

/// Which operation a menu entry number selects.
pub open spec fn spec_menu_choice(option: u8) -> MenuChoice {
    if option == 1 {
        MenuChoice::ChangeBlinkRate
    } else if option == 2 {
        MenuChoice::Reboot
    } else {
        MenuChoice::Invalid
    }
}

/// Which operation a menu entry number selects.
pub fn menu_choice(option: u8) -> (choice: MenuChoice)
    ensures
        choice == spec_menu_choice(option),
{
    if option == 1 {
        MenuChoice::ChangeBlinkRate
    } else if option == 2 {
        MenuChoice::Reboot
    } else {
        MenuChoice::Invalid
    }
}

/// Build the set-blink-rate frame for `rate`.
pub fn set_rate_frame(rate: u8) -> (frame: Vec<u8>)
    ensures
        frame@ == spec_set_rate_frame(rate),
{
    let mut frame: Vec<u8> = Vec::new();
    frame.push(START_BYTE);
    frame.push(BLINK_RATE_SELECTOR);
    frame.push(rate);
    frame.push(END_BYTE);
    proof {
        assert(frame@ =~= spec_set_rate_frame(rate));
    }
    frame
}

/// Build the reboot frame.
pub fn reboot_frame() -> (frame: Vec<u8>)
    ensures
        frame@ == spec_reboot_frame(),
{
    let mut frame: Vec<u8> = Vec::new();
    frame.push(START_BYTE);
    frame.push(REBOOT_SELECTOR);
    frame.push(0);
    frame.push(END_BYTE);
    proof {
        assert(frame@ =~= spec_reboot_frame());
    }
    frame
}

/// Parse the operator's typed bytes as a decimal unsigned byte. Returns the
/// value exactly when the input is valid, and nothing otherwise.
pub fn parse_rate(s: &[u8]) -> (rate: Option<u8>)
    ensures
        match rate {
            Some(v) => spec_valid_rate(s@) && v == spec_digits_value(spec_digits_of(s@)),
            None => !spec_valid_rate(s@),
        },
{
    let start: usize = if s.len() > 0 && s[0] == PLUS_SIGN {
        1
    } else {
        0
    };
    proof {
        assert(spec_digits_of(s@) =~= s@.subrange(start as int, s@.len() as int));
    }
    if s.len() == start {
        return None;
    }
    // `acc` tracks the value of the digits read so far, except that once the
    // value has passed 255 it is merely kept above 255 (never multiplied
    // again), so it cannot overflow however long the input is.
    let mut acc: u32 = 0;
    let mut i: usize = start;
    while i < s.len()
        invariant
            start <= i <= s.len(),
            start <= 1,
            spec_digits_of(s@) == s@.subrange(start as int, s@.len() as int),
            spec_all_digits(s@.subrange(start as int, i as int)),
            acc <= 2559,
            spec_digits_value(s@.subrange(start as int, i as int)) <= 255 ==> acc == spec_digits_value(
                s@.subrange(start as int, i as int),
            ),
            spec_digits_value(s@.subrange(start as int, i as int)) > 255 ==> acc > 255,
        decreases s.len() - i,
    {
        let byte = s[i];
        if byte < 0x30 || byte > 0x39 {
            assert(spec_digits_of(s@)[i - start] == s@[i as int]);
            assert(!spec_all_digits(spec_digits_of(s@)));
            return None;
        }
        let ghost prefix = s@.subrange(start as int, i as int);
        let ghost extended = s@.subrange(start as int, i as int + 1);
        proof {
            assert(extended.drop_last() =~= prefix);
            assert(extended.last() == byte);
        }
        if acc <= 255 {
            acc = acc * 10 + (byte - 0x30) as u32;
        }
        i += 1;
    }
    proof {
        assert(s@.subrange(start as int, i as int) =~= spec_digits_of(s@));
    }
    if acc <= 255 {
        Some(acc as u8)
    } else {
        None
    }
}

} // verus!
