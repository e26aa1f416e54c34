//! The part of the terminal discipline that this backend reads and changes,
//! and the two transforms that raw-mode sessions apply to it.
use vstd::prelude::*;
use nix::sys::termios::{InputFlags, LocalFlags, SpecialCharacterIndices};

verus! {

/// Terminal attributes: input and local mode flags, and the control
/// characters indexed as the OS indexes them.
#[derive(Clone, Debug, PartialEq, Eq)]
pub struct TermAttrs {
    pub input_flags: u64,
    pub local_flags: u64,
    pub control_chars: Vec<u8>,
}

impl TermAttrs {
    /// A copy of these attributes.
    pub fn duplicate(&self) -> (r: TermAttrs)
        ensures
            same_attrs(r, *self),
    {
        TermAttrs {
            input_flags: self.input_flags,
            local_flags: self.local_flags,
            control_chars: self.control_chars.clone(),
        }
    }
}

/// A mode flag of the terminal discipline.
#[derive(Clone, Copy, Debug, PartialEq, Eq, Structural)]
pub enum ModeFlag {
    /// Input: map newline to carriage return.
    MapNlToCr,
    /// Input: map carriage return to newline.
    MapCrToNl,
    /// Input: start/stop output control.
    FlowControl,
    /// Local: canonical line processing.
    Canonical,
    /// Local: echo of input.
    Echo,
    /// Local: control characters that raise signals.
    SignalChars,
}

/// A slot of the control-character array.
#[derive(Clone, Copy, Debug, PartialEq, Eq, Structural)]
pub enum ControlChar {
    EndOfFile,
    LiteralNext,
    Erase,
    WordErase,
    Kill,
    MinBytes,
    ReadTimeout,
}

/// The bit of a mode flag in its flag word.
pub uninterp spec fn flag_bits(f: ModeFlag) -> u64;

/// The index of a control character in the control-character array.
pub uninterp spec fn control_index(c: ControlChar) -> usize;

/// Relies on nix's `InputFlags` and `LocalFlags` constants (libc's `INLCR`,
/// `ICRNL`, `IXON`, `ICANON`, `ECHO`, `ISIG`): gives the bit of a flag.
#[verifier::external_body]
fn mode_flag_bits(f: ModeFlag) -> (r: u64)
    ensures
        r == flag_bits(f),
{
    match f {
        ModeFlag::MapNlToCr => InputFlags::INLCR.bits() as u64,
        ModeFlag::MapCrToNl => InputFlags::ICRNL.bits() as u64,
        ModeFlag::FlowControl => InputFlags::IXON.bits() as u64,
        ModeFlag::Canonical => LocalFlags::ICANON.bits() as u64,
        ModeFlag::Echo => LocalFlags::ECHO.bits() as u64,
        ModeFlag::SignalChars => LocalFlags::ISIG.bits() as u64,
    }
}

/// Relies on nix's `SpecialCharacterIndices` (libc's `VEOF`, `VLNEXT`,
/// `VERASE`, `VWERASE`, `VKILL`, `VMIN`, `VTIME`): gives the index of a
/// control character.
#[verifier::external_body]
fn control_char_index(c: ControlChar) -> (r: usize)
    ensures
        r == control_index(c),
{
    match c {
        ControlChar::EndOfFile => SpecialCharacterIndices::VEOF as usize,
        ControlChar::LiteralNext => SpecialCharacterIndices::VLNEXT as usize,
        ControlChar::Erase => SpecialCharacterIndices::VERASE as usize,
        ControlChar::WordErase => SpecialCharacterIndices::VWERASE as usize,
        ControlChar::Kill => SpecialCharacterIndices::VKILL as usize,
        ControlChar::MinBytes => SpecialCharacterIndices::VMIN as usize,
        ControlChar::ReadTimeout => SpecialCharacterIndices::VTIME as usize,
    }
}

/// `cc` with slot `i` set to `v`, or unchanged when it has no slot `i`.
pub open spec fn set_slot(cc: Seq<u8>, i: usize, v: u8) -> Seq<u8> {
    if i < cc.len() {
        cc.update(i as int, v)
    } else {
        cc
    }
}

/// Two attribute values are the same.
pub open spec fn same_attrs(a: TermAttrs, b: TermAttrs) -> bool {
    &&& a.input_flags == b.input_flags
    &&& a.local_flags == b.local_flags
    &&& a.control_chars@ == b.control_chars@
}

/// The input flags of raw mode: no newline or carriage-return translation.
pub open spec fn raw_input_flags(f: u64) -> u64 {
    f & !(flag_bits(ModeFlag::MapNlToCr) | flag_bits(ModeFlag::MapCrToNl))
}

/// The local flags of raw mode: no canonical processing and no echo.
pub open spec fn raw_local_flags(f: u64) -> u64 {
    f & !(flag_bits(ModeFlag::Canonical) | flag_bits(ModeFlag::Echo))
}

/// The control characters of raw mode: reads return at once, with
/// minimum bytes and read timeout both zero.
pub open spec fn raw_mode_chars(cc: Seq<u8>) -> Seq<u8> {
    set_slot(set_slot(cc, control_index(ControlChar::MinBytes), 0), control_index(ControlChar::ReadTimeout), 0)
}

/// Control bytes as data: no start/stop flow control and no signal
/// characters; everything else is kept.
pub open spec fn signal_passthrough(a: TermAttrs) -> TermAttrs {
    TermAttrs {
        input_flags: a.input_flags & !flag_bits(ModeFlag::FlowControl),
        local_flags: a.local_flags & !flag_bits(ModeFlag::SignalChars),
        control_chars: a.control_chars,
    }
}

fn set_control(cc: &mut Vec<u8>, i: usize, v: u8)
    ensures
        final(cc)@ == set_slot(old(cc)@, i, v),
{
    if i < cc.len() {
        cc.set(i, v);
    }
}

/// The attributes of raw input mode, derived from `a`.
pub fn make_raw(a: &TermAttrs) -> (r: TermAttrs)
    ensures
        r.input_flags == raw_input_flags(a.input_flags),
        r.local_flags == raw_local_flags(a.local_flags),
        r.control_chars@ == raw_mode_chars(a.control_chars@),
{
    let nl = mode_flag_bits(ModeFlag::MapNlToCr);
    let cr = mode_flag_bits(ModeFlag::MapCrToNl);
    let canon = mode_flag_bits(ModeFlag::Canonical);
    let echo = mode_flag_bits(ModeFlag::Echo);
    let mut cc = a.control_chars.clone();
    set_control(&mut cc, control_char_index(ControlChar::MinBytes), 0);
    set_control(&mut cc, control_char_index(ControlChar::ReadTimeout), 0);
    TermAttrs {
        input_flags: a.input_flags & !(nl | cr),
        local_flags: a.local_flags & !(canon | echo),
        control_chars: cc,
    }
}

/// The attributes under which control bytes arrive as data, derived from `a`.
pub fn make_signal_passthrough(a: &TermAttrs) -> (r: TermAttrs)
    ensures
        same_attrs(r, signal_passthrough(*a)),
{
    let ixon = mode_flag_bits(ModeFlag::FlowControl);
    let isig = mode_flag_bits(ModeFlag::SignalChars);
    TermAttrs {
        input_flags: a.input_flags & !ixon,
        local_flags: a.local_flags & !isig,
        control_chars: a.control_chars.clone(),
    }
}

/// The control character in slot `c`, or `None` when the array has no such slot.
pub fn control_char(a: &TermAttrs, c: ControlChar) -> (r: Option<u8>)
    ensures
        control_index(c) < a.control_chars@.len() ==> r == Some(a.control_chars@[control_index(c) as int]),
        control_index(c) >= a.control_chars@.len() ==> r == None::<u8>,
{
    let i = control_char_index(c);
    if i < a.control_chars.len() {
        Some(a.control_chars[i])
    } else {
        None
    }
}

} // verus!
