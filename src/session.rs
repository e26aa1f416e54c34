//! The terminal session: control characters and capabilities resolved once,
//! the parameters of the last raw-mode preparation, and the choice of bytes
//! for each screen operation.
use vstd::prelude::*;
use crate::attrs::{control_char, control_index, make_raw, raw_input_flags, raw_local_flags, raw_mode_chars, same_attrs, ControlChar, TermAttrs};
use crate::cursor::{move_step, plan_move, CursorStep, Direction};
use crate::error::TermError;
use crate::signal::{caught_by, signals_to_catch, SignalSet};

verus! {

/// The size of the terminal window.
#[derive(Clone, Copy, Debug, PartialEq, Eq, Structural)]
pub struct Size {
    pub lines: usize,
    pub columns: usize,
}

impl Size {
    /// The size that a window-size query reported as rows and columns.
    pub fn from_winsize(rows: u16, cols: u16) -> (r: Size)
        ensures
            r.lines == rows as usize,
            r.columns == cols as usize,
    {
        Size { lines: rows as usize, columns: cols as usize }
    }
}

/// The capability strings of the terminal type.
#[derive(Clone, Debug)]
pub struct Capabilities {
    pub key_delete: String,
    pub key_insert: String,
    pub clear: Vec<u8>,
    pub clear_eos: Vec<u8>,
    pub cursor_up: Vec<u8>,
    pub cursor_up_n: Vec<u8>,
    pub cursor_down_n: Vec<u8>,
    pub cursor_left: Vec<u8>,
    pub cursor_left_n: Vec<u8>,
    pub cursor_right: Vec<u8>,
    pub cursor_right_n: Vec<u8>,
}

/// The single-step capability of a direction; moving down has none.
pub open spec fn single_cap(c: Capabilities, dir: Direction) -> Seq<u8> {
    match dir {
        Direction::Up => c.cursor_up@,
        Direction::Left => c.cursor_left@,
        Direction::Right => c.cursor_right@,
        Direction::Down => Seq::empty(),
    }
}

/// The parameterized capability of a direction.
pub open spec fn param_cap(c: Capabilities, dir: Direction) -> Seq<u8> {
    match dir {
        Direction::Up => c.cursor_up_n@,
        Direction::Down => c.cursor_down_n@,
        Direction::Left => c.cursor_left_n@,
        Direction::Right => c.cursor_right_n@,
    }
}

/// What a screen operation writes.
#[derive(Clone, Debug, PartialEq, Eq)]
pub enum Output {
    /// Nothing.
    Nothing,
    /// These bytes, verbatim.
    Bytes(Vec<u8>),
    /// This parameterized capability, expanded with the count.
    Expand(Vec<u8>, i32),
}

/// The attributes to apply and to restore for one raw-mode preparation,
/// and the signals whose handlers it installs.
#[derive(Clone, Debug)]
pub struct PreparePlan {
    pub applied: TermAttrs,
    pub saved: TermAttrs,
    pub caught: SignalSet,
}

/// A terminal session of this backend.
pub struct UnixTerminal {
    name: Option<String>,
    eof: u8,
    literal: u8,
    erase: u8,
    word_erase: u8,
    kill: u8,
    caps: Capabilities,
    resume: Option<(bool, SignalSet)>,
}

impl UnixTerminal {
    /// The terminal type's name.
    pub closed spec fn name_spec(&self) -> Option<String> {
        self.name
    }

    /// The five control characters: end-of-file, literal-next, erase,
    /// word-erase, kill.
    pub closed spec fn chars_spec(&self) -> Seq<u8> {
        seq![self.eof, self.literal, self.erase, self.word_erase, self.kill]
    }

    /// The capability strings.
    pub closed spec fn caps_spec(&self) -> Capabilities {
        self.caps
    }

    /// The parameters of the most recent raw-mode preparation.
    pub closed spec fn resume_spec(&self) -> Option<(bool, SignalSet)> {
        self.resume
    }

    /// A session for terminal type `name`, with the control characters of
    /// `attrs` and the capabilities `caps`. Fails with `Init` when `attrs`
    /// lacks one of the five control characters.
    pub fn new(name: Option<String>, attrs: &TermAttrs, caps: Capabilities) -> (r: Result<UnixTerminal, TermError>)
        ensures
            ({
                let all_there = control_index(ControlChar::EndOfFile) < attrs.control_chars@.len()
                    && control_index(ControlChar::LiteralNext) < attrs.control_chars@.len()
                    && control_index(ControlChar::Erase) < attrs.control_chars@.len()
                    && control_index(ControlChar::WordErase) < attrs.control_chars@.len()
                    && control_index(ControlChar::Kill) < attrs.control_chars@.len();
                &&& all_there <==> r.is_ok()
                &&& !all_there ==> r == Err::<UnixTerminal, TermError>(TermError::Init)
                &&& r.is_ok() ==> {
                    let t = r.unwrap();
                    let cc = attrs.control_chars@;
                    &&& t.name_spec() == name
                    &&& t.caps_spec() == caps
                    &&& t.resume_spec() == None::<(bool, SignalSet)>
                    &&& t.chars_spec() == seq![
                        cc[control_index(ControlChar::EndOfFile) as int],
                        cc[control_index(ControlChar::LiteralNext) as int],
                        cc[control_index(ControlChar::Erase) as int],
                        cc[control_index(ControlChar::WordErase) as int],
                        cc[control_index(ControlChar::Kill) as int],
                    ]
                }
            }),
    {
        let eof = match control_char(attrs, ControlChar::EndOfFile) {
            Some(c) => c,
            None => return Err(TermError::Init),
        };
        let literal = match control_char(attrs, ControlChar::LiteralNext) {
            Some(c) => c,
            None => return Err(TermError::Init),
        };
        let erase = match control_char(attrs, ControlChar::Erase) {
            Some(c) => c,
            None => return Err(TermError::Init),
        };
        let word_erase = match control_char(attrs, ControlChar::WordErase) {
            Some(c) => c,
            None => return Err(TermError::Init),
        };
        let kill = match control_char(attrs, ControlChar::Kill) {
            Some(c) => c,
            None => return Err(TermError::Init),
        };
        Ok(UnixTerminal { name, eof, literal, erase, word_erase, kill, caps, resume: None })
    }

    /// The end-of-file character.
    pub fn eof_char(&self) -> (r: char)
        ensures
            r == self.chars_spec()[0] as char,
    {
        self.eof as char
    }

    /// The literal-next character.
    pub fn literal_char(&self) -> (r: char)
        ensures
            r == self.chars_spec()[1] as char,
    {
        self.literal as char
    }

    /// The erase character.
    pub fn erase_char(&self) -> (r: char)
        ensures
            r == self.chars_spec()[2] as char,
    {
        self.erase as char
    }

    /// The word-erase character.
    pub fn word_erase_char(&self) -> (r: char)
        ensures
            r == self.chars_spec()[3] as char,
    {
        self.word_erase as char
    }

    /// The kill character.
    pub fn kill_char(&self) -> (r: char)
        ensures
            r == self.chars_spec()[4] as char,
    {
        self.kill as char
    }

    /// The sequence that the delete key sends.
    pub fn delete_seq(&self) -> (r: &str)
        ensures
            r@ == self.caps_spec().key_delete@,
    {
        self.caps.key_delete.as_str()
    }

    /// The sequence that the insert key sends.
    pub fn insert_seq(&self) -> (r: &str)
        ensures
            r@ == self.caps_spec().key_insert@,
    {
        self.caps.key_insert.as_str()
    }

    /// The terminal type's name, if it is known.
    pub fn name(&self) -> (r: Option<&str>)
        ensures
            r.is_some() == self.name_spec().is_some(),
            r.is_some() ==> r.unwrap()@ == self.name_spec().unwrap()@,
    {
        match &self.name {
            Some(s) => Some(s.as_str()),
            None => None,
        }
    }

    /// What clearing the screen writes.
    pub fn clear_screen(&self) -> (r: Vec<u8>)
        ensures
            r@ == self.caps_spec().clear@,
    {
        self.caps.clear.clone()
    }

    /// What clearing to the end of the screen writes.
    pub fn clear_to_screen_end(&self) -> (r: Vec<u8>)
        ensures
            r@ == self.caps_spec().clear_eos@,
    {
        self.caps.clear_eos.clone()
    }

    /// What moving the cursor `n` cells in direction `dir` writes.
    pub fn move_cursor(&self, dir: Direction, n: usize) -> (r: Output)
        ensures
            match move_step(dir, n) {
                CursorStep::Stay => r == Output::Nothing,
                CursorStep::Single => r is Bytes && r->Bytes_0@ == single_cap(self.caps_spec(), dir),
                CursorStep::Param(k) => r is Expand && r->Expand_0@ == param_cap(self.caps_spec(), dir)
                    && r->Expand_1 == k,
            },
    {
        match plan_move(dir, n) {
            CursorStep::Stay => Output::Nothing,
            CursorStep::Single => {
                let cap = match dir {
                    Direction::Up => self.caps.cursor_up.clone(),
                    Direction::Left => self.caps.cursor_left.clone(),
                    Direction::Right => self.caps.cursor_right.clone(),
                    Direction::Down => Vec::new(),
                };
                Output::Bytes(cap)
            },
            CursorStep::Param(k) => {
                let cap = match dir {
                    Direction::Up => self.caps.cursor_up_n.clone(),
                    Direction::Down => self.caps.cursor_down_n.clone(),
                    Direction::Left => self.caps.cursor_left_n.clone(),
                    Direction::Right => self.caps.cursor_right_n.clone(),
                };
                Output::Expand(cap, k)
            },
        }
    }

    /// Plans a raw-mode preparation from the current attributes, and records
    /// its parameters for the resume handshake.
    pub fn prepare(&mut self, current: &TermAttrs, catch_signals: bool, report_signals: SignalSet) -> (r: PreparePlan)
        ensures
            same_attrs(r.saved, *current),
            r.applied.input_flags == raw_input_flags(current.input_flags),
            r.applied.local_flags == raw_local_flags(current.local_flags),
            r.applied.control_chars@ == raw_mode_chars(current.control_chars@),
            forall|k| r.caught.has(k) == caught_by(catch_signals, report_signals, k),
            final(self).resume_spec() == Some((catch_signals, report_signals)),
            final(self).name_spec() == old(self).name_spec(),
            final(self).chars_spec() == old(self).chars_spec(),
            final(self).caps_spec() == old(self).caps_spec(),
    {
        let applied = make_raw(current);
        let caught = signals_to_catch(catch_signals, &report_signals);
        self.resume = Some((catch_signals, report_signals));
        PreparePlan { applied, saved: current.duplicate(), caught }
    }

    /// The parameters of the most recent preparation, which the resume
    /// handshake prepares again with.
    pub fn resume_params(&self) -> (r: Option<(bool, SignalSet)>)
        ensures
            r == self.resume_spec(),
    {
        self.resume
    }
}

impl PreparePlan {
    /// The attributes that releasing the session writes back.
    pub fn restore_attrs(&self) -> (r: TermAttrs)
        ensures
            same_attrs(r, self.saved),
    {
        self.saved.duplicate()
    }
}

/// A preparation followed by its release writes back exactly the
/// attributes that were read before the preparation.
pub proof fn lemma_release_restores(before: TermAttrs, plan: PreparePlan, restored: TermAttrs)
    requires
        same_attrs(plan.saved, before),
        same_attrs(restored, plan.saved),
    ensures
        same_attrs(restored, before),
{
}

} // verus!
