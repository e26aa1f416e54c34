use std::sync::atomic::AtomicUsize;

use linefeed_unix::attrs::{control_char, make_raw, make_signal_passthrough, ControlChar, TermAttrs};
use linefeed_unix::cursor::{plan_move, CursorStep, Direction};
use linefeed_unix::error::{retry, TermError};
use linefeed_unix::session::{Capabilities, Output, Size, UnixTerminal};
use linefeed_unix::signal::{
    clear_signal, conv_signal, get_last_signal, get_raw_signal, set_raw_signal, signal_to_raw,
    signals_to_catch, take_last_signal, Signal, SignalSet, NO_SIGNAL,
};
use linefeed_unix::timeout::to_timeval;
use linefeed_unix::wait::{interrupted_action, wait_step, WaitAction};

fn caps() -> Capabilities {
    Capabilities {
        key_delete: "\x1b[3~".to_string(),
        key_insert: "\x1b[2~".to_string(),
        clear: b"\x1b[H\x1b[2J".to_vec(),
        clear_eos: b"\x1b[J".to_vec(),
        cursor_up: b"\x1b[A".to_vec(),
        cursor_up_n: b"\x1b[%p1%dA".to_vec(),
        cursor_down_n: b"\x1b[%p1%dB".to_vec(),
        cursor_left: b"\x08".to_vec(),
        cursor_left_n: b"\x1b[%p1%dD".to_vec(),
        cursor_right: b"\x1b[C".to_vec(),
        cursor_right_n: b"\x1b[%p1%dC".to_vec(),
    }
}

fn attrs() -> TermAttrs {
    let mut cc = vec![0u8; libc::NCCS];
    cc[libc::VEOF] = 4;
    cc[libc::VLNEXT] = 22;
    cc[libc::VERASE] = 127;
    cc[libc::VWERASE] = 23;
    cc[libc::VKILL] = 21;
    cc[libc::VMIN] = 1;
    cc[libc::VTIME] = 5;
    TermAttrs {
        input_flags: (libc::INLCR | libc::ICRNL | libc::IXON | libc::BRKINT) as u64,
        local_flags: (libc::ICANON | libc::ECHO | libc::ISIG | libc::IEXTEN) as u64,
        control_chars: cc,
    }
}

fn terminal() -> UnixTerminal {
    UnixTerminal::new(Some("xterm".to_string()), &attrs(), caps()).unwrap()
}

#[test]
fn conv_signal_maps_job_control_signals() {
    assert_eq!(conv_signal(libc::SIGCONT as usize), Some(Signal::Continue));
    assert_eq!(conv_signal(libc::SIGINT as usize), Some(Signal::Interrupt));
    assert_eq!(conv_signal(libc::SIGTSTP as usize), Some(Signal::Suspend));
    assert_eq!(conv_signal(libc::SIGQUIT as usize), Some(Signal::Quit));
}

#[test]
fn conv_signal_ignores_sentinel_and_other_numbers() {
    assert_eq!(conv_signal(NO_SIGNAL), None);
    assert_eq!(conv_signal(libc::SIGKILL as usize), None);
    assert_eq!(conv_signal(0), None);
}

#[test]
fn signal_to_raw_gives_os_numbers() {
    assert_eq!(signal_to_raw(Signal::Continue), libc::SIGCONT as usize);
    assert_eq!(signal_to_raw(Signal::Quit), libc::SIGQUIT as usize);
}

#[test]
fn take_twice_reports_once() {
    let slot = AtomicUsize::new(NO_SIGNAL);
    set_raw_signal(&slot, libc::SIGINT as usize);
    assert_eq!(take_last_signal(&slot), Some(Signal::Interrupt));
    assert_eq!(take_last_signal(&slot), None);
    assert_eq!(get_raw_signal(&slot), NO_SIGNAL);
}

#[test]
fn take_on_empty_slot_reports_none() {
    let slot = AtomicUsize::new(NO_SIGNAL);
    assert_eq!(take_last_signal(&slot), None);
    assert_eq!(take_last_signal(&slot), None);
}

#[test]
fn get_is_idempotent() {
    let slot = AtomicUsize::new(NO_SIGNAL);
    set_raw_signal(&slot, libc::SIGTSTP as usize);
    assert_eq!(get_last_signal(&slot), Some(Signal::Suspend));
    assert_eq!(get_last_signal(&slot), Some(Signal::Suspend));
    assert_eq!(take_last_signal(&slot), Some(Signal::Suspend));
}

#[test]
fn clear_signal_empties_slot() {
    let slot = AtomicUsize::new(libc::SIGQUIT as usize);
    clear_signal(&slot);
    assert_eq!(get_last_signal(&slot), None);
}

#[test]
fn signal_set_operations() {
    let mut s = SignalSet::new();
    assert!(!s.contains(Signal::Quit));
    s.insert(Signal::Quit);
    assert!(s.contains(Signal::Quit));
    assert!(!s.contains(Signal::Suspend));
}

#[test]
fn signals_to_catch_follows_reported_set() {
    let mut reported = SignalSet::new();
    reported.insert(Signal::Suspend);
    let caught = signals_to_catch(true, &reported);
    assert!(caught.contains(Signal::Continue));
    assert!(caught.contains(Signal::Interrupt));
    assert!(caught.contains(Signal::Suspend));
    assert!(!caught.contains(Signal::Quit));
    let none = signals_to_catch(false, &reported);
    assert_eq!(none, SignalSet::new());
}

#[test]
fn timeval_clamps_huge_seconds() {
    let tv = to_timeval(u64::MAX, 0);
    assert_eq!(tv.sec, libc::time_t::MAX);
    assert_eq!(tv.usec, 0);
    let tv = to_timeval(libc::time_t::MAX as u64 + 1, 999_999_999);
    assert_eq!(tv.sec, libc::time_t::MAX);
    assert_eq!(tv.usec, 999_999);
}

#[test]
fn timeval_truncates_to_microseconds() {
    let tv = to_timeval(3, 1_500_999);
    assert_eq!(tv.sec, 3);
    assert_eq!(tv.usec, 1_500);
    let tv = to_timeval(0, 999);
    assert_eq!(tv.sec, 0);
    assert_eq!(tv.usec, 0);
}

#[test]
fn zero_moves_are_silent() {
    let t = terminal();
    for dir in [Direction::Up, Direction::Down, Direction::Left, Direction::Right] {
        assert_eq!(plan_move(dir, 0), CursorStep::Stay);
        assert_eq!(t.move_cursor(dir, 0), Output::Nothing);
    }
}

#[test]
fn move_down_is_always_parameterized() {
    let t = terminal();
    assert_eq!(plan_move(Direction::Down, 1), CursorStep::Param(1));
    assert_eq!(t.move_cursor(Direction::Down, 1), Output::Expand(b"\x1b[%p1%dB".to_vec(), 1));
    assert_eq!(t.move_cursor(Direction::Down, 7), Output::Expand(b"\x1b[%p1%dB".to_vec(), 7));
}

#[test]
fn single_steps_use_short_capability() {
    let t = terminal();
    assert_eq!(t.move_cursor(Direction::Up, 1), Output::Bytes(b"\x1b[A".to_vec()));
    assert_eq!(t.move_cursor(Direction::Left, 1), Output::Bytes(b"\x08".to_vec()));
    assert_eq!(t.move_cursor(Direction::Right, 1), Output::Bytes(b"\x1b[C".to_vec()));
}

#[test]
fn longer_moves_expand_parameterized_capability() {
    let t = terminal();
    assert_eq!(t.move_cursor(Direction::Up, 3), Output::Expand(b"\x1b[%p1%dA".to_vec(), 3));
    assert_eq!(t.move_cursor(Direction::Left, 2), Output::Expand(b"\x1b[%p1%dD".to_vec(), 2));
    assert_eq!(t.move_cursor(Direction::Right, 40), Output::Expand(b"\x1b[%p1%dC".to_vec(), 40));
}

#[test]
fn session_accessors() {
    let t = terminal();
    assert_eq!(t.eof_char(), '\x04');
    assert_eq!(t.literal_char(), '\x16');
    assert_eq!(t.erase_char(), '\x7f');
    assert_eq!(t.word_erase_char(), '\x17');
    assert_eq!(t.kill_char(), '\x15');
    assert_eq!(t.delete_seq(), "\x1b[3~");
    assert_eq!(t.insert_seq(), "\x1b[2~");
    assert_eq!(t.name(), Some("xterm"));
    assert_eq!(t.clear_screen(), b"\x1b[H\x1b[2J".to_vec());
    assert_eq!(t.clear_to_screen_end(), b"\x1b[J".to_vec());
    assert_eq!(t.resume_params(), None);
}

#[test]
fn session_without_name() {
    let t = UnixTerminal::new(None, &attrs(), caps()).unwrap();
    assert_eq!(t.name(), None);
}

#[test]
fn session_fails_without_control_chars() {
    let mut a = attrs();
    a.control_chars.clear();
    assert!(matches!(UnixTerminal::new(None, &a, caps()), Err(TermError::Init)));
}

#[test]
fn raw_mode_clears_flags_and_read_controls() {
    let a = attrs();
    let r = make_raw(&a);
    assert_eq!(r.input_flags, (libc::IXON | libc::BRKINT) as u64);
    assert_eq!(r.local_flags, (libc::ISIG | libc::IEXTEN) as u64);
    assert_eq!(r.control_chars[libc::VMIN], 0);
    assert_eq!(r.control_chars[libc::VTIME], 0);
    assert_eq!(r.control_chars[libc::VERASE], 127);
}

#[test]
fn signal_passthrough_keeps_canonical_mode() {
    let a = attrs();
    let r = make_signal_passthrough(&a);
    assert_eq!(r.input_flags, (libc::INLCR | libc::ICRNL | libc::BRKINT) as u64);
    assert_eq!(r.local_flags, (libc::ICANON | libc::ECHO | libc::IEXTEN) as u64);
    assert_eq!(r.control_chars, a.control_chars);
}

#[test]
fn control_char_reads_slot() {
    let a = attrs();
    assert_eq!(control_char(&a, ControlChar::Kill), Some(21));
    let empty = TermAttrs { input_flags: 0, local_flags: 0, control_chars: Vec::new() };
    assert_eq!(control_char(&empty, ControlChar::Kill), None);
}

#[test]
fn prepare_then_release_restores_snapshot() {
    let mut t = terminal();
    let before = attrs();
    let mut reported = SignalSet::new();
    reported.insert(Signal::Quit);
    let plan = t.prepare(&before, true, reported);
    assert_ne!(plan.applied, before);
    assert_eq!(plan.restore_attrs(), before);
    assert!(plan.caught.contains(Signal::Quit));
    assert!(!plan.caught.contains(Signal::Suspend));
    assert_eq!(t.resume_params(), Some((true, reported)));
}

#[test]
fn expired_wait_answers_false() {
    let slot = AtomicUsize::new(NO_SIGNAL);
    assert_eq!(wait_step(Ok(0), &slot), WaitAction::Finish(false));
    assert_eq!(wait_step(Ok(1), &slot), WaitAction::Finish(true));
}

#[test]
fn interrupted_wait_without_signal_retries() {
    let slot = AtomicUsize::new(NO_SIGNAL);
    assert_eq!(wait_step(Err(libc::EINTR), &slot), WaitAction::Retry);
}

#[test]
fn failed_wait_reports_error() {
    let slot = AtomicUsize::new(NO_SIGNAL);
    assert_eq!(wait_step(Err(libc::EBADF), &slot), WaitAction::Fail(TermError::Io(libc::EBADF)));
}

#[test]
fn interrupted_wait_with_signal_finishes() {
    let slot = AtomicUsize::new(libc::SIGINT as usize);
    assert_eq!(wait_step(Err(libc::EINTR), &slot), WaitAction::Finish(true));
    assert_eq!(interrupted_action(Some(Signal::Quit)), WaitAction::Finish(true));
    assert_eq!(interrupted_action(None), WaitAction::Retry);
}

#[test]
fn continue_during_wait_survives_resume() {
    let slot = AtomicUsize::new(NO_SIGNAL);
    set_raw_signal(&slot, signal_to_raw(Signal::Continue));
    assert_eq!(wait_step(Err(libc::EINTR), &slot), WaitAction::ResumeAndFinish);
    // the handshake: snapshot, prepare again (which clears the relay), put back
    let snapshot = get_raw_signal(&slot);
    clear_signal(&slot);
    set_raw_signal(&slot, snapshot);
    assert_eq!(take_last_signal(&slot), Some(Signal::Continue));
    assert_eq!(take_last_signal(&slot), None);
}

#[test]
fn retry_decisions() {
    assert_eq!(retry::<usize>(Ok(5)), Some(Ok(5)));
    assert_eq!(retry::<usize>(Err(libc::EINTR)), None);
    assert_eq!(retry::<usize>(Err(libc::EIO)), Some(Err(TermError::Io(libc::EIO))));
}

#[test]
fn size_from_winsize() {
    assert_eq!(Size::from_winsize(24, 80), Size { lines: 24, columns: 80 });
}
