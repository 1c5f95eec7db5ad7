use pin_vault::command::{read_command, CommandReader};
use pin_vault::indicator::{blink_schedule, LedStep, OFF_CYCLES, ON_CYCLES, PAUSE_CYCLES};
use pin_vault::pin::generate_pin;
use pin_vault::session::{guess_digits, line_bytes, Action, Session, PIN_CORRECT, PIN_INCORRECT};
use pin_vault::vault::{Locked, Vault, PROVISIONED_SECRET};

fn locked(pin: [u8; 2]) -> Vault<Locked> {
    Vault::new().bind(pin)
}

fn blink() -> Vec<LedStep> {
    vec![LedStep::Wait(ON_CYCLES), LedStep::Toggle, LedStep::Wait(OFF_CYCLES), LedStep::Toggle]
}

/// Feeds `input` through a reader and the session, collecting the actions
/// that complete lines lead to; random draws are answered with `random`.
fn drive(mut session: Session, input: &[u8], random: [u8; 2]) -> (Session, Vec<Action>) {
    let mut reader = CommandReader::new();
    let mut actions = Vec::new();
    for &b in input {
        if let Some(cmd) = reader.push(b) {
            let (next, action) = session.on_command(cmd);
            session = next;
            if action == Action::DrawRandom {
                let (next, action) = session.on_random(random);
                session = next;
                actions.push(action);
            } else if action != Action::Nothing {
                actions.push(action);
            }
        }
    }
    (session, actions)
}

fn failed_attempts_of(session: &Session) -> Option<u32> {
    match session {
        Session::Guessing(v) => Some(v.failed_attempts()),
        _ => None,
    }
}

#[test]
fn pin_digits_stay_in_range_for_every_byte() {
    for a in 0..=255u8 {
        for b in [0u8, 1, 2, 3, 4, 127, 128, 255] {
            let pin = generate_pin([a, b]);
            assert!((1..=4).contains(&pin[0]));
            assert!((1..=4).contains(&pin[1]));
            assert_eq!(pin[0], a % 4 + 1);
            assert_eq!(pin[1], b % 4 + 1);
        }
    }
}

#[test]
fn pin_from_known_bytes() {
    assert_eq!(generate_pin([0x00, 0x00]), [1, 1]);
    assert_eq!(generate_pin([0xff, 0x06]), [4, 3]);
    assert_eq!(generate_pin([0x05, 0x0a]), [2, 3]);
}

#[test]
fn fresh_vault_has_no_attempts() {
    let v: Vault<pin_vault::vault::Unbound> = Default::default();
    assert_eq!(v.failed_attempts(), 0);
}

#[test]
fn bind_starts_counter_at_zero() {
    let v = locked([3, 4]);
    assert_eq!(v.failed_attempts(), 0);
}

#[test]
fn correct_guess_unlocks_with_secret() {
    let v = locked([2, 3]);
    let u = match v.unlock([2, 3]) {
        Ok(u) => u,
        Err(_) => panic!("correct PIN refused"),
    };
    assert_eq!(u.read_secret(), PROVISIONED_SECRET);
    assert_eq!(u.read_secret(), "whaaat la policia noooo");
    assert_eq!(u.failed_attempts(), 0);
}

#[test]
fn correct_guess_keeps_attempt_count() {
    let mut v = locked([4, 1]);
    for guess in [[1, 4], [4, 2]] {
        v = match v.unlock(guess) {
            Ok(_) => panic!("wrong PIN accepted"),
            Err(l) => l,
        };
    }
    match v.unlock([4, 1]) {
        Ok(u) => assert_eq!(u.failed_attempts(), 2),
        Err(_) => panic!("correct PIN refused"),
    }
}

#[test]
fn wrong_guesses_are_never_capped() {
    let mut v = locked([1, 2]);
    for n in 1..=1000u32 {
        v = match v.unlock([2, 1]) {
            Ok(_) => panic!("wrong PIN accepted"),
            Err(l) => l,
        };
        assert_eq!(v.failed_attempts(), n);
    }
    assert!(v.matches([1, 2]));
    assert!(v.unlock([1, 2]).is_ok());
}

#[test]
fn matches_does_not_spend_an_attempt() {
    let v = locked([3, 3]);
    assert!(v.matches([3, 3]));
    assert!(!v.matches([3, 2]));
    assert_eq!(v.failed_attempts(), 0);
}

#[test]
fn read_command_line_feed() {
    assert_eq!(read_command(b"g23\n"), Some(([b'g', b'2', b'3'], 4)));
}

#[test]
fn read_command_cr_lf() {
    assert_eq!(read_command(b"g23\r\n"), Some(([b'g', b'2', b'3'], 5)));
}

#[test]
fn read_command_drops_extra_bytes() {
    assert_eq!(read_command(b"gabcdef\n"), Some(([b'g', b'a', b'b'], 8)));
    assert_eq!(read_command(b"gabcdef\nq\n"), Some(([b'g', b'a', b'b'], 8)));
}

#[test]
fn read_command_pads_short_lines() {
    assert_eq!(read_command(b"x\n"), Some(([b'x', 0, 0], 2)));
    assert_eq!(read_command(b"\n"), Some(([0, 0, 0], 1)));
    assert_eq!(read_command(b"q\r"), None);
    assert_eq!(read_command(b"q\r\0"), Some(([b'q', 0, 0], 3)));
}

#[test]
fn read_command_cr_swallows_any_next_byte() {
    assert_eq!(read_command(b"g12\rq\n"), Some(([b'g', b'1', b'2'], 5)));
}

#[test]
fn read_command_needs_a_complete_line() {
    assert_eq!(read_command(b""), None);
    assert_eq!(read_command(b"g23"), None);
    assert_eq!(read_command(b"g23\r"), None);
}

#[test]
fn reader_resynchronises_after_long_line() {
    let mut reader = CommandReader::new();
    let mut out = Vec::new();
    for &b in b"gabcdef\nq\r\nu\n" {
        if let Some(cmd) = reader.push(b) {
            out.push(cmd);
        }
    }
    assert_eq!(out, vec![[b'g', b'a', b'b'], [b'q', 0, 0], [b'u', 0, 0]]);
}

#[test]
fn blink_schedule_for_one_one() {
    let mut expected = blink();
    expected.push(LedStep::Wait(PAUSE_CYCLES));
    expected.extend(blink());
    assert_eq!(blink_schedule([1, 1]), expected);
}

#[test]
fn blink_schedule_counts_digits() {
    let steps = blink_schedule([4, 2]);
    assert_eq!(steps.len(), 4 * 4 + 1 + 4 * 2);
    assert_eq!(steps.iter().filter(|s| **s == LedStep::Toggle).count(), 2 * 6);
    assert_eq!(steps[16], LedStep::Wait(PAUSE_CYCLES));
}

#[test]
fn guess_digits_subtract_ascii_zero() {
    assert_eq!(guess_digits([b'g', b'2', b'3']), [2, 3]);
    assert_eq!(guess_digits([b'g', b'0', b'0']), [0, 0]);
    assert_eq!(guess_digits([b'g', b'/', 0]), [255, 208]);
}

#[test]
fn reply_lines_end_in_cr_lf() {
    assert_eq!(line_bytes(PIN_CORRECT), b"pin correct\r\n".to_vec());
    assert_eq!(line_bytes(PIN_INCORRECT), b"pin incorrect\r\n".to_vec());
    assert_eq!(line_bytes(""), b"\r\n".to_vec());
}

#[test]
fn full_session_with_fixed_random_bytes() {
    let (s, actions) = drive(Session::new(), b"x\n", [0x00, 0x00]);
    let mut expected = blink();
    expected.push(LedStep::Wait(PAUSE_CYCLES));
    expected.extend(blink());
    assert_eq!(actions, vec![Action::Blink(expected)]);
    assert_eq!(failed_attempts_of(&s), Some(0));

    let (s, actions) = drive(s, b"g11\n", [0, 0]);
    assert_eq!(actions, vec![Action::Reply(PIN_CORRECT)]);
    assert!(matches!(s, Session::Serving(_)));

    let (s, actions) = drive(s, b"q\n", [0, 0]);
    assert_eq!(actions, vec![Action::Reply(PROVISIONED_SECRET)]);
    assert_eq!(line_bytes(PROVISIONED_SECRET), b"whaaat la policia noooo\r\n".to_vec());

    let (s, actions) = drive(s, b"u\n", [0, 0]);
    assert!(actions.is_empty());
    assert!(matches!(s, Session::AwaitingStart(_)));

    let (s, actions) = drive(s, b"x\n", [0x02, 0x03]);
    assert_eq!(actions.len(), 1);
    assert_eq!(failed_attempts_of(&s), Some(0));
}

#[test]
fn wrong_guess_against_one_one() {
    let (s, _) = drive(Session::new(), b"x\n", [0x00, 0x00]);
    let (s, actions) = drive(s, b"g00\n", [0, 0]);
    assert_eq!(actions, vec![Action::Reply(PIN_INCORRECT)]);
    assert_eq!(failed_attempts_of(&s), Some(1));
    let (s, actions) = drive(s, b"g12\r\ng11\n", [0, 0]);
    assert_eq!(actions, vec![Action::Reply(PIN_INCORRECT), Action::Reply(PIN_CORRECT)]);
    assert!(matches!(s, Session::Serving(_)));
}

#[test]
fn unexpected_commands_are_ignored() {
    let (s, actions) = drive(Session::new(), b"g11\nq\nu\n", [0, 0]);
    assert!(actions.is_empty());
    assert!(matches!(s, Session::AwaitingStart(_)));
    let (s, _) = drive(s, b"x\n", [0, 0]);
    let (s, actions) = drive(s, b"x\nq\nu\n", [0, 0]);
    assert!(actions.is_empty());
    assert_eq!(failed_attempts_of(&s), Some(0));
    let (s, _) = drive(s, b"g11\n", [0, 0]);
    let (s, actions) = drive(s, b"x\ng11\nq\nq\n", [0, 0]);
    assert_eq!(actions, vec![Action::Reply(PROVISIONED_SECRET), Action::Reply(PROVISIONED_SECRET)]);
    assert!(matches!(s, Session::Serving(_)));
}

#[test]
fn random_bytes_outside_binding_change_nothing() {
    let (s, a) = Session::new().on_random([1, 2]);
    assert_eq!(a, Action::Nothing);
    assert!(matches!(s, Session::AwaitingStart(_)));
}
