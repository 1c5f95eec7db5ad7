use vstd::prelude::*;
use vstd::string::StringSliceAdditionalSpecFns;

use crate::command::{CR, LF};
use crate::indicator::{blink_schedule, reveal_pattern, LedStep};
use crate::pin::{digit_of, generate_pin};
use crate::vault::{after_guess, Locked, Unbound, Unlocked, Vault};

verus! {

/// Code of the command that starts a session.
pub const CMD_START: u8 = 0x78;

/// Code of a PIN guess.
pub const CMD_GUESS: u8 = 0x67;

/// Code of the command that asks for the secret.
pub const CMD_QUERY: u8 = 0x71;

/// Code of the command that ends a session.
pub const CMD_END: u8 = 0x75;

/// Reply to a matching guess.
pub const PIN_CORRECT: &'static str = "pin correct";

/// Reply to a wrong guess.
pub const PIN_INCORRECT: &'static str = "pin incorrect";

/// The digit an argument byte of a guess stands for: the byte minus the
/// code of `'0'`, wrapping around below zero. Bytes that are not digits are
/// not rejected; they give values that match no PIN digit unless they wrap
/// onto one.
pub open spec fn digit_value(b: u8) -> u8 {
    ((b as int - 48) % 256) as u8
}

/// The guess that a command record carries in its argument bytes.
pub open spec fn guess_of(cmd: Seq<u8>) -> Seq<u8> {
    seq![digit_value(cmd[1]), digit_value(cmd[2])]
}

/// Reads the two guessed digits out of a command record.
pub fn guess_digits(cmd: [u8; 3]) -> (guess: [u8; 2])
    ensures
        guess@ == guess_of(cmd@),
{
    let guess: [u8; 2] = [cmd[1].wrapping_sub(48), cmd[2].wrapping_sub(48)];
    proof {
        assert(guess@ =~= guess_of(cmd@));
    }
    guess
}

/// The bytes sent for one reply line: the text followed by CR LF.
pub fn line_bytes(text: &str) -> (r: Vec<u8>)
    ensures
        r@ == text.spec_bytes() + seq![CR, LF],
{
    let bytes = text.as_bytes();
    let mut r: Vec<u8> = Vec::new();
    let mut i: usize = 0;
    while i < bytes.len()
        invariant
            i <= bytes@.len(),
            bytes@ == text.spec_bytes(),
            r@ == bytes@.take(i as int),
        decreases bytes@.len() - i,
    {
        r.push(bytes[i]);
        i = i + 1;
        proof {
            assert(r@ =~= bytes@.take(i as int));
        }
    }
    r.push(CR);
    r.push(LF);
    proof {
        assert(r@ =~= text.spec_bytes() + seq![CR, LF]);
    }
    r
}

/// What the device has to do after a step of the session.
#[derive(PartialEq, Eq, Clone, Debug)]
pub enum Action {
    /// Nothing to do; read the next command.
    Nothing,
    /// Fill two bytes from the secure random source and hand them to
    /// `Session::on_random`. A failing source halts the device.
    DrawRandom,
    /// Drive the indicator through these steps.
    Blink(Vec<LedStep>),
    /// Send this text as one line (see `line_bytes`).
    Reply(&'static str),
    /// Stop for good: the attempt counter cannot count another wrong guess.
    Halt,
}

/// The session controller: which vault the device holds and what it waits for.
pub enum Session {
    /// Waiting for a start command.
    AwaitingStart(Vault<Unbound>),
    /// Start command seen; waiting for random bytes to derive the PIN from.
    Binding(Vault<Unbound>),
    /// PIN shown; waiting for guesses.
    Guessing(Vault<Locked>),
    /// Unlocked; serving secret queries until the session ends.
    Serving(Vault<Unlocked>),
    /// Stopped after the attempt counter ran out.
    Halted,
}

/// A vault as it is right after creation.
pub open spec fn is_fresh<S: crate::vault::VaultState>(v: Vault<S>) -> bool {
    &&& v@.pin == seq![0u8, 0u8]
    &&& v@.failed_attempts == 0
    &&& v@.secret.len() == 0
}

impl Session {
    /// A session waiting for its start command, with a fresh vault.
    pub fn new() -> (s: Session)
        ensures
            s matches Session::AwaitingStart(v) && is_fresh(v),
    {
        Session::AwaitingStart(Vault::new())
    }

    /// Takes one command record. Commands that the current phase does not
    /// expect are dropped without a reply.
    pub fn on_command(self, cmd: [u8; 3]) -> (r: (Session, Action))
        ensures
            match self {
                Session::AwaitingStart(v) => if cmd[0] == CMD_START {
                    &&& r.0 matches Session::Binding(w) && w@ == v@
                    &&& r.1 == Action::DrawRandom
                } else {
                    r.0 == self && r.1 == Action::Nothing
                },
                Session::Guessing(v) => if cmd[0] != CMD_GUESS {
                    r.0 == self && r.1 == Action::Nothing
                } else if guess_of(cmd@) == v@.pin {
                    &&& r.0 matches Session::Serving(w) && w@ == after_guess(v@, guess_of(cmd@))
                    &&& r.1 == Action::Reply(PIN_CORRECT)
                } else if v@.failed_attempts < u32::MAX {
                    &&& r.0 matches Session::Guessing(w) && w@ == after_guess(v@, guess_of(cmd@))
                    &&& r.1 == Action::Reply(PIN_INCORRECT)
                } else {
                    r.0 matches Session::Halted && r.1 == Action::Halt
                },
                Session::Serving(v) => if cmd[0] == CMD_QUERY {
                    &&& r.0 == self
                    &&& r.1 matches Action::Reply(s) && s@ == v@.secret
                } else if cmd[0] == CMD_END {
                    r.0 matches Session::AwaitingStart(w) && is_fresh(w) && r.1 == Action::Nothing
                } else {
                    r.0 == self && r.1 == Action::Nothing
                },
                _ => r.0 == self && r.1 == Action::Nothing,
            },
    {
        match self {
            Session::AwaitingStart(v) => {
                if cmd[0] == CMD_START {
                    (Session::Binding(v), Action::DrawRandom)
                } else {
                    (Session::AwaitingStart(v), Action::Nothing)
                }
            },
            Session::Guessing(v) => {
                if cmd[0] != CMD_GUESS {
                    return (Session::Guessing(v), Action::Nothing);
                }
                let guess = guess_digits(cmd);
                if v.failed_attempts() == u32::MAX && !v.matches(guess) {
                    return (Session::Halted, Action::Halt);
                }
                match v.unlock(guess) {
                    Ok(w) => (Session::Serving(w), Action::Reply(PIN_CORRECT)),
                    Err(w) => (Session::Guessing(w), Action::Reply(PIN_INCORRECT)),
                }
            },
            Session::Serving(v) => {
                if cmd[0] == CMD_QUERY {
                    let secret = v.read_secret();
                    (Session::Serving(v), Action::Reply(secret))
                } else if cmd[0] == CMD_END {
                    (Session::new(), Action::Nothing)
                } else {
                    (Session::Serving(v), Action::Nothing)
                }
            },
            other => (other, Action::Nothing),
        }
    }

    /// Takes the two random bytes asked for by `Action::DrawRandom`: derives
    /// the PIN, binds the vault and asks for the PIN to be shown.
    pub fn on_random(self, raw: [u8; 2]) -> (r: (Session, Action))
        ensures
            match self {
                Session::Binding(v) => {
                    &&& r.0 matches Session::Guessing(w) && {
                        &&& w@.pin == seq![digit_of(raw[0]), digit_of(raw[1])]
                        &&& w@.failed_attempts == 0
                        &&& w@.secret.len() == 0
                    }
                    &&& r.1 matches Action::Blink(steps) && steps@ == reveal_pattern(
                        seq![digit_of(raw[0]), digit_of(raw[1])],
                    )
                },
                _ => r.0 == self && r.1 == Action::Nothing,
            },
    {
        match self {
            Session::Binding(v) => {
                let pin = generate_pin(raw);
                proof {
                    assert(pin@ =~= seq![digit_of(raw[0]), digit_of(raw[1])]);
                }
                let w = v.bind(pin);
                (Session::Guessing(w), Action::Blink(blink_schedule(pin)))
            },
            other => (other, Action::Nothing),
        }
    }
}

} // verus!
