use core::marker::PhantomData;
use vstd::prelude::*;

verus! {

/// The secret that a vault reveals once it is unlocked.
pub const PROVISIONED_SECRET: &'static str = "whaaat la policia noooo";

/// Lifecycle phase of a vault.
#[derive(PartialEq, Eq, Structural, Clone, Copy, Debug)]
pub enum Phase {
    Unbound,
    Locked,
    Unlocked,
}

/// Marker for a vault phase; each phase is a distinct type so that an
/// operation can only be called on a vault in the phase that allows it.
pub trait VaultState {
    spec fn phase() -> Phase;
}

/// No PIN assigned yet.
pub struct Unbound;

/// PIN assigned, secret withheld.
pub struct Locked;

/// Secret revealed.
pub struct Unlocked;

impl VaultState for Unbound {
    open spec fn phase() -> Phase {
        Phase::Unbound
    }
}

impl VaultState for Locked {
    open spec fn phase() -> Phase {
        Phase::Locked
    }
}

impl VaultState for Unlocked {
    open spec fn phase() -> Phase {
        Phase::Unlocked
    }
}

/// What a vault holds, as mathematical values.
pub struct VaultModel {
    pub pin: Seq<u8>,
    pub failed_attempts: nat,
    pub secret: Seq<char>,
}

/// A two-digit PIN whose digits both lie in `[1, 4]`.
pub open spec fn valid_pin(pin: Seq<u8>) -> bool {
    &&& pin.len() == 2
    &&& 1 <= pin[0] <= 4
    &&& 1 <= pin[1] <= 4
}

/// Whether `model` is a well-formed vault in phase `phase`: a PIN only once
/// bound, a secret only once unlocked.
pub open spec fn model_in_phase(model: VaultModel, phase: Phase) -> bool {
    &&& model.pin.len() == 2
    &&& model.failed_attempts <= u32::MAX
    &&& (phase == Phase::Unbound ==> model.pin == seq![0u8, 0u8] && model.failed_attempts == 0)
    &&& (phase != Phase::Unbound ==> valid_pin(model.pin))
    &&& (phase == Phase::Unlocked ==> model.secret == PROVISIONED_SECRET@)
    &&& (phase != Phase::Unlocked ==> model.secret.len() == 0)
}

/// The vault that one guess at the PIN leads to from `model`: on a match the
/// secret is revealed, otherwise the attempt counter goes up by one. The PIN
/// never changes, and the counter is never consulted to refuse a guess.
pub open spec fn after_guess(model: VaultModel, guess: Seq<u8>) -> VaultModel {
    if guess == model.pin {
        VaultModel {
            pin: model.pin,
            failed_attempts: model.failed_attempts,
            secret: PROVISIONED_SECRET@,
        }
    } else {
        VaultModel {
            pin: model.pin,
            failed_attempts: model.failed_attempts + 1,
            secret: model.secret,
        }
    }
}

/// The vault reached from `model` by the guesses in order.
pub open spec fn after_guesses(model: VaultModel, guesses: Seq<Seq<u8>>) -> VaultModel
    decreases guesses.len(),
{
    if guesses.len() == 0 {
        model
    } else {
        after_guesses(after_guess(model, guesses[0]), guesses.drop_first())
    }
}

/// Any number of consecutive wrong guesses leaves the PIN and the secret as
/// they were and raises the attempt counter by exactly the number of
/// guesses: no cap is ever enforced.
pub proof fn lemma_wrong_guesses_only_count(model: VaultModel, guesses: Seq<Seq<u8>>)
    requires
        forall|i: int| 0 <= i < guesses.len() ==> guesses[i] != model.pin,
    ensures
        after_guesses(model, guesses).pin == model.pin,
        after_guesses(model, guesses).failed_attempts == model.failed_attempts + guesses.len(),
        after_guesses(model, guesses).secret == model.secret,
    decreases guesses.len(),
{
    if guesses.len() > 0 {
        let next = after_guess(model, guesses[0]);
        let rest = guesses.drop_first();
        assert forall|i: int| 0 <= i < rest.len() implies rest[i] != next.pin by {
            assert(rest[i] == guesses[i + 1]);
        }
        lemma_wrong_guesses_only_count(next, rest);
    }
}

/// A PIN-gated vault whose phase is carried by its type parameter. Every
/// transition consumes the vault it starts from.
pub struct Vault<State: VaultState> {
    pin: [u8; 2],
    failed_attempts: u32,
    secret: &'static str,
    state: PhantomData<State>,
}

impl<State: VaultState> View for Vault<State> {
    type V = VaultModel;

    closed spec fn view(&self) -> VaultModel {
        VaultModel {
            pin: self.pin@,
            failed_attempts: self.failed_attempts as nat,
            secret: self.secret@,
        }
    }
}

impl<State: VaultState> Vault<State> {
    #[verifier::type_invariant]
    closed spec fn well_formed(self) -> bool {
        model_in_phase(self@, State::phase())
    }

    /// Number of wrong guesses since the vault was bound.
    pub fn failed_attempts(&self) -> (r: u32)
        ensures
            r == self@.failed_attempts,
    {
        self.failed_attempts
    }
}

impl Vault<Unbound> {
    /// A fresh vault with no PIN, no failed attempts and no secret.
    pub fn new() -> (v: Vault<Unbound>)
        ensures
            v@.pin == seq![0u8, 0u8],
            v@.failed_attempts == 0,
            v@.secret.len() == 0,
    {
        let pin: [u8; 2] = [0u8; 2];
        proof {
            reveal_strlit("");
            assert(pin@ =~= seq![0u8, 0u8]);
        }
        Vault { pin, failed_attempts: 0, secret: "", state: PhantomData }
    }

    /// Assigns the PIN; the attempt counter starts at zero and the secret
    /// stays withheld.
    pub fn bind(self, pin: [u8; 2]) -> (v: Vault<Locked>)
        requires
            valid_pin(pin@),
        ensures
            v@.pin == pin@,
            v@.failed_attempts == 0,
            v@.secret.len() == 0,
    {
        proof {
            reveal_strlit("");
        }
        Vault { pin, failed_attempts: 0, secret: "", state: PhantomData }
    }
}

impl Vault<Locked> {
    /// Compares `guess` with the PIN byte for byte, consuming the locked
    /// vault. A match yields the unlocked vault holding the provisioned
    /// secret; a mismatch yields the locked vault with one more failed
    /// attempt. There is no limit on the number of attempts.
    pub fn unlock(self, guess: [u8; 2]) -> (r: Result<Vault<Unlocked>, Vault<Locked>>)
        requires
            guess@ != self@.pin ==> self@.failed_attempts < u32::MAX,
        ensures
            r is Ok <==> guess@ == self@.pin,
            r matches Ok(v) ==> v@ == after_guess(self@, guess@),
            r matches Err(v) ==> v@ == after_guess(self@, guess@),
    {
        proof {
            use_type_invariant(&self);
        }
        if guess[0] == self.pin[0] && guess[1] == self.pin[1] {
            proof {
                assert(guess@ =~= self@.pin);
            }
            Ok(Vault {
                pin: self.pin,
                failed_attempts: self.failed_attempts,
                secret: PROVISIONED_SECRET,
                state: PhantomData,
            })
        } else {
            Err(Vault {
                pin: self.pin,
                failed_attempts: self.failed_attempts + 1,
                secret: self.secret,
                state: PhantomData,
            })
        }
    }
}

impl Vault<Locked> {
    /// Whether `guess` is the PIN, without spending an attempt.
    pub fn matches(&self, guess: [u8; 2]) -> (r: bool)
        ensures
            r == (guess@ == self@.pin),
    {
        proof {
            use_type_invariant(self);
        }
        let r = guess[0] == self.pin[0] && guess[1] == self.pin[1];
        proof {
            if r {
                assert(guess@ =~= self@.pin);
            }
        }
        r
    }
}

impl Vault<Unlocked> {
    /// The secret; only an unlocked vault, which only a matching guess
    /// produces, gives access to it.
    pub fn read_secret(&self) -> (r: &'static str)
        ensures
            r@ == self@.secret,
            r@ == PROVISIONED_SECRET@,
    {
        proof {
            use_type_invariant(self);
        }
        self.secret
    }
}

impl Default for Vault<Unbound> {
    fn default() -> (v: Self)
        ensures
            v@.pin == seq![0u8, 0u8],
            v@.failed_attempts == 0,
            v@.secret.len() == 0,
    {
        Vault::new()
    }
}

} // verus!
