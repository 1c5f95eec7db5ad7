use vstd::prelude::*;

verus! {

/// Busy-wait length of the lit part of a blink (about 300 ms at 32 MHz).
pub const ON_CYCLES: u32 = 9_600_000;

/// Busy-wait length of the dark part of a blink (about 200 ms at 32 MHz).
pub const OFF_CYCLES: u32 = 6_400_000;

/// Busy-wait length of the pause between the two digits (about 600 ms at 32 MHz).
pub const PAUSE_CYCLES: u32 = 19_200_000;

/// One step of driving the indicator.
#[derive(PartialEq, Eq, Structural, Clone, Copy, Debug)]
pub enum LedStep {
    /// Busy-wait for this many clock cycles.
    Wait(u32),
    /// Flip the indicator.
    Toggle,
}

/// One blink: wait, switch on, wait, switch off.
pub open spec fn one_blink() -> Seq<LedStep> {
    seq![LedStep::Wait(ON_CYCLES), LedStep::Toggle, LedStep::Wait(OFF_CYCLES), LedStep::Toggle]
}

/// `n` blinks in a row.
pub open spec fn blinks(n: nat) -> Seq<LedStep>
    decreases n,
{
    if n == 0 {
        Seq::empty()
    } else {
        blinks((n - 1) as nat) + one_blink()
    }
}

/// The pattern that shows a PIN: one blink per unit of the first digit, a
/// pause, then one blink per unit of the second digit.
pub open spec fn reveal_pattern(pin: Seq<u8>) -> Seq<LedStep> {
    blinks(pin[0] as nat) + seq![LedStep::Wait(PAUSE_CYCLES)] + blinks(pin[1] as nat)
}

/// Appends `n` blinks to `steps`.
fn push_blinks(steps: &mut Vec<LedStep>, n: u8)
    ensures
        final(steps)@ == old(steps)@ + blinks(n as nat),
{
    let mut k: u8 = 0;
    while k < n
        invariant
            k <= n,
            steps@ == old(steps)@ + blinks(k as nat),
        decreases n - k,
    {
        steps.push(LedStep::Wait(ON_CYCLES));
        steps.push(LedStep::Toggle);
        steps.push(LedStep::Wait(OFF_CYCLES));
        steps.push(LedStep::Toggle);
        k = k + 1;
        proof {
            assert(steps@ =~= old(steps)@ + blinks(k as nat));
        }
    }
}

/// The indicator steps that reveal `pin`.
pub fn blink_schedule(pin: [u8; 2]) -> (steps: Vec<LedStep>)
    ensures
        steps@ == reveal_pattern(pin@),
{
    let mut steps: Vec<LedStep> = Vec::new();
    push_blinks(&mut steps, pin[0]);
    steps.push(LedStep::Wait(PAUSE_CYCLES));
    push_blinks(&mut steps, pin[1]);
    proof {
        assert(steps@ =~= reveal_pattern(pin@));
    }
    steps
}

} // verus!
