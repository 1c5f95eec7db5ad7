use vstd::prelude::*;

verus! {

/// Number of distinct values a PIN digit can take.
pub const DIGIT_RANGE: u8 = 4;

/// The digit derived from one raw random byte: `(raw mod 4) + 1`.
pub open spec fn digit_of(raw: u8) -> u8 {
    (raw % DIGIT_RANGE + 1) as u8
}

/// Derives a two-digit PIN from two bytes drawn from a cryptographically
/// secure random source. Each digit is `(raw mod 4) + 1`; since 256 is a
/// multiple of 4, uniform bytes give digits uniform over `{1, 2, 3, 4}`.
pub fn generate_pin(raw: [u8; 2]) -> (pin: [u8; 2])
    ensures
        pin[0] == digit_of(raw[0]),
        pin[1] == digit_of(raw[1]),
        1 <= pin[0] <= 4,
        1 <= pin[1] <= 4,
{
    let mut pin: [u8; 2] = [0u8; 2];
    pin[0] = raw[0] % DIGIT_RANGE + 1;
    pin[1] = raw[1] % DIGIT_RANGE + 1;
    pin
}

} // verus!
