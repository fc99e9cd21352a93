//! The service Noise static public key that the example descriptor pins.

use vstd::prelude::*;

use crate::inner_context::NoisePublicKey;

verus! {

/// The key bytes, each raised by the matching byte of `KEY_MASK`.
const MASKED_KEY: [u8; 32] = [39, 90, 137, 140, 174, 35, 66, 162, 168, 151, 116, 155, 149, 196, 207, 205, 134, 201, 206, 159, 121, 70, 9, 166, 29, 37, 82, 34, 124, 11, 184, 134];

/// What each byte of `MASKED_KEY` was raised by.
const KEY_MASK: [u8; 32] = [30, 81, 128, 131, 165, 26, 57, 153, 159, 142, 107, 146, 140, 187, 198, 196, 125, 192, 197, 150, 112, 61, 0, 157, 20, 28, 73, 25, 115, 2, 175, 125];

/// The service Noise static public key: thirty-two bytes of nine.
pub open spec fn service_static_public_key_spec() -> Seq<u8> {
    Seq::new(32, |_i: int| 9u8)
}

/// Reconstructs the masked service Noise static public key.
///
/// This is obfuscation, not secrecy: it keeps the public key from appearing
/// as its exact 32-byte value in ordinary static binary scans, while still
/// returning the key needed for `NK1` remote-static pinning.
pub fn obfuscated_service_static_public_key() -> (key: NoisePublicKey)
    ensures
        key@ == service_static_public_key_spec(),
{
    let masked = MASKED_KEY;
    let mask = KEY_MASK;
    assert(forall|j: int| 0 <= j < 32 ==> masked@[j] == mask@[j] + 9);
    let mut key = [0u8; 32];
    let mut i: usize = 0;
    while i < 32
        invariant
            i <= 32,
            forall|j: int| 0 <= j < 32 ==> masked@[j] == mask@[j] + 9,
            forall|j: int| 0 <= j < i ==> key@[j] == 9,
        decreases 32 - i,
    {
        key[i] = masked[i] - mask[i];
        i = i + 1;
    }
    assert(key@ =~= service_static_public_key_spec());
    key
}

} // verus!
