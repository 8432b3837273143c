//! Random password generation from a fixed alphabet.
//!
//! The randomness itself comes from the operating system through an outside
//! generator and nothing is promised of the drawn bytes; the mapping from
//! bytes to password characters is verified, so every generated password has
//! exactly the requested length and draws every character from the fixed
//! alphabet.

use vstd::prelude::*;
use vstd::string::{StrSliceExecFns, StringExecFns};

use crate::errors::{CMError, CustomError};
use rand_chacha::rand_core::{SeedableRng, TryRng};

verus! {

/// The longest password the generator will produce.
pub const MAX_PASSLEN: usize = 255;

/// The password length used when the caller does not request one.
pub const DEFAULT_PASSLEN: usize = 16;

/// The fixed password alphabet: upper- and lower-case letters, digits, and a
/// fixed punctuation set.
pub open spec fn pass_alphabet() -> Seq<char> {
    "ABCDEFGHIJKLMNOPQRSTUVWXYZabcdefghijklmnopqrstuvwxyz1234567890!@#$%^&*()"@
}

/// The length `get_random_pass` aims for, given the caller's request.
pub open spec fn requested_len(passlen: Option<usize>) -> usize {
    match passlen {
        Some(n) => n,
        None => DEFAULT_PASSLEN,
    }
}

/// Relies on `rand_chacha::ChaCha20Rng`, seeded from the operating system
/// through `rand::rngs::SysRng`, to fill a fresh buffer with `n` random
/// bytes.  Nothing is promised of the bytes beyond their number.
#[verifier::external_body]
fn random_bytes(n: usize) -> (r: Option<Vec<u8>>)
    ensures
        r matches Some(b) ==> b@.len() == n as int,
{
    let mut rng = match rand_chacha::ChaCha20Rng::try_from_rng(&mut rand::rngs::SysRng) {
        Ok(r) => r,
        Err(_) => return None,
    };
    let mut buf = vec![0u8; n];
    let _ = rng.try_fill_bytes(&mut buf);
    Some(buf)
}

/// Generate a random password of the requested length (16 when none is
/// requested), every character drawn from the fixed alphabet.  Fails when
/// the requested length exceeds the maximum of 255, or when the operating
/// system's randomness is unavailable.
pub fn get_random_pass(passlen: Option<usize>) -> (r: Result<String, CMError>)
    ensures
        r matches Ok(p) ==> requested_len(passlen) <= MAX_PASSLEN && p@.len() == requested_len(
            passlen,
        ) as int && forall|i: int| 0 <= i < p@.len() ==> pass_alphabet().contains(#[trigger] p@[i]),
        requested_len(passlen) > MAX_PASSLEN ==> r is Err,
        r matches Err(e) ==> e is Custom,
{
    let len: usize = match passlen {
        Some(n) => n,
        None => DEFAULT_PASSLEN,
    };
    if len > MAX_PASSLEN {
        return Err(
            CMError::Custom(
                CustomError::new(
                    "the requested password length is above the upper limit of 255 characters",
                ),
            ),
        );
    }
    let bytes = match random_bytes(len) {
        Some(b) => b,
        None => return Err(
            CMError::Custom(CustomError::new("could not seed the random generator")),
        ),
    };
    let alphabet = "ABCDEFGHIJKLMNOPQRSTUVWXYZabcdefghijklmnopqrstuvwxyz1234567890!@#$%^&*()";
    proof {
        reveal_strlit("ABCDEFGHIJKLMNOPQRSTUVWXYZabcdefghijklmnopqrstuvwxyz1234567890!@#$%^&*()");
    }
    let mut pass = String::new();
    let mut i: usize = 0;
    while i < len
        invariant
            i <= len,
            bytes@.len() == len as int,
            alphabet@ == pass_alphabet(),
            alphabet@.len() == 72,
            pass@.len() == i as int,
            forall|j: int| 0 <= j < i as int ==> pass_alphabet().contains(#[trigger] pass@[j]),
        decreases len - i,
    {
        let idx: usize = (bytes[i] as usize) % 72;
        let ch: &str = alphabet.substring_char(idx, idx + 1);
        proof {
            assert(ch@[0] == pass_alphabet()[idx as int]);
            assert(pass_alphabet().contains(pass_alphabet()[idx as int]));
        }
        pass.append(ch);
        i += 1;
    }
    Ok(pass)
}

} // verus!
