//! Checks on what the user types.

use crate::text::all_digits;
use vstd::prelude::*;

verus! {

/// Why an input is no code of the wanted length.
#[derive(Clone, Copy, Debug, PartialEq, Eq, Structural)]
pub enum InputError {
    /// The input has more or fewer characters than wanted.
    WrongLength,
    /// The input has the wanted length, but not every character is a digit.
    NotDigits,
}

/// Whether `input` is written with exactly `length` digits.
pub open spec fn is_code(input: Seq<char>, length: nat) -> bool {
    input.len() == length && all_digits(input)
}

/// Accepts an input that is written with exactly `length` digits, as pairing
/// codes and ports are. On a refusal the user is asked again.
pub fn validate_digits(input: &str, length: usize) -> (r: Result<(), InputError>)
    ensures
        r is Ok <==> is_code(input@, length as nat),
        r == Err::<(), InputError>(InputError::WrongLength) <==> input@.len() != length,
        r == Err::<(), InputError>(InputError::NotDigits) <==> input@.len() == length
            && !all_digits(input@),
{
    let mut count: usize = 0;
    let mut digits = true;
    for c in it: input.chars()
        invariant
            it.seq() == input@,
            count == it.index(),
            count <= length,
            digits == all_digits(input@.take(it.index())),
    {
        let ghost k = it.index();
        proof {
            assert(input@.take(k + 1) =~= input@.take(k).push(c));
            if all_digits(input@.take(k + 1)) {
                assert forall|i: int| 0 <= i < k implies '0' <= #[trigger] input@.take(k)[i]
                    && input@.take(k)[i] <= '9' by {
                    assert(input@.take(k + 1)[i] == input@.take(k)[i]);
                }
                assert(input@.take(k + 1)[k] == c);
            }
        }
        if count == length {
            return Err(InputError::WrongLength);
        }
        count += 1;
        if !('0' <= c && c <= '9') {
            digits = false;
        }
    }
    proof {
        assert(input@.take(input@.len() as int) =~= input@);
    }
    if count != length {
        Err(InputError::WrongLength)
    } else if digits {
        Ok(())
    } else {
        Err(InputError::NotDigits)
    }
}

} // verus!
