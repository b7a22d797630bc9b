//! Input validation shared by the instruction modules: trimming, length
//! bounds and the currency-code format.

use vstd::prelude::*;

use crate::errors::P2PExchangeError;

verus! {

/// The characters of a string with its leading and trailing whitespace
/// removed. Which characters count as whitespace is Unicode's affair; the
/// library only names the result.
pub uninterp spec fn trim_of(s: Seq<char>) -> Seq<char>;

/// Relies on str::trim: returns the input without leading and trailing
/// whitespace, a subslice that depends on the characters alone.
#[verifier::external_body]
fn trim_str(input: &str) -> (r: String)
    ensures
        r@ == trim_of(input@),
        r@.len() <= input@.len(),
{
    input.trim().to_owned()
}

/// True of a character in `'A'..='Z'`.
pub open spec fn is_ascii_uppercase_char(c: char) -> bool {
    ('A' as u32) <= (c as u32) && (c as u32) <= ('Z' as u32)
}

/// True of a well-formed fiat currency code: exactly three uppercase ASCII
/// letters.
pub open spec fn valid_currency_code(s: Seq<char>) -> bool {
    &&& s.len() == 3
    &&& forall|i: int| 0 <= i < s.len() ==> is_ascii_uppercase_char(#[trigger] s[i])
}

/// Decides `valid_currency_code` for a string slice.
pub fn is_valid_currency_code(s: &str) -> (r: bool)
    ensures
        r == valid_currency_code(s@),
{
    let n = s.unicode_len();
    if n != 3 {
        return false;
    }
    let mut i: usize = 0;
    while i < 3
        invariant
            0 <= i <= 3,
            n == s@.len() == 3,
            forall|j: int| 0 <= j < i ==> is_ascii_uppercase_char(#[trigger] s@[j]),
        decreases 3 - i,
    {
        let c = s.get_char(i);
        let code = c as u32;
        if code < 'A' as u32 || code > 'Z' as u32 {
            return false;
        }
        i = i + 1;
    }
    true
}

/// Trims the input and rejects it when nothing but whitespace is left.
pub fn validate_and_trim_string(input: &str) -> (r: Result<String, P2PExchangeError>)
    ensures
        match r {
            Ok(s) => {
                &&& s@ == trim_of(input@)
                &&& s@.len() > 0
            },
            Err(e) => {
                &&& e == P2PExchangeError::InputTooLong
                &&& trim_of(input@).len() == 0
            },
        },
{
    let trimmed = trim_str(input);
    if trimmed.as_str().is_empty() {
        return Err(P2PExchangeError::InputTooLong);
    }
    Ok(trimmed)
}

/// Rejects a string longer than `max_length` characters.
pub fn validate_string_length(input: &str, max_length: usize) -> (r: Result<
    (),
    P2PExchangeError,
>)
    ensures
        match r {
            Ok(()) => input@.len() <= max_length,
            Err(e) => {
                &&& e == P2PExchangeError::InputTooLong
                &&& input@.len() > max_length
            },
        },
{
    if input.unicode_len() > max_length {
        return Err(P2PExchangeError::InputTooLong);
    }
    Ok(())
}

/// Trims the input and bounds its length: the validation every free-form
/// string input passes through. Succeeds exactly when the trimmed input is
/// non-empty and at most `max_length` characters long.
pub fn validate_and_process_string(input: &str, max_length: usize) -> (r: Result<
    String,
    P2PExchangeError,
>)
    ensures
        match r {
            Ok(s) => {
                &&& s@ == trim_of(input@)
                &&& 1 <= s@.len() <= max_length
            },
            Err(e) => {
                &&& e == P2PExchangeError::InputTooLong
                &&& (trim_of(input@).len() == 0 || trim_of(input@).len() > max_length)
            },
        },
{
    let trimmed = validate_and_trim_string(input)?;
    validate_string_length(trimmed.as_str(), max_length)?;
    Ok(trimmed)
}

} // verus!
