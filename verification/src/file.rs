//! Random names for temporary files.

use vstd::prelude::*;
use crate::text::push_char;

verus! {

#[verifier::external_type_specification]
#[verifier::external_body]
pub struct ExStdRng(rand::rngs::StdRng);

/// An ASCII letter or digit.
pub open spec fn is_alphanumeric(c: char) -> bool {
    ('a' <= c && c <= 'z') || ('A' <= c && c <= 'Z') || ('0' <= c && c <= '9')
}

/// Calls `SeedableRng::from_rng` for `rand::rngs::StdRng` with
/// `rand::rngs::OsRng`: a generator seeded from the operating system, or the
/// text of the error when the operating system's source fails (this call
/// reports that failure instead of panicking). Nothing is claimed of the
/// generator or of the error text.
#[verifier::external_body]
fn seeded_rng() -> Result<rand::rngs::StdRng, String> {
    rand::SeedableRng::from_rng(rand::rngs::OsRng).map_err(|e: rand::Error| e.to_string())
}

/// Calls `Rng::sample` with `rand::distributions::Alphanumeric`. Claimed:
/// the result is an ASCII letter or digit (the distribution's charset); which
/// one depends on the generator and is left unsaid.
#[verifier::external_body]
fn sample_alphanumeric(rng: &mut rand::rngs::StdRng) -> (c: char)
    ensures
        is_alphanumeric(c),
{
    rand::Rng::sample(rng, rand::distributions::Alphanumeric)
}

/// The string made of `chars`, in order.
pub fn string_from_chars(chars: &Vec<char>) -> (r: String)
    ensures
        r@ == chars@,
{
    let mut r = String::new();
    let mut i: usize = 0;
    while i < chars.len()
        invariant
            i <= chars@.len(),
            r@ == chars@.subrange(0, i as int),
        decreases chars@.len() - i,
    {
        push_char(&mut r, chars[i]);
        assert(chars@.subrange(0, i + 1) =~= chars@.subrange(0, i as int).push(chars@[i as int]));
        i = i + 1;
    }
    assert(chars@.subrange(0, chars@.len() as int) =~= chars@);
    r
}

/// `len` ASCII letters and digits drawn from `rng`.
pub fn random_chars_from(rng: &mut rand::rngs::StdRng, len: usize) -> (cs: Vec<char>)
    ensures
        cs@.len() == len,
        forall|i: int| 0 <= i < len ==> is_alphanumeric(#[trigger] cs@[i]),
{
    let mut cs: Vec<char> = Vec::new();
    let mut i: usize = 0;
    while i < len
        invariant
            i <= len,
            cs@.len() == i,
            forall|j: int| 0 <= j < i ==> is_alphanumeric(#[trigger] cs@[j]),
        decreases len - i,
    {
        let c = sample_alphanumeric(rng);
        cs.push(c);
        i = i + 1;
    }
    cs
}

/// `len` random ASCII letters and digits, drawn (`random_chars_from`) from a
/// generator seeded by the operating system; the seeding error when the
/// generator cannot be seeded.
pub fn random_chars(len: usize) -> (r: Result<Vec<char>, String>)
    ensures
        r matches Ok(cs) ==> cs@.len() == len && forall|i: int|
            0 <= i < len ==> is_alphanumeric(#[trigger] cs@[i]),
{
    match seeded_rng() {
        Ok(mut rng) => Ok(random_chars_from(&mut rng, len)),
        Err(e) => Err(e),
    }
}

/// A string of `len` random ASCII letters and digits: the string made of
/// the characters drawn (`random_chars`, then `string_from_chars`).
pub fn random_string(len: usize) -> (r: Result<String, String>)
    ensures
        r matches Ok(s) ==> s@.len() == len && forall|i: int|
            0 <= i < len ==> is_alphanumeric(#[trigger] s@[i]),
{
    match random_chars(len) {
        Ok(cs) => Ok(string_from_chars(&cs)),
        Err(e) => Err(e),
    }
}

/// A random identifier: seven ASCII letters and digits.
pub fn random_id() -> (r: Result<String, String>)
    ensures
        r matches Ok(s) ==> s@.len() == 7 && forall|i: int|
            0 <= i < 7 ==> is_alphanumeric(#[trigger] s@[i]),
{
    random_string(7)
}

} // verus!
