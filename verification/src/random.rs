//! Random passwords and random port candidates.

use vstd::prelude::*;

use crate::text::push_char;

verus! {

/// The number of characters in a generated password.
pub const PASSWORD_LENGTH: usize = 12;

/// Whether `c` is an ASCII letter or digit.
pub open spec fn is_alphanumeric(c: char) -> bool {
    ('A' <= c && c <= 'Z') || ('a' <= c && c <= 'z') || ('0' <= c && c <= '9')
}

/// Draws one byte from `rand::distributions::Alphanumeric` with the thread's
/// generator. The source draws from the 62 bytes `A`-`Z`, `a`-`z`, `0`-`9`;
/// which one comes is chance, and nothing else is claimed of it.
#[verifier::external_body]
fn sample_alphanumeric() -> (b: u8)
    ensures
        is_alphanumeric(b as char),
{
    rand::Rng::sample(&mut rand::thread_rng(), rand::distributions::Alphanumeric)
}

/// Draws a number from `lower..upper` with `rand::Rng::gen_range` on the
/// thread's generator, which panics on an empty range. Which number comes is
/// chance; only the range is claimed.
#[verifier::external_body]
fn sample_range(lower: u16, upper: u16) -> (r: u16)
    requires
        lower < upper,
    ensures
        lower <= r < upper,
{
    rand::Rng::gen_range(&mut rand::thread_rng(), lower..upper)
}

/// The characters that the bytes `bytes` stand for.
pub open spec fn bytes_as_chars(bytes: Seq<u8>) -> Seq<char> {
    bytes.map_values(|b: u8| b as char)
}

/// The password made of the characters that `bytes` stand for, in order.
pub fn password_from_bytes(bytes: &Vec<u8>) -> (r: String)
    ensures
        r@ == bytes_as_chars(bytes@),
{
    let mut password = String::new();
    let mut i: usize = 0;
    while i < bytes.len()
        invariant
            i <= bytes@.len(),
            password@ =~= bytes_as_chars(bytes@.subrange(0, i as int)),
        decreases bytes@.len() - i,
    {
        push_char(&mut password, bytes[i] as char);
        assert(bytes_as_chars(bytes@.subrange(0, i + 1)) =~= bytes_as_chars(bytes@.subrange(0, i as int)).push(
            bytes@[i as int] as char,
        ));
        i = i + 1;
    }
    assert(bytes@.subrange(0, i as int) =~= bytes@);
    password
}

/// Generates a random password of twelve ASCII letters and digits: twelve
/// bytes drawn from the alphanumeric ones, taken as characters.
pub fn random_password() -> (r: String)
    ensures
        r@.len() == PASSWORD_LENGTH,
        forall|i: int| 0 <= i < r@.len() ==> is_alphanumeric(#[trigger] r@[i]),
{
    let mut bytes: Vec<u8> = Vec::new();
    while bytes.len() < PASSWORD_LENGTH
        invariant
            bytes@.len() <= PASSWORD_LENGTH,
            forall|i: int| 0 <= i < bytes@.len() ==> is_alphanumeric((#[trigger] bytes@[i]) as char),
        decreases PASSWORD_LENGTH - bytes@.len(),
    {
        bytes.push(sample_alphanumeric());
    }
    let password = password_from_bytes(&bytes);
    assert forall|i: int| 0 <= i < password@.len() implies is_alphanumeric(#[trigger] password@[i]) by {
        assert(password@[i] == bytes@[i] as char);
    }
    password
}

/// A random TCP port in `lower..upper`, to be tried for being free.
pub fn port_candidate(lower: u16, upper: u16) -> (r: u16)
    requires
        lower < upper,
    ensures
        lower <= r < upper,
{
    sample_range(lower, upper)
}

} // verus!
