use rand::Rng;
use vstd::prelude::*;

verus! {

/// Number of characters in a confirmation token.
pub const TOKEN_LEN: usize = 25;

/// Characters that a confirmation token is drawn from: ASCII letters and digits.
pub open spec fn is_token_char(c: char) -> bool {
    ('A' <= c && c <= 'Z') || ('a' <= c && c <= 'z') || ('0' <= c && c <= '9')
}

/// The shape of every confirmation token: `TOKEN_LEN` ASCII letters and digits.
pub open spec fn is_token(s: Seq<char>) -> bool {
    &&& s.len() == TOKEN_LEN
    &&& forall|i: int| 0 <= i < s.len() ==> is_token_char(#[trigger] s[i])
}

/// Relies on `String::push`, which appends one character at the end.
pub assume_specification[ String::push ](s: &mut String, ch: char)
    ensures
        final(s)@ == old(s)@.push(ch),
;

/// Relies on rand's `Alphanumeric` distribution sampled from `thread_rng`, a generator
/// seeded from the operating system: each sample is one byte of `A-Z`, `a-z` or `0-9`.
#[verifier::external_body]
fn random_alphanumeric() -> (c: char)
    ensures
        is_token_char(c),
{
    char::from(rand::thread_rng().sample(rand::distributions::Alphanumeric))
}

/// Draws a fresh confirmation token. Which token comes out is left to chance; its shape is not.
pub fn generate_subscription_token() -> (t: String)
    ensures
        is_token(t@),
{
    let mut t = String::new();
    let mut i: usize = 0;
    while i < TOKEN_LEN
        invariant
            i <= TOKEN_LEN,
            t@.len() == i,
            forall|j: int| 0 <= j < i ==> is_token_char(#[trigger] t@[j]),
        decreases TOKEN_LEN - i,
    {
        let c = random_alphanumeric();
        t.push(c);
        i = i + 1;
    }
    t
}

} // verus!
