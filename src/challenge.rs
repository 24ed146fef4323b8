use vstd::prelude::*;

verus! {

/// The characters a PKCE code verifier is drawn from: letters, digits and `-._~`.
pub open spec fn is_unreserved(b: u8) -> bool {
    (65 <= b <= 90) || (97 <= b <= 122) || (48 <= b <= 57) || b == 45 || b == 46 || b == 95
        || b == 126
}

/// A code verifier of the length PKCE allows, over the unreserved characters.
pub open spec fn verifier_ok(v: Seq<u8>) -> bool {
    &&& 43 <= v.len() <= 128
    &&& forall|i: int| 0 <= i < v.len() ==> is_unreserved(#[trigger] v[i])
}

/// A character of the URL-safe base64 alphabet.
pub open spec fn is_base64url(c: char) -> bool {
    ('A' <= c <= 'Z') || ('a' <= c <= 'z') || ('0' <= c <= '9') || c == '-' || c == '_'
}

/// A code challenge: an unpadded URL-safe base64 SHA-256 digest, 43
/// characters. Such a text is also a valid code verifier.
pub open spec fn challenge_ok(s: Seq<char>) -> bool {
    &&& s.len() == 43
    &&& forall|i: int| 0 <= i < s.len() ==> is_base64url(#[trigger] s[i])
}

/// The code challenge that the pkce crate derives from a verifier.
pub uninterp spec fn pkce_challenge_of(verifier: Seq<u8>) -> Seq<char>;

/// Relies on `pkce::code_verifier`: `length` random bytes, each one of
/// `A-Z a-z 0-9 - . ~ _`; it panics on a length outside 43..=128.
#[verifier::external_body]
fn random_verifier(length: usize) -> (r: Vec<u8>)
    requires
        43 <= length <= 128,
    ensures
        r@.len() == length,
        forall|i: int| 0 <= i < r@.len() ==> is_unreserved(#[trigger] r@[i]),
{
    pkce::code_verifier(length)
}

/// Relies on `pkce::code_challenge`: the challenge depends on the verifier
/// alone, and is the base64 form of a 32-byte SHA-256 digest with `+` and `/`
/// made `-` and `_` and the padding `=` dropped, so 43 characters.
#[verifier::external_body]
fn challenge_for(verifier: &[u8]) -> (r: String)
    ensures
        r@ == pkce_challenge_of(verifier@),
        r@.len() == 43,
        forall|i: int| 0 <= i < r@.len() ==> is_base64url(#[trigger] r@[i]),
{
    pkce::code_challenge(verifier)
}

pub assume_specification<T>[ rand::random::<T> ]() -> (r: T)
    where
        rand::distributions::Standard: rand::distributions::Distribution<T>,
;

/// The lower-case hexadecimal digit of `n`.
pub open spec fn hex_digit(n: int) -> char {
    "0123456789abcdef"@[n]
}

/// Two lower-case hexadecimal digits per byte.
pub open spec fn hex_of(bytes: Seq<u8>) -> Seq<char>
    decreases bytes.len(),
{
    if bytes.len() == 0 {
        Seq::empty()
    } else {
        hex_of(bytes.drop_last()) + seq![
            hex_digit(bytes.last() as int / 16),
            hex_digit(bytes.last() as int % 16),
        ]
    }
}

/// A state token: 32 lower-case hexadecimal digits.
pub open spec fn state_ok(s: Seq<char>) -> bool {
    exists|bytes: Seq<u8>| bytes.len() == 16 && s == #[trigger] hex_of(bytes)
}

/// Fresh PKCE material for one authorization attempt.
pub struct PkceMaterial {
    pub verifier: Vec<u8>,
    pub challenge: String,
    pub state: String,
}

impl PkceMaterial {
    /// The verifier is valid, the challenge is derived from it, and the state
    /// is a token of 16 random bytes.
    pub open spec fn well_formed(&self) -> bool {
        &&& verifier_ok(self.verifier@)
        &&& self.challenge@ == pkce_challenge_of(self.verifier@)
        &&& challenge_ok(self.challenge@)
        &&& state_ok(self.state@)
    }
}

/// The length of the code verifiers this library makes.
pub const VERIFIER_LEN: usize = 128;

/// The number of random bytes of a state token.
pub const STATE_BYTES: usize = 16;

/// Appends the two hexadecimal digits of `b` to `s`.
fn push_hex(s: &mut String, b: u8)
    ensures
        final(s)@ == old(s)@ + seq![hex_digit(b as int / 16), hex_digit(b as int % 16)],
{
    let digits = "0123456789abcdef";
    proof {
        reveal_strlit("0123456789abcdef");
    }
    let hi = (b / 16) as usize;
    let lo = (b % 16) as usize;
    let h = digits.substring_char(hi, hi + 1);
    let l = digits.substring_char(lo, lo + 1);
    assert(h@ =~= seq![hex_digit(b as int / 16)]);
    assert(l@ =~= seq![hex_digit(b as int % 16)]);
    s.append(h);
    s.append(l);
    assert(final(s)@ =~= old(s)@ + seq![hex_digit(b as int / 16), hex_digit(b as int % 16)]);
}

/// The state token made of `bytes`: two lower-case hexadecimal digits each.
pub fn state_of(bytes: &[u8]) -> (r: String)
    ensures
        r@ == hex_of(bytes@),
{
    let mut s = String::new();
    let mut i: usize = 0;
    while i < bytes.len()
        invariant
            i <= bytes@.len(),
            s@ == hex_of(bytes@.subrange(0, i as int)),
        decreases bytes@.len() - i,
    {
        let b = bytes[i];
        push_hex(&mut s, b);
        assert(bytes@.subrange(0, i + 1).drop_last() =~= bytes@.subrange(0, i as int));
        i = i + 1;
    }
    assert(bytes@.subrange(0, i as int) =~= bytes@);
    s
}

/// A random anti-forgery state token: `STATE_BYTES` random bytes in hexadecimal.
pub fn random_state() -> (r: String)
    ensures
        state_ok(r@),
{
    let mut bytes: Vec<u8> = Vec::new();
    let mut i: usize = 0;
    while i < STATE_BYTES
        invariant
            i <= STATE_BYTES,
            bytes@.len() == i,
        decreases STATE_BYTES - i,
    {
        bytes.push(rand::random::<u8>());
        i = i + 1;
    }
    let r = state_of(bytes.as_slice());
    assert(bytes@.len() == 16 && r@ == hex_of(bytes@));
    r
}

/// Generates a verifier of `VERIFIER_LEN` characters, its challenge and a
/// fresh state token.
pub fn generate() -> (r: PkceMaterial)
    ensures
        r.well_formed(),
        r.verifier@.len() == VERIFIER_LEN,
{
    let verifier = random_verifier(VERIFIER_LEN);
    let challenge = challenge_for(verifier.as_slice());
    let state = random_state();
    PkceMaterial { verifier, challenge, state }
}

/// The challenge is a function of the verifier alone: two well-formed
/// materials with the same verifier carry the same challenge.
pub proof fn lemma_challenge_determined(a: PkceMaterial, b: PkceMaterial)
    requires
        a.well_formed(),
        b.well_formed(),
        a.verifier@ == b.verifier@,
    ensures
        a.challenge@ == b.challenge@,
{
}

} // verus!
