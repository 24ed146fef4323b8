use vstd::prelude::*;
use aes_gcm::aead::{Aead, NewAead};
use aes_gcm::{Aes256Gcm, Key, Nonce};
use crate::error::AuthError;

verus! {

/// What AES-256-GCM makes of `plain` under `key` and `nonce`, with no
/// associated data: the ciphertext followed by the tag.
pub uninterp spec fn aes256gcm_sealed(key: Seq<u8>, nonce: Seq<u8>, plain: Seq<u8>) -> Seq<u8>;

/// The longest plaintext that GCM allows, in bytes: 2^36 - 32, so that the
/// 32-bit block counter of the keystream never wraps.
pub const MAX_PLAINTEXT: u64 = 68719476704;

/// Relies on `Aes256Gcm::encrypt` of aes-gcm: within the GCM length limit
/// (below aes-gcm's own `P_MAX` check, and short enough that the keystream
/// of ctr does not run out and panic) it returns the sealed bytes:
/// the ciphertext, as long as the plaintext, followed by a 16-byte tag. The
/// ciphertext is the plaintext XORed with a keystream fixed by key and nonce,
/// so no other plaintext seals to the same bytes.
#[verifier::external_body]
fn aes_encrypt(key: &[u8], nonce: &[u8], plain: &[u8]) -> (r: Option<Vec<u8>>)
    requires
        key@.len() == 32,
        nonce@.len() == 12,
        plain@.len() <= MAX_PLAINTEXT,
    ensures
        r is Some,
        r matches Some(c) ==> c@ == aes256gcm_sealed(key@, nonce@, plain@),
        r matches Some(c) ==> c@.len() == plain@.len() + 16,
        r matches Some(c) ==> forall|q: Seq<u8>|
            q != plain@ ==> #[trigger] aes256gcm_sealed(key@, nonce@, q) != c@,
{
    let cipher = Aes256Gcm::new(Key::from_slice(key));
    cipher.encrypt(Nonce::from_slice(nonce), plain).ok()
}

/// Relies on `Aes256Gcm::decrypt` of aes-gcm: it succeeds exactly on the
/// output of `encrypt` under the same key and nonce, and then returns the
/// plaintext that was sealed (a valid tag means the plaintext it yields
/// seals to the input again); on any other input the tag check fails. The
/// input is kept within the GCM length limit plus the tag, where the
/// keystream of ctr does not run out and panic.
#[verifier::external_body]
fn aes_decrypt(key: &[u8], nonce: &[u8], sealed: &[u8]) -> (r: Option<Vec<u8>>)
    requires
        key@.len() == 32,
        nonce@.len() == 12,
        sealed@.len() <= MAX_PLAINTEXT + 16,
    ensures
        r matches Some(p) ==> aes256gcm_sealed(key@, nonce@, p@) == sealed@,
        r is None ==> forall|p: Seq<u8>|
            p.len() <= MAX_PLAINTEXT ==> #[trigger] aes256gcm_sealed(key@, nonce@, p) != sealed@,
        r matches Some(q) ==> forall|p: Seq<u8>| #[trigger] aes256gcm_sealed(key@, nonce@, p) == sealed@ ==> q@ == p,
{
    let cipher = Aes256Gcm::new(Key::from_slice(key));
    cipher.decrypt(Nonce::from_slice(nonce), sealed).ok()
}

/// The fixed key of the token cache ("one two three four five six seve").
pub open spec fn cache_key() -> Seq<u8> {
    seq![
        111u8, 110, 101, 32, 116, 119, 111, 32, 116, 104, 114, 101, 101, 32, 102, 111,
        117, 114, 32, 102, 105, 118, 101, 32, 115, 105, 120, 32, 115, 101, 118, 101,
    ]
}

/// The fixed nonce of the token cache ("but the eart").
pub open spec fn cache_nonce() -> Seq<u8> {
    seq![98u8, 117, 116, 32, 116, 104, 101, 32, 101, 97, 114, 116]
}

fn key_bytes() -> (r: Vec<u8>)
    ensures
        r@ == cache_key(),
{
    let r: Vec<u8> = vec![
        111u8, 110, 101, 32, 116, 119, 111, 32, 116, 104, 114, 101, 101, 32, 102, 111,
        117, 114, 32, 102, 105, 118, 101, 32, 115, 105, 120, 32, 115, 101, 118, 101,
    ];
    assert(r@ =~= cache_key());
    r
}

fn nonce_bytes() -> (r: Vec<u8>)
    ensures
        r@ == cache_nonce(),
{
    let r: Vec<u8> = vec![98u8, 117, 116, 32, 116, 104, 101, 32, 101, 97, 114, 116];
    assert(r@ =~= cache_nonce());
    r
}

/// What `seal` makes of `plain`.
pub open spec fn sealed(plain: Seq<u8>) -> Seq<u8> {
    aes256gcm_sealed(cache_key(), cache_nonce(), plain)
}

/// What may come of `open(c)`: success only with a plaintext that seals to
/// `c`, `DecryptError` otherwise, and success whenever `c`, no longer than
/// the limit plus the tag, is some plaintext sealed.
pub open spec fn open_post(c: Seq<u8>, r: Result<Vec<u8>, AuthError>) -> bool {
    &&& (r matches Ok(p) ==> sealed(p@) == c)
    &&& (r matches Err(e) ==> e == AuthError::DecryptError)
    &&& c.len() <= MAX_PLAINTEXT + 16 ==> forall|p: Seq<u8>|
        p.len() <= MAX_PLAINTEXT && #[trigger] sealed(p) == c ==> (r matches Ok(q) && q@ == p)
}

/// What may come of `seal(p)`: `None` only for a plaintext over
/// `MAX_PLAINTEXT` bytes, otherwise `sealed(p)`, 16 bytes longer than `p`,
/// which no other plaintext seals to.
pub open spec fn seal_post(p: Seq<u8>, r: Option<Vec<u8>>) -> bool {
    &&& (r is Some <==> p.len() <= MAX_PLAINTEXT)
    &&& (r matches Some(c) ==> c@ == sealed(p))
    &&& (r matches Some(c) ==> c@.len() == p.len() + 16)
    &&& (r matches Some(c) ==> forall|q: Seq<u8>| q != p ==> #[trigger] sealed(q) != c@)
}

/// Encrypts `plain` with the cache's key and nonce, appending a 16-byte tag.
/// `None` only for a plaintext over `MAX_PLAINTEXT` bytes.
pub fn seal(plain: &[u8]) -> (r: Option<Vec<u8>>)
    ensures
        seal_post(plain@, r),
{
    if plain.len() as u64 > MAX_PLAINTEXT {
        return None;
    }
    let key = key_bytes();
    let nonce = nonce_bytes();
    aes_encrypt(key.as_slice(), nonce.as_slice(), plain)
}

/// Decrypts bytes made by `seal`; anything else is a `DecryptError`.
pub fn open(cipher: &[u8]) -> (r: Result<Vec<u8>, AuthError>)
    ensures
        open_post(cipher@, r),
{
    if cipher.len() as u64 > MAX_PLAINTEXT + 16 {
        return Err(AuthError::DecryptError);
    }
    let key = key_bytes();
    let nonce = nonce_bytes();
    match aes_decrypt(key.as_slice(), nonce.as_slice(), cipher) {
        Some(p) => Ok(p),
        None => Err(AuthError::DecryptError),
    }
}

/// Opening what `seal` made of `p` gives back `p`; `seal` makes something
/// of every `p` of at most `MAX_PLAINTEXT` bytes.
pub proof fn lemma_open_seal_round_trip(
    p: Seq<u8>,
    s: Option<Vec<u8>>,
    r: Result<Vec<u8>, AuthError>,
)
    requires
        p.len() <= MAX_PLAINTEXT,
        seal_post(p, s),
        s matches Some(c) && open_post(c@, r),
    ensures
        s is Some,
        r matches Ok(q) && q@ == p,
{
}

/// Different plaintexts seal to different bytes: writing a changed record
/// changes the cache file.
pub proof fn lemma_seal_distinct(
    first: Seq<u8>,
    sealed_first: Option<Vec<u8>>,
    second: Seq<u8>,
    sealed_second: Option<Vec<u8>>,
)
    requires
        seal_post(first, sealed_first),
        seal_post(second, sealed_second),
        first != second,
        sealed_first is Some,
        sealed_second is Some,
    ensures
        sealed_first->0@ != sealed_second->0@,
{
    assert(sealed(second) != sealed(first));
}

/// Changing one byte of what `seal` made of `p` never opens to `p`: `open`
/// then fails or yields a plaintext that seals to the changed bytes.
pub proof fn lemma_tampered_never_opens_to_plaintext(
    p: Seq<u8>,
    i: int,
    b: u8,
    r: Result<Vec<u8>, AuthError>,
)
    requires
        0 <= i < sealed(p).len(),
        b != sealed(p)[i],
        open_post(sealed(p).update(i, b), r),
    ensures
        !(r matches Ok(q) && q@ == p),
        r matches Err(e) ==> e == AuthError::DecryptError,
{
    assert(sealed(p).update(i, b)[i] != sealed(p)[i]);
}

} // verus!
