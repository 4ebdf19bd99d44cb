use crate::error::Error;
use chacha20poly1305::aead::{AeadInOut, KeyInit};
use chacha20poly1305::Error as AeadError;
use core::array::TryFromSliceError;
use core::cmp::Ordering;
use getrandom::Error as RandomError;
use vstd::prelude::*;

verus! {

broadcast use vstd::array::group_array_axioms;

/// A basic authentication token encrypted with ChaCha20Poly1305: the nonce,
/// the encrypted secret and the authentication tag, laid out in that order.
#[derive(Clone, Copy, PartialEq, Eq, Ord)]
pub struct Token {
    pub(crate) nonce: [u8; 12],
    pub(crate) token: [u8; 16],
    pub(crate) tag: [u8; 16],
}

impl View for Token {
    type V = Seq<u8>;

    /// The token's 44 bytes: nonce (0..12), encrypted secret (12..28), tag (28..44).
    closed spec fn view(&self) -> Seq<u8> {
        self.nonce@ + self.token@ + self.tag@
    }
}

impl Default for Token {
    /// The all-zero token.
    fn default() -> (r: Self)
        ensures
            r@ == Seq::new(44, |i: int| 0u8),
    {
        let r = Token { nonce: [0u8; 12], token: [0u8; 16], tag: [0u8; 16] };
        assert(r@ =~= Seq::new(44, |i: int| 0u8));
        r
    }
}

/// The lexicographic order of two byte strings: the first differing byte decides,
/// and a proper prefix comes first.
pub open spec fn byte_order(a: Seq<u8>, b: Seq<u8>) -> Ordering
    decreases a.len(),
{
    if a.len() == 0 && b.len() == 0 {
        Ordering::Equal
    } else if a.len() == 0 {
        Ordering::Less
    } else if b.len() == 0 {
        Ordering::Greater
    } else if a[0] < b[0] {
        Ordering::Less
    } else if a[0] > b[0] {
        Ordering::Greater
    } else {
        byte_order(a.drop_first(), b.drop_first())
    }
}

/// The bytes of `s` from position `i` on.
pub open spec fn bytes_from(s: Seq<u8>, i: usize) -> Seq<u8> {
    s.subrange(i as int, s.len() as int)
}

/// Stepping over one byte of a byte string.
proof fn lemma_bytes_from_step(s: Seq<u8>, i: usize)
    requires
        i < s.len(),
        i + 1 <= usize::MAX,
    ensures
        bytes_from(s, i).len() > 0,
        bytes_from(s, i)[0] == s[i as int],
        bytes_from(s, i).drop_first() == bytes_from(s, (i + 1) as usize),
{
    assert(bytes_from(s, i).drop_first() =~= bytes_from(s, (i + 1) as usize));
}

/// The bytes of `s` from its start, and past its end.
proof fn lemma_bytes_from_ends(s: Seq<u8>, n: usize)
    requires
        n == s.len(),
    ensures
        bytes_from(s, 0) == s,
        bytes_from(s, n).len() == 0,
{
    assert(bytes_from(s, 0) =~= s);
}

/// A token is 44 bytes long.
pub broadcast proof fn lemma_token_len(t: Token)
    ensures
        #[trigger] t@.len() == 44,
{
}

/// A token is determined by its bytes.
pub proof fn lemma_token_eq(a: Token, b: Token)
    requires
        a@ == b@,
    ensures
        a == b,
{
    assert(a.nonce@ =~= a@.subrange(0, 12));
    assert(b.nonce@ =~= b@.subrange(0, 12));
    assert(a.token@ =~= a@.subrange(12, 28));
    assert(b.token@ =~= b@.subrange(12, 28));
    assert(a.tag@ =~= a@.subrange(28, 44));
    assert(b.tag@ =~= b@.subrange(28, 44));
    assert(a.nonce =~= b.nonce);
    assert(a.token =~= b.token);
    assert(a.tag =~= b.tag);
}

impl Token {
    pub fn from_raw(nonce: [u8; 12], token: [u8; 16], tag: [u8; 16]) -> (r: Self)
        ensures
            r@ == nonce@ + token@ + tag@,
    {
        Token { nonce, token, tag }
    }

    /// The token's byte at position `i`.
    fn byte(&self, i: usize) -> (r: u8)
        requires
            i < 44,
        ensures
            r == self@[i as int],
    {
        if i < 12 {
            self.nonce[i]
        } else if i < 28 {
            self.token[i - 12]
        } else {
            self.tag[i - 28]
        }
    }

    pub fn token(&self) -> (r: &[u8])
        ensures
            r@ == self@.subrange(12, 28),
    {
        proof { assert(self.token@ =~= self@.subrange(12, 28)); }
        self.token.as_slice()
    }

    pub fn nonce(&self) -> (r: &[u8])
        ensures
            r@ == self@.subrange(0, 12),
    {
        proof { assert(self.nonce@ =~= self@.subrange(0, 12)); }
        self.nonce.as_slice()
    }

    pub fn tag(&self) -> (r: &[u8])
        ensures
            r@ == self@.subrange(28, 44),
    {
        proof { assert(self.tag@ =~= self@.subrange(28, 44)); }
        self.tag.as_slice()
    }

    /// Seals `plaintext` under `key` with the given nonce, giving the token and the
    /// plaintext (the secret to keep elsewhere to check the token later).
    ///
    /// This is the part of [`TokenStrategyExt::encrypt`] that follows the draw of the
    /// random nonce and plaintext; it fails exactly when the key is not 32 bytes long.
    pub fn encrypt_with(key: &[u8], nonce: [u8; 12], plaintext: [u8; 16]) -> (r: Result<
        (Token, [u8; 16]),
        Error,
    >)
        ensures
            key@.len() != 32 <==> r is Err,
            r matches Err(e) ==> e is ConvertError,
            r matches Ok((t, p)) ==> {
                &&& p == plaintext
                &&& t@ == nonce@ + chacha20poly1305_seal(key@, nonce@, plaintext@)
                &&& decrypt_outcome(t, key@) == Some(plaintext@)
            },
    {
        let key = match key_from_slice(key) {
            Ok(k) => k,
            Err(e) => return Err(Error::ConvertError(e)),
        };
        match seal_detached(&key, &nonce, &plaintext) {
            Ok((ct, tag)) => {
                let t = Token { nonce, token: ct, tag };
                proof {
                    assert(t@.subrange(0, 12) =~= nonce@);
                    assert(t@.subrange(12, 28) =~= ct@);
                    assert(t@.subrange(28, 44) =~= tag@);
                    assert(t@ =~= nonce@ + (ct@ + tag@));
                }
                Ok((t, plaintext))
            },
            Err(e) => Err(Error::from(e)),
        }
    }
}

impl PartialOrd for Token {
    /// Tokens are ordered by their bytes, lexicographically.
    fn partial_cmp(&self, other: &Self) -> (r: Option<Ordering>) {
        proof {
            lemma_token_len(*self);
            lemma_token_len(*other);
            lemma_bytes_from_ends(self@, 44);
            lemma_bytes_from_ends(other@, 44);
        }
        let mut i: usize = 0;
        while i < 44
            invariant
                i <= 44,
                self@.len() == 44,
                other@.len() == 44,
                byte_order(self@, other@) == byte_order(
                    bytes_from(self@, i),
                    bytes_from(other@, i),
                ),
            decreases 44 - i,
        {
            let a = self.byte(i);
            let b = other.byte(i);
            proof {
                lemma_bytes_from_step(self@, i);
                lemma_bytes_from_step(other@, i);
            }
            if a < b {
                return Some(Ordering::Less);
            }
            if a > b {
                return Some(Ordering::Greater);
            }
            i = i + 1;
        }
        proof {
            lemma_bytes_from_ends(self@, 44);
            lemma_bytes_from_ends(other@, 44);
        }
        Some(Ordering::Equal)
    }
}

impl vstd::std_specs::cmp::PartialOrdSpecImpl for Token {
    open spec fn obeys_partial_cmp_spec() -> bool {
        true
    }

    open spec fn partial_cmp_spec(&self, other: &Self) -> Option<Ordering> {
        Some(byte_order(self@, other@))
    }
}

/// What ChaCha20Poly1305, with no associated data, produces when it seals
/// `plaintext` under `key` and `nonce`: the ciphertext followed by the 16-byte tag.
pub uninterp spec fn chacha20poly1305_seal(key: Seq<u8>, nonce: Seq<u8>, plaintext: Seq<u8>) -> Seq<
    u8,
>;

/// What ChaCha20Poly1305, with no associated data, gives back when it opens
/// `ciphertext` with `tag` under `key` and `nonce`: the plaintext, or nothing when the
/// tag does not authenticate the ciphertext.
pub uninterp spec fn chacha20poly1305_open(
    key: Seq<u8>,
    nonce: Seq<u8>,
    ciphertext: Seq<u8>,
    tag: Seq<u8>,
) -> Option<Seq<u8>>;

/// What decrypting `t` with `key` gives: nothing when the key is not 32 bytes long or
/// the tag does not authenticate the token, else the secret.
pub open spec fn decrypt_outcome(t: Token, key: Seq<u8>) -> Option<Seq<u8>> {
    if key.len() == 32 {
        chacha20poly1305_open(key, t@.subrange(0, 12), t@.subrange(12, 28), t@.subrange(28, 44))
    } else {
        None
    }
}

/// A token that encryption produced and whose tag was then altered meets the condition
/// under which [`TokenStrategy::decrypt`] rejects it: its encrypted secret is still what
/// sealing the secret gives, and its tag no longer is the tag that sealing gives.
pub proof fn lemma_altered_tag_is_rejected(t: Token, altered: Token, key: Seq<u8>, secret: Seq<u8>)
    requires
        secret.len() == 16,
        t@ == t@.subrange(0, 12) + chacha20poly1305_seal(key, t@.subrange(0, 12), secret),
        altered@.subrange(0, 28) == t@.subrange(0, 28),
        altered@ != t@,
    ensures
        altered@.subrange(0, 12) == t@.subrange(0, 12),
        chacha20poly1305_seal(key, altered@.subrange(0, 12), secret).subrange(0, 16)
            == altered@.subrange(12, 28),
        chacha20poly1305_seal(key, altered@.subrange(0, 12), secret).subrange(16, 32)
            != altered@.subrange(28, 44),
{
    lemma_token_len(t);
    lemma_token_len(altered);
    let n = t@.subrange(0, 12);
    let s = chacha20poly1305_seal(key, n, secret);
    assert(altered@.subrange(0, 12) =~= altered@.subrange(0, 28).subrange(0, 12));
    assert(t@.subrange(0, 12) =~= t@.subrange(0, 28).subrange(0, 12));
    assert(s.len() == 32);
    assert(s.subrange(0, 16) =~= t@.subrange(12, 28));
    assert(altered@.subrange(12, 28) =~= altered@.subrange(0, 28).subrange(12, 28));
    assert(t@.subrange(12, 28) =~= t@.subrange(0, 28).subrange(12, 28));
    assert(s.subrange(16, 32) =~= t@.subrange(28, 44));
    if s.subrange(16, 32) == altered@.subrange(28, 44) {
        assert(altered@ =~= altered@.subrange(0, 28) + altered@.subrange(28, 44));
        assert(t@ =~= t@.subrange(0, 28) + t@.subrange(28, 44));
    }
}

/// Converts a key given as a slice into a ChaCha20Poly1305 key.
///
/// Trusted: `chacha20poly1305::Key::try_from(&[u8])` (hybrid-array), which succeeds
/// exactly when the slice has 32 bytes, and then holds those bytes.
#[verifier::external_body]
fn key_from_slice(key: &[u8]) -> (r: Result<[u8; 32], TryFromSliceError>)
    ensures
        key@.len() == 32 <==> r is Ok,
        r matches Ok(k) ==> k@ == key@,
{
    chacha20poly1305::Key::try_from(key).map(|k| k.into())
}

/// Seals a 16-byte plaintext with ChaCha20Poly1305 and no associated data, giving the
/// ciphertext and the tag apart.
///
/// Trusted: `ChaCha20Poly1305::new` and `AeadInOut::encrypt_inout_detached`. The source
/// (chacha20poly1305 0.11) fails only for a message of 2^32 blocks or more, so a
/// 16-byte message always succeeds; the result is named by `chacha20poly1305_seal`, and
/// opening it again gives the plaintext back, as the AEAD contract documents.
#[verifier::external_body]
fn seal_detached(key: &[u8; 32], nonce: &[u8; 12], plaintext: &[u8; 16]) -> (r: Result<
    ([u8; 16], [u8; 16]),
    AeadError,
>)
    ensures
        r is Ok,
        r matches Ok((ct, tag)) ==> {
            &&& ct@ + tag@ == chacha20poly1305_seal(key@, nonce@, plaintext@)
            &&& chacha20poly1305_open(key@, nonce@, ct@, tag@) == Some(plaintext@)
        },
{
    let cipher = chacha20poly1305::ChaCha20Poly1305::new(&chacha20poly1305::Key::from(*key));
    let mut ct = *plaintext;
    let tag = cipher.encrypt_inout_detached(
        &chacha20poly1305::Nonce::from(*nonce),
        b"",
        (&mut ct[..]).into(),
    )?;
    Ok((ct, tag.into()))
}

/// Opens a 16-byte ciphertext with its tag under ChaCha20Poly1305 and no associated data.
///
/// Trusted: `ChaCha20Poly1305::new` and `AeadInOut::decrypt_inout_detached`, which
/// succeed exactly when the tag authenticates the ciphertext; the outcome is named by
/// `chacha20poly1305_open`. The source (chacha20poly1305 0.11) accepts only the tag that
/// Poly1305 computes from the key, the nonce and the ciphertext, and recovers the
/// plaintext by XOR with the ChaCha20 keystream of key and nonce; so sealing the
/// recovered plaintext again gives this very ciphertext and tag, and no other plaintext
/// seals to this ciphertext under this key and nonce.
#[verifier::external_body]
fn open_detached(key: &[u8; 32], nonce: &[u8; 12], ciphertext: &[u8; 16], tag: &[u8; 16]) -> (r:
    Result<[u8; 16], AeadError>)
    ensures
        match chacha20poly1305_open(key@, nonce@, ciphertext@, tag@) {
            Some(p) => (r matches Ok(q) && q@ == p),
            None => r is Err,
        },
        r matches Ok(q) ==> ciphertext@ + tag@ == chacha20poly1305_seal(key@, nonce@, q@),
        r matches Ok(q) ==> forall|p: Seq<u8>|
            p.len() == 16 && #[trigger] chacha20poly1305_seal(key@, nonce@, p).subrange(0, 16)
                == ciphertext@ ==> p == q@,
{
    let cipher = chacha20poly1305::ChaCha20Poly1305::new(&chacha20poly1305::Key::from(*key));
    let mut pt = *ciphertext;
    cipher.decrypt_inout_detached(
        &chacha20poly1305::Nonce::from(*nonce),
        b"",
        (&mut pt[..]).into(),
        &chacha20poly1305::Tag::from(*tag),
    )?;
    Ok(pt)
}

/// Fills `dest` with random bytes from the operating system.
///
/// Trusted: `getrandom::fill`. What it writes is chance, so nothing is claimed of the
/// bytes, nor of whether it succeeds.
#[verifier::external_body]
fn fill_random<const N: usize>(dest: &mut [u8; N]) -> (r: Result<(), RandomError>) {
    getrandom::fill(dest)
}

/// A way to check an authentication token.
pub trait TokenStrategy {
    type Error;

    /// Attempts to decrypt this token with the given key.
    fn decrypt(&self, key: &[u8]) -> Result<[u8; 16], Error>;
}

/// A way to create an authentication token.
pub trait TokenStrategyExt: TokenStrategy + Sized {
    /// Creates a new token encrypted with the given key, returning the token and the
    /// secret that should be kept somewhere safe to later check the token.
    ///
    /// Fails if the key is not 32 bytes long.
    fn encrypt(key: &[u8]) -> Result<(Self, [u8; 16]), Error>;
}

impl TokenStrategy for Token {
    type Error = AeadError;

    fn decrypt(&self, key: &[u8]) -> (r: Result<[u8; 16], Error>)
        ensures
            key@.len() != 32 ==> (r matches Err(e) && e is ConvertError),
            key@.len() == 32 ==> match decrypt_outcome(*self, key@) {
                Some(p) => (r matches Ok(q) && q@ == p),
                None => (r matches Err(e) && e is CardDecryptionError),
            },
            // Only a token that sealing produced is accepted: its secret, sealed again
            // under the key and the token's nonce, gives the token's bytes back.
            r matches Ok(q) ==> self@ == self@.subrange(0, 12) + chacha20poly1305_seal(
                key@,
                self@.subrange(0, 12),
                q@,
            ),
            // A token whose encrypted secret is what sealing some secret gives, but whose
            // tag is not the tag that sealing gives, is rejected.
            forall|p: Seq<u8>|
                #![trigger chacha20poly1305_seal(key@, self@.subrange(0, 12), p)]
                p.len() == 16 && chacha20poly1305_seal(key@, self@.subrange(0, 12), p).subrange(
                    0,
                    16,
                ) == self@.subrange(12, 28) && chacha20poly1305_seal(
                    key@,
                    self@.subrange(0, 12),
                    p,
                ).subrange(16, 32) != self@.subrange(28, 44) ==> r is Err,
    {
        let key = match key_from_slice(key) {
            Ok(k) => k,
            Err(e) => return Err(Error::ConvertError(e)),
        };
        proof {
            assert(self.nonce@ =~= self@.subrange(0, 12));
            assert(self.token@ =~= self@.subrange(12, 28));
            assert(self.tag@ =~= self@.subrange(28, 44));
        }
        let r = open_detached(&key, &self.nonce, &self.token, &self.tag);
        proof {
            if let Ok(q) = r {
                let n = self@.subrange(0, 12);
                assert(self@ =~= n + (self.token@ + self.tag@));
                let sq = chacha20poly1305_seal(key@, n, q@);
                assert(sq.subrange(0, 16) =~= self.token@);
                assert(sq.subrange(16, 32) =~= self.tag@);
            }
        }
        match r {
            Ok(p) => Ok(p),
            Err(e) => Err(Error::from(e)),
        }
    }
}

impl TokenStrategyExt for Token {
    fn encrypt(key: &[u8]) -> (r: Result<(Self, [u8; 16]), Error>)
        ensures
            r matches Ok((t, p)) ==> {
                &&& key@.len() == 32
                &&& t@ == t@.subrange(0, 12) + chacha20poly1305_seal(key@, t@.subrange(0, 12), p@)
                &&& decrypt_outcome(t, key@) == Some(p@)
            },
            key@.len() != 32 ==> r is Err,
            r matches Err(e) ==> e is ByteFillError || (e is ConvertError && key@.len() != 32),
    {
        let mut nonce_bytes = [0u8; 12];
        let mut plaintext = [0u8; 16];
        if let Err(e) = fill_random(&mut nonce_bytes) {
            return Err(Error::ByteFillError(e));
        }
        if let Err(e) = fill_random(&mut plaintext) {
            return Err(Error::ByteFillError(e));
        }
        let r = Token::encrypt_with(key, nonce_bytes, plaintext);
        proof {
            if let Ok((t, p)) = r {
                assert(t@.subrange(0, 12) =~= nonce_bytes@);
            }
        }
        r
    }
}

} // verus!
