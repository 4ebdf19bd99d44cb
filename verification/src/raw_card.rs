use crate::auth::{byte_order, lemma_token_eq, lemma_token_len, Token};
use core::cmp::Ordering;
use vstd::prelude::*;
use vstd::string::is_ascii;
use vstd::string::StrSliceExecFns;
use vstd::string::StringExecFns;

verus! {

broadcast use vstd::array::group_array_axioms;

/// An NFC card UID: an array of 10 bytes.
#[derive(Clone, Copy, Debug, Hash, PartialEq, Eq)]
pub struct CardID(pub [u8; 10]);

impl From<[u8; 10]> for CardID {
    fn from(bytes: [u8; 10]) -> (r: Self) {
        CardID(bytes)
    }
}

impl vstd::std_specs::convert::FromSpecImpl<[u8; 10]> for CardID {
    open spec fn obeys_from_spec() -> bool {
        true
    }

    open spec fn from_spec(bytes: [u8; 10]) -> Self {
        CardID(bytes)
    }
}

impl AsRef<[u8]> for CardID {
    fn as_ref(&self) -> (r: &[u8])
        ensures
            r@ == self.0@,
    {
        self.0.as_slice()
    }
}

/// The upper-case hexadecimal digit of `n` (0 to 15).
pub open spec fn hex_digit(n: int) -> char {
    if n < 10 {
        (48 + n) as char
    } else {
        (55 + n) as char
    }
}

/// The two upper-case hexadecimal digits of a byte, high nibble first.
pub open spec fn hex_pair(b: u8) -> Seq<char> {
    seq![hex_digit(b as int / 16), hex_digit(b as int % 16)]
}

/// The text of the first `n` (at most 4) bytes of a UID: each byte as two hex digits,
/// with a colon after each of the first three.
pub open spec fn uid_text_upto(uid: Seq<u8>, n: int) -> Seq<char>
    decreases n,
{
    if n <= 0 {
        Seq::empty()
    } else {
        uid_text_upto(uid, n - 1) + hex_pair(uid[n - 1]) + if n - 1 < 3 {
            seq![':']
        } else {
            Seq::empty()
        }
    }
}

/// The value that an upper-case hexadecimal digit character stands for:
/// `'0'`..`'9'` are 0 to 9, `'A'`..`'F'` are 10 to 15.
pub open spec fn hex_value(c: char) -> int {
    if c as int <= '9' as int {
        c as int - '0' as int
    } else {
        c as int - 'A' as int + 10
    }
}

/// Whether `c` is the standard upper-case hexadecimal digit of the nibble `n`:
/// `'0' + n` below ten, `'A' + (n - 10)` from ten on.
pub open spec fn is_hex_digit_of(c: char, n: int) -> bool {
    if n < 10 {
        c as int == '0' as int + n
    } else {
        c as int == 'A' as int + (n - 10)
    }
}

/// The byte that the two-character group `i` of UID text reads back as, in hexadecimal.
pub open spec fn group_value(text: Seq<char>, i: int) -> int {
    16 * hex_value(text[3 * i]) + hex_value(text[3 * i + 1])
}

/// UID text is standard hexadecimal: for each of the first four bytes, its group holds
/// the upper-case digit of the high nibble and then of the low nibble, the group reads
/// back as that byte, and the groups are separated by colons.
pub proof fn lemma_uid_text_is_hex(uid: Seq<u8>)
    requires
        uid.len() >= 4,
    ensures
        uid_text(uid).len() == 11,
        uid_text(uid)[2] == ':',
        uid_text(uid)[5] == ':',
        uid_text(uid)[8] == ':',
        forall|i: int|
            0 <= i < 4 ==> is_hex_digit_of(#[trigger] uid_text(uid)[3 * i], uid[i] as int / 16)
                && is_hex_digit_of(uid_text(uid)[3 * i + 1], uid[i] as int % 16),
        forall|i: int| 0 <= i < 4 ==> #[trigger] group_value(uid_text(uid), i) == uid[i] as int,
{
    reveal_with_fuel(uid_text_upto, 5);
    let t = uid_text(uid);
    assert(t =~= hex_pair(uid[0]) + seq![':'] + hex_pair(uid[1]) + seq![':'] + hex_pair(uid[2])
        + seq![':'] + hex_pair(uid[3]));
    assert forall|i: int| 0 <= i < 4 implies is_hex_digit_of(#[trigger] t[3 * i], uid[i] as int / 16)
        && is_hex_digit_of(t[3 * i + 1], uid[i] as int % 16) && group_value(t, i) == uid[i] as int by {
        let b = uid[i];
        assert(t[3 * i] == hex_digit(b as int / 16));
        assert(t[3 * i + 1] == hex_digit(b as int % 16));
    }
    assert forall|i: int| 0 <= i < 4 implies #[trigger] group_value(t, i) == uid[i] as int by {
        assert(is_hex_digit_of(t[3 * i], uid[i] as int / 16));
    }
}

/// A character of UID text: an upper-case hex digit (`0`-`9`, `A`-`F`) or a colon, all
/// of them ASCII.
pub open spec fn uid_char(c: char) -> bool {
    (48 <= c as int <= 58) || (65 <= c as int <= 70)
}

/// Every character of the first `n` bytes' text is a hex digit or a colon.
proof fn lemma_uid_text_chars(uid: Seq<u8>, n: int)
    requires
        0 <= n <= 4,
        uid.len() >= 4,
    ensures
        forall|i: int| 0 <= i < uid_text_upto(uid, n).len() ==> uid_char(
            #[trigger] uid_text_upto(uid, n)[i],
        ),
    decreases n,
{
    if n > 0 {
        lemma_uid_text_chars(uid, n - 1);
        let b = uid[n - 1];
        let hi = b as int / 16;
        let lo = b as int % 16;
        assert(uid_char(hex_digit(hi)));
        assert(uid_char(hex_digit(lo)));
        assert(uid_char(':'));
        let prev = uid_text_upto(uid, n - 1);
        let tail = hex_pair(b) + if n - 1 < 3 {
            seq![':']
        } else {
            Seq::empty()
        };
        assert(uid_text_upto(uid, n) =~= prev + tail);
        assert forall|i: int| 0 <= i < uid_text_upto(uid, n).len() implies uid_char(
            #[trigger] uid_text_upto(uid, n)[i],
        ) by {
            if i >= prev.len() {
                assert(uid_text_upto(uid, n)[i] == tail[i - prev.len()]);
            } else {
                assert(uid_text_upto(uid, n)[i] == prev[i]);
            }
        }
    }
}

/// A UID as text: its first four bytes in upper-case hex separated by colons,
/// such as `04:A1:FF:3C`.
pub open spec fn uid_text(uid: Seq<u8>) -> Seq<char> {
    uid_text_upto(uid, 4)
}

impl CardID {
    /// A UID of ten zero bytes.
    pub fn new_zeroed() -> (r: Self)
        ensures
            r.0@ == Seq::new(10, |i: int| 0u8),
    {
        let r = CardID([0u8; 10]);
        assert(r.0@ =~= Seq::new(10, |i: int| 0u8));
        r
    }

    /// The UID's first four bytes as colon-separated upper-case hex, such as `04:A1:FF:3C`.
    pub fn as_str(&self) -> (r: String)
        ensures
            r@ == uid_text(self.0@),
            r@.len() == 11,
            forall|i: int| 0 <= i < r@.len() ==> uid_char(#[trigger] r@[i]),
            forall|i: int| 0 <= i < 4 ==> #[trigger] group_value(r@, i) == self.0@[i] as int,
    {
        let table = "0123456789ABCDEF";
        proof {
            reveal_strlit("0123456789ABCDEF");
            reveal_strlit(":");
            assert forall|n: int| 0 <= n < 16 implies table@[n] == hex_digit(n) by {}
            assert(is_ascii(table));
        }
        let mut out = String::new();
        let mut i: usize = 0;
        while i < 4
            invariant
                i <= 4,
                table@ == "0123456789ABCDEF"@,
                is_ascii(table),
                table@.len() == 16,
                forall|n: int| 0 <= n < 16 ==> table@[n] == hex_digit(n),
                ":"@ == seq![':'],
                out@ == uid_text_upto(self.0@, i as int),
                out@.len() == 3 * i - if i == 4 { 1int } else { 0int },
            decreases 4 - i,
        {
            let b = self.0[i];
            let hi = (b / 16) as usize;
            let lo = (b % 16) as usize;
            out.append(table.substring_ascii(hi, hi + 1));
            out.append(table.substring_ascii(lo, lo + 1));
            if i < 3 {
                out.append(":");
            }
            proof {
                assert(table@.subrange(hi as int, hi + 1) =~= seq![hex_digit(b as int / 16)]);
                assert(table@.subrange(lo as int, lo + 1) =~= seq![hex_digit(b as int % 16)]);
                assert(out@ =~= uid_text_upto(self.0@, i + 1));
            }
            i = i + 1;
        }
        proof {
            lemma_uid_text_chars(self.0@, 4);
            lemma_uid_text_is_hex(self.0@);
        }
        out
    }

    /// The UID's bytes.
    pub fn as_slice(&self) -> (r: &[u8])
        ensures
            r@ == self.0@,
    {
        self.0.as_slice()
    }
}

/// The data that physically lives inside an NFC card: currently one encrypted
/// [`Token`], used to check whether a card may perform certain actions.
#[derive(Clone, Copy, PartialEq, Eq, Ord)]
pub struct RawCard {
    auth: Token,
}

impl View for RawCard {
    type V = Seq<u8>;

    /// The card's 44 bytes: those of its token.
    closed spec fn view(&self) -> Seq<u8> {
        self.auth@
    }
}

impl PartialOrd for RawCard {
    /// Raw cards are ordered by their bytes, lexicographically.
    fn partial_cmp(&self, other: &Self) -> (r: Option<Ordering>) {
        self.auth.partial_cmp(&other.auth)
    }
}

impl vstd::std_specs::cmp::PartialOrdSpecImpl for RawCard {
    open spec fn obeys_partial_cmp_spec() -> bool {
        true
    }

    open spec fn partial_cmp_spec(&self, other: &Self) -> Option<Ordering> {
        Some(byte_order(self@, other@))
    }
}

/// A raw card is 44 bytes long.
pub broadcast proof fn lemma_raw_card_len(c: RawCard)
    ensures
        #[trigger] c@.len() == 44,
{
    lemma_token_len(c.auth);
}

/// A raw card is determined by its bytes: two cards with the same bytes are the
/// same card, so reading back the bytes that [`RawCard::as_slice`] gives yields the
/// card itself.
pub proof fn lemma_raw_card_eq(a: RawCard, b: RawCard)
    requires
        a@ == b@,
    ensures
        a == b,
{
    lemma_token_eq(a.auth, b.auth);
}

/// Copies `bytes[start..start + N]` into `dest`.
fn copy_from<const N: usize>(dest: &mut [u8; N], bytes: &[u8], start: usize)
    requires
        start + N <= bytes@.len(),
    ensures
        final(dest)@ == bytes@.subrange(start as int, start + N),
{
    let mut i: usize = 0;
    while i < N
        invariant
            start + N <= bytes.len(),
            i <= N,
            dest@.len() == N,
            forall|k: int| 0 <= k < i ==> dest@[k] == bytes@[start + k],
        decreases N - i,
    {
        dest[i] = bytes[start + i];
        i = i + 1;
    }
    assert(dest@ =~= bytes@.subrange(start as int, start + N));
}

impl RawCard {
    pub fn new(auth: Token) -> (r: Self)
        ensures
            r@ == auth@,
    {
        RawCard { auth }
    }

    /// A card whose 44 bytes are all zero.
    pub fn zeroed() -> (r: Self)
        ensures
            r@ == Seq::new(44, |i: int| 0u8),
    {
        let r = RawCard { auth: Token::from_raw([0u8; 12], [0u8; 16], [0u8; 16]) };
        assert(r@ =~= Seq::new(44, |i: int| 0u8));
        r
    }

    /// The card's bytes, which [`RawCard::from_bytes`] turns back into the card.
    pub fn as_slice(&self) -> (r: Vec<u8>)
        ensures
            r@ == self@,
    {
        let mut out: Vec<u8> = Vec::new();
        out.extend_from_slice(self.auth.nonce());
        out.extend_from_slice(self.auth.token());
        out.extend_from_slice(self.auth.tag());
        proof {
            lemma_token_len(self.auth);
            assert(out@ =~= self@);
        }
        out
    }

    /// The card laid out in `bytes`, when they are exactly 44 bytes long.
    pub fn from_bytes(bytes: &[u8]) -> (r: Option<Self>)
        ensures
            r is Some <==> bytes@.len() == 44,
            r matches Some(c) ==> c@ == bytes@,
    {
        if bytes.len() != 44 {
            return None;
        }
        let mut nonce = [0u8; 12];
        let mut token = [0u8; 16];
        let mut tag = [0u8; 16];
        copy_from(&mut nonce, bytes, 0);
        copy_from(&mut token, bytes, 12);
        copy_from(&mut tag, bytes, 28);
        let c = RawCard { auth: Token::from_raw(nonce, token, tag) };
        assert(c@ =~= bytes@);
        Some(c)
    }
}

} // verus!
