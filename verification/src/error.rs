use chacha20poly1305::Error as AeadError;
use core::array::TryFromSliceError;
use getrandom::Error as RandomError;
use vstd::prelude::*;
use vstd::string::StrSliceExecFns;
use vstd::string::StringExecFns;

verus! {

/// Declares `RandomError` (an operating-system error code) to Verus, which
/// sees nothing inside it.
#[verifier::external_type_specification]
#[verifier::external_body]
pub struct ExRandomError(RandomError);

/// Declares `core::array::TryFromSliceError` to Verus, which sees nothing inside it.
#[verifier::external_type_specification]
#[verifier::external_body]
pub struct ExTryFromSliceError(TryFromSliceError);

/// Declares `AeadError` (`aead::Error`, a unit struct) to Verus.
#[verifier::external_type_specification]
#[verifier::external_body]
pub struct ExAeadError(AeadError);

/// Possible error types which may occur in NFC card operations, HTTP requests, and database operations.
#[derive(Debug)]
pub enum Error {
    // System Errors
    NfcReadError,
    NfcWriteError,
    NfcCardEmpty,
    NfcCardUnrecognized,
    // General Card Errors, used for both HTTP and DB errors.
    CardAlreadyExist,
    CardNotFound,
    // Authentication Errors.
    CardDecryptionError,
    CardEncryptionError,
    // Database Errors.
    CommitError,
    DBError,
    // General Errors.
    ByteFillError(RandomError),
    ConvertError(TryFromSliceError),
}

/// The text that `aead::Error` displays.
///
/// Trusted: calls `<aead::Error as Display>::fmt` through `to_string`; aead 0.6's
/// source writes the constant string `aead::Error`, which is what the contract claims.
#[verifier::external_body]
fn aead_error_text(e: &AeadError) -> (r: String)
    ensures
        r@ == "aead::Error"@,
{
    e.to_string()
}

/// The text that a `getrandom::Error` displays.
///
/// Trusted: `<getrandom::Error as Display>::fmt` through `to_string`. Nothing is claimed of
/// the text, which depends on the operating-system error code inside the error.
#[verifier::external_body]
fn random_error_text(e: &RandomError) -> String {
    e.to_string()
}

/// The text that a `TryFromSliceError` displays.
///
/// Trusted: `<TryFromSliceError as Display>::fmt` through `to_string`. Nothing is claimed
/// of the text.
#[verifier::external_body]
fn slice_error_text(e: &TryFromSliceError) -> String {
    e.to_string()
}

/// `needle` occurs in `haystack` at position `i`.
pub open spec fn occurs_at(haystack: Seq<char>, needle: Seq<char>, i: int) -> bool {
    0 <= i && i + needle.len() <= haystack.len() && haystack.subrange(i, i + needle.len()) == needle
}

/// `needle` occurs somewhere in `haystack`.
pub open spec fn spec_contains(haystack: Seq<char>, needle: Seq<char>) -> bool {
    exists|i: int| occurs_at(haystack, needle, i)
}

/// Whether `needle` occurs as a run of characters inside `haystack`.
fn str_contains(haystack: &str, needle: &str) -> (r: bool)
    ensures
        r == spec_contains(haystack@, needle@),
{
    let h = haystack.unicode_len();
    let n = needle.unicode_len();
    if n > h {
        return false;
    }
    let mut i: usize = 0;
    while i <= h - n
        invariant
            h == haystack@.len(),
            n == needle@.len(),
            n <= h,
            i <= h - n + 1,
            forall|k: int| 0 <= k < i ==> !occurs_at(haystack@, needle@, k),
        decreases h - n + 1 - i,
    {
        let mut j: usize = 0;
        let mut same = true;
        while j < n
            invariant
                h == haystack@.len(),
                n == needle@.len(),
                i + n <= h,
                j <= n,
                same == (forall|m: int| 0 <= m < j ==> haystack@[i + m] == needle@[m]),
            decreases n - j,
        {
            if haystack.get_char(i + j) != needle.get_char(j) {
                same = false;
            }
            j = j + 1;
        }
        if same {
            assert(haystack@.subrange(i as int, i + n) =~= needle@);
            assert(occurs_at(haystack@, needle@, i as int));
            return true;
        }
        assert(!occurs_at(haystack@, needle@, i as int)) by {
            if occurs_at(haystack@, needle@, i as int) {
                assert forall|m: int| 0 <= m < n implies haystack@[i + m] == needle@[m] by {
                    assert(haystack@.subrange(i as int, i + n)[m] == haystack@[i + m]);
                }
            }
        }
        i = i + 1;
    }
    false
}

/// The text of error `e` when the error it carries (if any) displays `inner`.
pub open spec fn message_spec(e: Error, inner: Seq<char>) -> Seq<char> {
    match e {
        Error::ByteFillError(_) => "Failed to fill bytes: "@ + inner,
        Error::ConvertError(_) => "Failed to convert: "@ + inner,
        _ => error_message_spec(e),
    }
}

impl Error {
    /// The text that describes this error, given the text `inner` that the error it
    /// carries displays (unused by the errors that carry none).
    pub fn message_with(&self, inner: &str) -> (r: String)
        ensures
            r@ == message_spec(*self, inner@),
    {
        match self {
            Error::NfcReadError => String::from_str("Failed to read NFC card"),
            Error::NfcWriteError => String::from_str("Failed to write NFC card"),
            Error::NfcCardEmpty => String::from_str("This card is empty or unintialized"),
            Error::NfcCardUnrecognized => String::from_str("NFC card unrecognized"),
            Error::CardAlreadyExist => String::from_str("Card already exists"),
            Error::CardNotFound => String::from_str("Card not found"),
            Error::CardDecryptionError => String::from_str("Card decryption error"),
            Error::CardEncryptionError => String::from_str("Card encryption error"),
            Error::CommitError => String::from_str("Storage failed to commit"),
            Error::DBError => String::from_str("Database storage error"),
            Error::ByteFillError(_) => {
                let mut m = String::from_str("Failed to fill bytes: ");
                m.append(inner);
                m
            },
            Error::ConvertError(_) => {
                let mut m = String::from_str("Failed to convert: ");
                m.append(inner);
                m
            },
        }
    }

    /// The text that describes this error (what the error displays): its fixed text, or
    /// its prefix followed by the text that the error it carries displays.
    pub fn message(&self) -> (r: String)
        ensures
            exists|inner: Seq<char>| r@ == message_spec(*self, inner),
            match *self {
                Error::ByteFillError(_) => r@.len() >= 22 && r@.subrange(0, 22)
                    == "Failed to fill bytes: "@,
                Error::ConvertError(_) => r@.len() >= 19 && r@.subrange(0, 19)
                    == "Failed to convert: "@,
                _ => r@ == error_message_spec(*self),
            },
    {
        let r = match self {
            Error::ByteFillError(e) => {
                let inner = random_error_text(e);
                self.message_with(inner.as_str())
            },
            Error::ConvertError(e) => {
                let inner = slice_error_text(e);
                self.message_with(inner.as_str())
            },
            _ => self.message_with(""),
        };
        proof {
            reveal_strlit("Failed to fill bytes: ");
            reveal_strlit("Failed to convert: ");
            if let Error::ByteFillError(_) = *self {
                assert(r@.subrange(0, 22) =~= "Failed to fill bytes: "@);
            }
            if let Error::ConvertError(_) = *self {
                assert(r@.subrange(0, 19) =~= "Failed to convert: "@);
            }
        }
        r
    }
}

/// The text of each error that carries no inner error (those that carry one
/// display their prefix followed by the inner error's text).
pub open spec fn error_message_spec(e: Error) -> Seq<char> {
    match e {
        Error::NfcReadError => "Failed to read NFC card"@,
        Error::NfcWriteError => "Failed to write NFC card"@,
        Error::NfcCardEmpty => "This card is empty or unintialized"@,
        Error::NfcCardUnrecognized => "NFC card unrecognized"@,
        Error::CardAlreadyExist => "Card already exists"@,
        Error::CardNotFound => "Card not found"@,
        Error::CardDecryptionError => "Card decryption error"@,
        Error::CardEncryptionError => "Card encryption error"@,
        Error::CommitError => "Storage failed to commit"@,
        Error::DBError => "Database storage error"@,
        Error::ByteFillError(_) => Seq::empty(),
        Error::ConvertError(_) => Seq::empty(),
    }
}

impl From<AeadError> for Error {
    /// An AEAD failure is an encryption error when its text mentions "encrypt", and a
    /// decryption error otherwise; `aead::Error` always displays `aead::Error`.
    fn from(e: AeadError) -> (r: Self) {
        let src = aead_error_text(&e);
        proof {
            reveal_strlit("aead::Error");
            reveal_strlit("encrypt");
            assert forall|i: int| !occurs_at(src@, "encrypt"@, i) by {
                if occurs_at(src@, "encrypt"@, i) {
                    assert(src@.subrange(i, i + 7)[0] == src@[i]);
                    assert(src@.subrange(i, i + 7)[1] == src@[i + 1]);
                }
            }
        }
        if str_contains(src.as_str(), "encrypt") {
            Error::CardEncryptionError
        } else {
            Error::CardDecryptionError
        }
    }
}

impl vstd::std_specs::convert::FromSpecImpl<AeadError> for Error {
    open spec fn obeys_from_spec() -> bool {
        true
    }

    open spec fn from_spec(e: AeadError) -> Self {
        Error::CardDecryptionError
    }
}

impl From<TryFromSliceError> for Error {
    fn from(e: TryFromSliceError) -> (r: Self) {
        Error::ConvertError(e)
    }
}

impl vstd::std_specs::convert::FromSpecImpl<TryFromSliceError> for Error {
    open spec fn obeys_from_spec() -> bool {
        true
    }

    open spec fn from_spec(e: TryFromSliceError) -> Self {
        Error::ConvertError(e)
    }
}

impl From<RandomError> for Error {
    fn from(e: RandomError) -> (r: Self) {
        Error::ByteFillError(e)
    }
}

impl vstd::std_specs::convert::FromSpecImpl<RandomError> for Error {
    open spec fn obeys_from_spec() -> bool {
        true
    }

    open spec fn from_spec(e: RandomError) -> Self {
        Error::ByteFillError(e)
    }
}

} // verus!
