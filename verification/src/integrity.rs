//! Integrity verification of the companion executable: the published digest
//! file is parsed (first whitespace-delimited token, lowercase or uppercase
//! hex), the executable is streamed chunk by chunk through SHA-256, and the
//! two digests are compared byte for byte.  Verification fails closed: every
//! failure condition is a distinct error and blocks the launch.

use vstd::prelude::*;
use crate::text::{spec_first_token, first_token};

verus! {

/// Why an integrity check failed.  `ExecutableMissing` and
/// `DigestFileMissing` are produced by the caller that touches the file
/// system; the parser and comparator here produce the other two.
#[derive(PartialEq, Eq, Structural, Clone, Copy, Debug)]
pub enum IntegrityError {
    /// The executable to verify does not exist.
    ExecutableMissing,
    /// The published digest file does not exist.
    DigestFileMissing,
    /// The digest file holds no token, or its first token is not valid hex.
    DigestMalformed,
    /// The executable's digest differs from the published one.
    DigestMismatch,
}

impl IntegrityError {
    /// Human-readable failure reason.
    pub fn describe(&self) -> (r: &'static str)
        ensures
            *self == IntegrityError::ExecutableMissing ==> r@ == "sidecar executable not found"@,
            *self == IntegrityError::DigestFileMissing ==> r@ == "sidecar checksum not found"@,
            *self == IntegrityError::DigestMalformed ==> r@ == "invalid checksum format"@,
            *self == IntegrityError::DigestMismatch ==> r@ == "sidecar checksum mismatch"@,
    {
        match self {
            IntegrityError::ExecutableMissing => "sidecar executable not found",
            IntegrityError::DigestFileMissing => "sidecar checksum not found",
            IntegrityError::DigestMalformed => "invalid checksum format",
            IntegrityError::DigestMismatch => "sidecar checksum mismatch",
        }
    }
}

/// Whether `b` is an ASCII hex digit, upper or lower case.
pub open spec fn is_hex_digit(b: u8) -> bool {
    (48 <= b <= 57) || (97 <= b <= 102) || (65 <= b <= 70)
}

/// Numeric value of the hex digit `b`.
pub open spec fn hex_val(b: u8) -> nat {
    if 48 <= b <= 57 {
        (b - 48) as nat
    } else if 97 <= b <= 102 {
        (b - 97 + 10) as nat
    } else if 65 <= b <= 70 {
        (b - 65 + 10) as nat
    } else {
        0
    }
}

/// `s` is a decodable hex string: even length, hex digits only.
pub open spec fn spec_hex_valid(s: Seq<u8>) -> bool {
    s.len() % 2 == 0 && forall|i: int| 0 <= i < s.len() ==> is_hex_digit(#[trigger] s[i])
}

/// The bytes denoted by the hex string `s`, most significant digit first.
pub open spec fn spec_hex_decode(s: Seq<u8>) -> Seq<u8> {
    Seq::new((s.len() / 2) as nat, |i: int| (hex_val(s[2 * i]) * 16 + hex_val(s[2 * i + 1])) as u8)
}

/// Relies on hex::decode: it succeeds exactly on even-length strings of hex
/// digits (either case), pairing digits most-significant first.
#[verifier::external_body]
fn hex_decode(data: &[u8]) -> (r: Option<Vec<u8>>)
    ensures
        r is Some <==> spec_hex_valid(data@),
        r is Some ==> r->0@ == spec_hex_decode(data@),
{
    match hex::decode(data) {
        Ok(v) => Some(v),
        Err(_) => None,
    }
}

/// Mathematical SHA-256: the digest of a byte sequence, a function of the
/// bytes alone, left abstract.  The wrappers on `Sha256Stream` tie it to the
/// sha2 crate's implementation.
pub uninterp spec fn sha256_of(data: Seq<u8>) -> Seq<u8>;

/// The bytes a streaming hasher has absorbed so far.
pub uninterp spec fn absorbed_bytes(h: Sha256Stream) -> Seq<u8>;

/// Streaming SHA-256 accumulator.  The struct is opaque to the verifier; its
/// contents are modelled by `absorbed_bytes`.
#[verifier::external_body]
pub struct Sha256Stream {
    inner: sha2::Sha256,
}

impl Sha256Stream {
    /// Relies on sha2::Sha256::new: a fresh hasher has absorbed nothing.
    #[verifier::external_body]
    fn new() -> (r: Self)
        ensures
            absorbed_bytes(r) == Seq::<u8>::empty(),
    {
        Sha256Stream { inner: <sha2::Sha256 as sha2::Digest>::new() }
    }

    /// Relies on sha2::Sha256::update: absorbs `chunk` after everything
    /// absorbed before.
    #[verifier::external_body]
    fn update(&mut self, chunk: &[u8])
        ensures
            absorbed_bytes(*final(self)) == absorbed_bytes(*old(self)) + chunk@,
    {
        sha2::Digest::update(&mut self.inner, chunk);
    }

    /// Relies on sha2::Sha256::finalize: returns the 32-byte SHA-256 digest
    /// of everything absorbed.
    #[verifier::external_body]
    fn finalize(self) -> (r: Vec<u8>)
        ensures
            r@ == sha256_of(absorbed_bytes(self)),
            r@.len() == 32,
    {
        <sha2::Sha256 as sha2::Digest>::finalize(self.inner).to_vec()
    }
}

/// The digest a well-formed digest file denotes: the hex decoding of its
/// first whitespace-delimited token; `None` when there is no token or the
/// token is not valid hex.
pub open spec fn spec_parse_digest(text: Seq<u8>) -> Option<Seq<u8>> {
    match spec_first_token(text) {
        Some(tok) => if spec_hex_valid(tok) {
            Some(spec_hex_decode(tok))
        } else {
            None
        },
        None => None,
    }
}

/// Parse a digest file: hex-decode the first whitespace-delimited token,
/// ignoring any trailing tokens (such as a file name).
pub fn parse_digest(text: &[u8]) -> (r: Result<Vec<u8>, IntegrityError>)
    ensures
        r is Ok <==> spec_parse_digest(text@) is Some,
        r is Ok ==> r->Ok_0@ == spec_parse_digest(text@)->0,
        r is Err ==> r->Err_0 == IntegrityError::DigestMalformed,
{
    match first_token(text) {
        Some(tok) => match hex_decode(tok) {
            Some(bytes) => Ok(bytes),
            None => Err(IntegrityError::DigestMalformed),
        },
        None => Err(IntegrityError::DigestMalformed),
    }
}

/// Only the first token of a digest file matters: two files with the same
/// first whitespace-delimited token denote the same digest, whatever
/// trailing metadata follows.
pub proof fn lemma_digest_ignores_trailing_tokens(t1: Seq<u8>, t2: Seq<u8>)
    requires
        spec_first_token(t1) == spec_first_token(t2),
    ensures
        spec_parse_digest(t1) == spec_parse_digest(t2),
{
}

/// Compare a computed digest against a digest file, reporting exactly why
/// the comparison failed, if it did.
pub fn check_digest(actual: &[u8], digest_text: &[u8]) -> (r: Result<(), IntegrityError>)
    ensures
        r is Ok <==> spec_parse_digest(digest_text@) == Some(actual@),
        spec_parse_digest(digest_text@) is None ==> r == Err::<(), _>(
            IntegrityError::DigestMalformed,
        ),
        (spec_parse_digest(digest_text@) is Some && spec_parse_digest(digest_text@) != Some(
            actual@,
        )) ==> r == Err::<(), _>(IntegrityError::DigestMismatch),
{
    let expected = match parse_digest(digest_text) {
        Ok(v) => v,
        Err(e) => {
            return Err(e);
        },
    };
    if crate::text::bytes_eq(actual, expected.as_slice()) {
        Ok(())
    } else {
        Err(IntegrityError::DigestMismatch)
    }
}

/// An in-progress integrity check of one executable.  The caller streams the
/// executable's bytes in through `feed` in bounded chunks — the file is
/// never loaded whole — and concludes against the digest file's text.
pub struct IntegrityCheck {
    stream: Sha256Stream,
}

impl IntegrityCheck {
    /// The executable bytes streamed in so far.
    pub closed spec fn absorbed(self) -> Seq<u8> {
        absorbed_bytes(self.stream)
    }

    /// Start a check; nothing has been streamed yet.
    pub fn begin() -> (r: Self)
        ensures
            r.absorbed() == Seq::<u8>::empty(),
    {
        IntegrityCheck { stream: Sha256Stream::new() }
    }

    /// Stream the next chunk of the executable.
    pub fn feed(&mut self, chunk: &[u8])
        ensures
            final(self).absorbed() == old(self).absorbed() + chunk@,
    {
        self.stream.update(chunk);
    }

    /// Conclude the check against the digest file's text.  Succeeds exactly
    /// when the text parses to a digest equal to the SHA-256 digest of all
    /// streamed bytes; a file that does not parse reports `DigestMalformed`,
    /// a differing digest reports `DigestMismatch`.
    pub fn conclude(self, digest_text: &[u8]) -> (r: Result<(), IntegrityError>)
        ensures
            r is Ok <==> spec_parse_digest(digest_text@) == Some(sha256_of(self.absorbed())),
            spec_parse_digest(digest_text@) is None ==> r == Err::<(), _>(
                IntegrityError::DigestMalformed,
            ),
            (spec_parse_digest(digest_text@) is Some && spec_parse_digest(digest_text@) != Some(
                sha256_of(self.absorbed()),
            )) ==> r == Err::<(), _>(IntegrityError::DigestMismatch),
    {
        let actual = self.stream.finalize();
        check_digest(actual.as_slice(), digest_text)
    }
}

} // verus!
