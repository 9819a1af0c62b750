//! The cryptographic edge of the provider: RSA key-exchange decryption and
//! PBKDF2 credential hashing. The outside calls stand behind trusted
//! wrappers whose results are named; everything around them — the tolerant
//! base64 handling, the NUL-padding trim, the verify-by-recompute rule — is
//! verified against those names.

use vstd::prelude::*;
use vstd::string::*;
use vstd::utf8::encode_utf8;

use crate::error::{AppError, ServiceError};
use crate::session::{spec_extract_private_key, extract_private_key, SessionEntry, SessionStore};

verus! {

// ---------------------------------------------------------------------------
// Named results of the outside calls.
// ---------------------------------------------------------------------------

/// What PKCS#1 v1.5 decryption under the key of `pem` writes for `ct`: the
/// unpadded plaintext followed by the zero bytes left in the output buffer
/// (one key size of bytes in all), or `None` when the key rejects the
/// ciphertext.
pub uninterp spec fn rsa_decrypt_of(pem: Seq<char>, ct: Seq<u8>) -> Option<Seq<u8>>;

/// The PBKDF2 password hash for a password and salt, base64-encoded: a
/// function of the two arguments alone.
pub uninterp spec fn pbkdf2_hash_of(password: Seq<char>, salt: Seq<char>) -> Seq<char>;

/// Whether the salt string is accepted by the salt parsing and B64 decoding
/// that PBKDF2 hashing performs: a function of the salt alone.
pub uninterp spec fn salt_ok_of(salt: Seq<char>) -> bool;

/// Whether the PEM text parses as an RSA private key: a function of the
/// text alone.
pub uninterp spec fn rsa_key_ok_of(pem: Seq<char>) -> bool;

/// The PEM text of the public half of the key in the private PEM: a
/// function of the key alone.
pub uninterp spec fn rsa_public_pem_of(private_pem: Seq<char>) -> Seq<char>;

/// The modulus size, in bits, of the key in the private PEM: a function of
/// the key alone.
pub uninterp spec fn rsa_keysize_of(private_pem: Seq<char>) -> nat;

/// What standard (padded) base64 decoding yields, or `None` on malformed
/// input.
pub uninterp spec fn base64_decode_of(s: Seq<char>) -> Option<Seq<u8>>;

/// What URL-safe unpadded base64 encoding yields.
pub uninterp spec fn b64url_of(b: Seq<u8>) -> Seq<char>;

/// The character sequence a byte sequence decodes to as UTF-8, or `None`
/// when it is not valid UTF-8.
pub uninterp spec fn utf8_chars_of(v: Seq<u8>) -> Option<Seq<char>>;

// ---------------------------------------------------------------------------
// Trusted wrappers.
// ---------------------------------------------------------------------------

/// Why an RSA private-key decryption call failed.
#[derive(Clone, Copy, PartialEq, Eq, Structural, Debug)]
pub enum RsaDecryptFailure {
    /// The PEM text did not parse as a private key: an infrastructure fault,
    /// since the provider only stores keys it generated itself.
    InvalidKey,
    /// The key rejected the ciphertext: bad padding, wrong key, tampering.
    DecryptionFailed,
}

/// Relies on openssl's `Rsa::generate`, `private_key_to_pem` and
/// `public_key_to_pem`: generates a fresh keypair of the requested modulus
/// size and returns both halves as PEM text. The key itself is random, but
/// the two halves belong to one key: the public PEM is the public half of
/// the private PEM, the private PEM parses back (openssl reads its own PEM
/// output), and the modulus size is the one requested.
#[verifier::external_body]
pub(crate) fn generate_rsa_keypair(bits: u32) -> (r: Result<(String, String), ()>)
    ensures
        r matches Ok(kp) ==> kp.1@ == rsa_public_pem_of(kp.0@) && rsa_key_ok_of(kp.0@)
            && rsa_keysize_of(kp.0@) == bits as nat,
{
    let rsa = openssl::rsa::Rsa::generate(bits).map_err(|_| ())?;
    let private_pem = rsa.private_key_to_pem().map_err(|_| ())?;
    let public_pem = rsa.public_key_to_pem().map_err(|_| ())?;
    let private_text = String::from_utf8(private_pem).map_err(|_| ())?;
    let public_text = String::from_utf8(public_pem).map_err(|_| ())?;
    Ok((private_text, public_text))
}

/// Relies on openssl's `Rsa::private_key_from_pem` and `private_decrypt`
/// with PKCS#1 v1.5 padding: decrypts into a buffer of one key size, whose
/// full contents (plaintext, then the zero bytes it left untouched) are
/// returned, exactly as `rsa_decrypt_of` names them. `private_decrypt`
/// panics on oversized input, so the length bound is required here.
#[verifier::external_body]
fn rsa_private_decrypt(private_pem: &str, ciphertext: &[u8]) -> (r: Result<
    Vec<u8>,
    RsaDecryptFailure,
>)
    requires
        ciphertext@.len() <= 0x7fffffff,
    ensures
        r is Ok <==> (rsa_key_ok_of(private_pem@) && rsa_decrypt_of(private_pem@, ciphertext@)
            is Some),
        r matches Ok(b) ==> rsa_decrypt_of(private_pem@, ciphertext@) == Some(b@),
        r matches Err(f) ==> (f == RsaDecryptFailure::InvalidKey <==> !rsa_key_ok_of(
            private_pem@,
        )),
{
    let key = openssl::rsa::Rsa::private_key_from_pem(private_pem.as_bytes())
        .map_err(|_| RsaDecryptFailure::InvalidKey)?;
    let mut buf: Vec<u8> = vec![0; key.size() as usize];
    key.private_decrypt(ciphertext, &mut buf, openssl::rsa::Padding::PKCS1)
        .map_err(|_| RsaDecryptFailure::DecryptionFailed)?;
    Ok(buf)
}

/// Relies on pbkdf2's `Pbkdf2.hash_password` (via a `SaltString` built from
/// the given salt) and `Output::b64_encode`: the base64-encoded hash is a
/// function of password and salt alone. The call fails exactly when the
/// salt string is rejected (its parsing or B64 decoding): every later step
/// — the fixed algorithm identifier, the 32-byte output, its encoding into
/// an ample buffer — is infallible in this version.
#[verifier::external_body]
fn pbkdf2_hash(password: &str, salt: &str) -> (r: Result<String, ()>)
    ensures
        r is Ok <==> salt_ok_of(salt@),
        r matches Ok(h) ==> h@ == pbkdf2_hash_of(password@, salt@),
{
    let salt_string = pbkdf2::password_hash::SaltString::new(salt).map_err(|_| ())?;
    let pw = password.as_bytes();
    let hashed = pbkdf2::password_hash::PasswordHasher::hash_password(&pbkdf2::Pbkdf2, pw, &salt_string)
        .map_err(|_| ())?;
    let out = hashed.hash.ok_or(())?;
    let mut buffer: Vec<u8> = vec![0; out.b64_len() * 8];
    let encoded = out.b64_encode(&mut buffer).map_err(|_| ())?;
    Ok(encoded.to_string())
}

/// Relies on password-hash's `SaltString::generate` over the operating
/// system's randomness: a fresh salt. Its value is random, but its shape is
/// not: a generated salt is the B64 text of sixteen random bytes, which the
/// salt parsing and decoding always accept.
#[verifier::external_body]
pub(crate) fn generate_salt() -> (r: String)
    ensures
        salt_ok_of(r@),
{
    let salt = pbkdf2::password_hash::SaltString::generate(&mut rand_core::OsRng);
    salt.as_str().to_owned()
}

/// Relies on base64's standard-alphabet, padded `decode`: the result is a
/// function of the input alone.
#[verifier::external_body]
fn base64_decode(content: &str) -> (r: Option<Vec<u8>>)
    ensures
        r is Some <==> base64_decode_of(content@) is Some,
        r matches Some(b) ==> base64_decode_of(content@) == Some(b@),
{
    match base64::Engine::decode(&base64::engine::general_purpose::STANDARD, content) {
        Ok(v) => Some(v),
        Err(_) => None,
    }
}

/// Relies on base64's URL-safe unpadded `encode`: the result is a function
/// of the input alone.
#[verifier::external_body]
pub(crate) fn base64url_nopad_encode(b: &[u8]) -> (r: String)
    ensures
        r@ == b64url_of(b@),
{
    base64::Engine::encode(&base64::engine::general_purpose::URL_SAFE_NO_PAD, b)
}

/// Relies on `String::from_utf8`: succeeds exactly on valid UTF-8, and the
/// returned string's byte encoding is the input.
#[verifier::external_body]
fn bytes_to_utf8(v: Vec<u8>) -> (r: Option<String>)
    ensures
        r is Some <==> utf8_chars_of(v@) is Some,
        r matches Some(s) ==> utf8_chars_of(v@) == Some(s@) && encode_utf8(s@) == v@,
{
    match String::from_utf8(v) {
        Ok(s) => Some(s),
        Err(_) => None,
    }
}

/// Relies on uuid's `Uuid::new_v4`: a fresh random identifier in the
/// hyphenated form, which is documented to be 36 characters.
#[verifier::external_body]
pub(crate) fn fresh_uuid() -> (r: String)
    ensures
        r@.len() == 36,
{
    uuid::Uuid::new_v4().to_string()
}

// ---------------------------------------------------------------------------
// NUL-padding trim.
// ---------------------------------------------------------------------------

pub open spec fn spec_trim_start_nuls(s: Seq<char>) -> Seq<char>
    decreases s.len(),
{
    if s.len() > 0 && s[0] == '\0' {
        spec_trim_start_nuls(s.drop_first())
    } else {
        s
    }
}

pub open spec fn spec_trim_end_nuls(s: Seq<char>) -> Seq<char>
    decreases s.len(),
{
    if s.len() > 0 && s[s.len() - 1] == '\0' {
        spec_trim_end_nuls(s.drop_last())
    } else {
        s
    }
}

/// The string with NUL characters removed from both ends, as trimming a
/// decrypted buffer does.
pub open spec fn spec_trim_nuls(s: Seq<char>) -> Seq<char> {
    spec_trim_end_nuls(spec_trim_start_nuls(s))
}

proof fn lemma_trim_start_at(s: Seq<char>, a: int)
    requires
        0 <= a <= s.len(),
        forall|j: int| 0 <= j < a ==> s[j] == '\0',
        a == s.len() || s[a] != '\0',
    ensures
        spec_trim_start_nuls(s) =~= s.skip(a),
    decreases a,
{
    if a == 0 {
        assert(s.skip(0) =~= s);
    } else {
        assert(s[0] == '\0');
        assert(forall|j: int| 0 <= j < a - 1 ==> s.drop_first()[j] == s[j + 1] && s[j + 1] == '\0');
        lemma_trim_start_at(s.drop_first(), a - 1);
        assert(s.drop_first().skip(a - 1) =~= s.skip(a));
    }
}

proof fn lemma_trim_end_at(s: Seq<char>, b: int)
    requires
        0 <= b <= s.len(),
        forall|j: int| b <= j < s.len() ==> s[j] == '\0',
        b == 0 || s[b - 1] != '\0',
    ensures
        spec_trim_end_nuls(s) =~= s.take(b),
    decreases s.len() - b,
{
    if b == s.len() {
        if s.len() > 0 && s[s.len() - 1] == '\0' {
            assert(s[b - 1] != '\0');
            assert(false);
        }
        assert(s.take(b) =~= s);
    } else {
        assert(s[s.len() - 1] == '\0');
        assert(forall|j: int| b <= j < s.drop_last().len() ==> s.drop_last()[j] == s[j]);
        lemma_trim_end_at(s.drop_last(), b);
        assert(s.drop_last().take(b) =~= s.take(b));
    }
}

/// Strips NUL characters from both ends of the string, as the decrypted
/// PKCS#1 buffer requires.
pub fn trim_nul_chars(s: &str) -> (r: String)
    ensures
        r@ == spec_trim_nuls(s@),
{
    let n = s.unicode_len();
    let mut a: usize = 0;
    loop
        invariant
            n == s@.len(),
            0 <= a <= n,
            forall|j: int| 0 <= j < a ==> s@[j] == '\0',
        ensures
            0 <= a <= n,
            forall|j: int| 0 <= j < a ==> s@[j] == '\0',
            a == n || s@[a as int] != '\0',
        decreases n - a,
    {
        if a == n {
            break ;
        }
        if s.get_char(a) != '\0' {
            break ;
        }
        a = a + 1;
    }
    proof {
        lemma_trim_start_at(s@, a as int);
    }
    if a == n {
        proof {
            assert(s@.skip(a as int) =~= Seq::<char>::empty());
            assert(spec_trim_nuls(s@) =~= Seq::<char>::empty());
        }
        return String::new();
    }
    let mut b: usize = n;
    loop
        invariant
            n == s@.len(),
            a < n,
            s@[a as int] != '\0',
            a < b <= n,
            forall|j: int| b <= j < n ==> s@[j] == '\0',
        ensures
            a < b <= n,
            forall|j: int| b <= j < n ==> s@[j] == '\0',
            s@[b - 1] != '\0',
        decreases b,
    {
        if s.get_char(b - 1) != '\0' {
            break ;
        }
        proof {
            if b - 1 == a {
                assert(false);
            }
        }
        b = b - 1;
    }
    let t = s.substring_char(a, b);
    proof {
        let s1 = s@.skip(a as int);
        assert(forall|j: int|
            b - a <= j < s1.len() ==> s1[j] == s@[j + a] && s@[j + a] == '\0');
        assert(s1[b - a - 1] == s@[b - 1]);
        lemma_trim_end_at(s1, b - a);
        assert(s1.take(b - a) =~= s@.subrange(a as int, b as int));
    }
    t.to_owned()
}

// ---------------------------------------------------------------------------
// The decrypt pipeline.
// ---------------------------------------------------------------------------

/// The ciphertext bytes a request's base64 field stands for: a decode
/// failure is tolerated as empty input rather than rejected.
pub open spec fn spec_ciphertext_bytes(content: Seq<char>) -> Seq<u8> {
    match base64_decode_of(content) {
        Some(b) => b,
        None => Seq::<u8>::empty(),
    }
}

/// The plaintext the decrypt pipeline must produce: decrypt, decode the
/// buffer as UTF-8, trim the NUL padding; `None` on a rejected ciphertext
/// or non-UTF-8 buffer.
pub open spec fn spec_decrypt_rsa_content(pem: Seq<char>, content: Seq<char>) -> Option<Seq<char>> {
    let ct = spec_ciphertext_bytes(content);
    if ct.len() > 0x7fffffff {
        None
    } else {
        match rsa_decrypt_of(pem, ct) {
            Some(b) => match utf8_chars_of(b) {
                Some(full) => Some(spec_trim_nuls(full)),
                None => None,
            },
            None => None,
        }
    }
}

/// What the pipeline does with a decrypted buffer: decode it as UTF-8 and
/// trim the NUL padding; `None` exactly on invalid UTF-8.
pub fn plaintext_from_decrypted(buf: Vec<u8>) -> (r: Option<String>)
    ensures
        match r {
            Some(p) => utf8_chars_of(buf@) matches Some(full) && p@ == spec_trim_nuls(full),
            None => utf8_chars_of(buf@) is None,
        },
{
    match bytes_to_utf8(buf) {
        Some(s) => Some(trim_nul_chars(s.as_str())),
        None => None,
    }
}

/// Decrypts a base64 ciphertext under a PEM private key. `Ok(None)` is the
/// semantic failure (the key rejected the ciphertext, or the buffer was not
/// UTF-8); `Err` happens exactly when the PEM does not parse as a key (an
/// infrastructure fault: the provider only stores keys it generated) and
/// the ciphertext was small enough to reach the parse. A malformed base64
/// field flows into the same path as a wrong-key decrypt, so the whole
/// function is a function of its two arguments.
pub fn decrypt_rsa_content(private_key: &str, content: &str) -> (r: Result<Option<String>, ()>)
    ensures
        r matches Ok(Some(p)) ==> spec_decrypt_rsa_content(private_key@, content@) == Some(p@),
        r == Ok::<Option<String>, ()>(None) ==> spec_decrypt_rsa_content(private_key@, content@)
            is None,
        r is Err <==> !rsa_key_ok_of(private_key@) && spec_ciphertext_bytes(content@).len()
            <= 0x7fffffff,
        rsa_key_ok_of(private_key@) ==> (r matches Ok(Some(p)) <==> spec_decrypt_rsa_content(
            private_key@,
            content@,
        ) is Some),
{
    let ciphertext: Vec<u8> = match base64_decode(content) {
        Some(v) => v,
        None => Vec::new(),
    };
    proof {
        assert(ciphertext@ =~= spec_ciphertext_bytes(content@));
    }
    if ciphertext.len() > 0x7fffffff {
        return Ok(None);
    }
    match rsa_private_decrypt(private_key, ciphertext.as_slice()) {
        Ok(buf) => Ok(plaintext_from_decrypted(buf)),
        Err(RsaDecryptFailure::DecryptionFailed) => Ok(None),
        Err(RsaDecryptFailure::InvalidKey) => Err(()),
    }
}

/// What decrypting under a key-exchange handle must yield: `InvalidRsaToken`
/// exactly when the handle is absent or expired; `RsaError` exactly when the
/// stored PEM does not parse as a key (and the ciphertext was small enough
/// to reach the parse); otherwise the pipeline's plaintext, with a rejected
/// ciphertext or non-UTF-8 buffer as `DecryptPasswordError`.
pub open spec fn spec_decrypt_outcome(
    sessions: Seq<SessionEntry>,
    rsa_token: Seq<char>,
    content: Seq<char>,
    now: i64,
) -> Result<Seq<char>, AppError> {
    match spec_extract_private_key(sessions, rsa_token, now) {
        Err(_) => Err(AppError::ServiceError(ServiceError::InvalidRsaToken)),
        Ok(key) => if !rsa_key_ok_of(key) && spec_ciphertext_bytes(content).len() <= 0x7fffffff {
            Err(AppError::RsaError)
        } else {
            match spec_decrypt_rsa_content(key, content) {
                Some(p) => Ok(p),
                None => Err(AppError::ServiceError(ServiceError::DecryptPasswordError)),
            }
        },
    }
}

/// Loads the key-exchange private key by handle and decrypts the ciphertext
/// with it: exactly the outcome `spec_decrypt_outcome` assigns.
pub fn decrypt_with_handle(
    sessions: &SessionStore,
    rsa_token: &str,
    content: &str,
    now: i64,
) -> (r: Result<String, AppError>)
    ensures
        match r {
            Ok(p) => spec_decrypt_outcome(sessions.entries@, rsa_token@, content@, now) == Ok::<
                Seq<char>,
                AppError,
            >(p@),
            Err(e) => spec_decrypt_outcome(sessions.entries@, rsa_token@, content@, now) == Err::<
                Seq<char>,
                AppError,
            >(e),
        },
{
    let private_key = match extract_private_key(sessions, rsa_token, now) {
        Ok(k) => k,
        Err(e) => {
            return Err(AppError::ServiceError(e));
        },
    };
    match decrypt_rsa_content(private_key.as_str(), content) {
        Ok(Some(p)) => Ok(p),
        Ok(None) => Err(AppError::ServiceError(ServiceError::DecryptPasswordError)),
        Err(()) => Err(AppError::RsaError),
    }
}

// ---------------------------------------------------------------------------
// Credential hashing.
// ---------------------------------------------------------------------------

/// Hashes a password with the given salt, or with a freshly generated one.
/// On success the hash is the PBKDF2 hash of the password under the
/// returned salt. With a given salt it succeeds exactly when the salt
/// string is accepted; with a generated salt it always succeeds.
pub fn hash_password(password: &str, salt: Option<&String>) -> (r: Result<(String, String), ()>)
    ensures
        r matches Ok(p) ==> p.1@ == pbkdf2_hash_of(password@, p.0@),
        r matches Ok(p) ==> salt_ok_of(p.0@),
        r matches Ok(p) ==> (salt matches Some(s) ==> p.0@ == s@),
        salt matches Some(s) ==> (r is Ok <==> salt_ok_of(s@)),
        salt is None ==> r is Ok,
{
    let salt_string: String = match salt {
        Some(s) => s.clone(),
        None => generate_salt(),
    };
    match pbkdf2_hash(password, salt_string.as_str()) {
        Ok(h) => Ok((salt_string, h)),
        Err(()) => Err(()),
    }
}

/// Whether `hashed` is the PBKDF2 hash of `password` under `salt`: the rule
/// `verify_password` decides.
pub open spec fn spec_password_matches(
    password: Seq<char>,
    salt: Seq<char>,
    hashed: Seq<char>,
) -> bool {
    pbkdf2_hash_of(password, salt) == hashed
}

/// Recomputes the hash under the stored salt and compares: a function of
/// its three arguments. It succeeds exactly when the salt string is
/// accepted — in particular always on a salt that `hash_password` returned.
pub fn verify_password(password: &str, salt: &str, hashed_pass: &str) -> (r: Result<bool, ()>)
    ensures
        r is Ok <==> salt_ok_of(salt@),
        r matches Ok(b) ==> b == spec_password_matches(password@, salt@, hashed_pass@),
{
    match pbkdf2_hash(password, salt) {
        Ok(h) => Ok(h.as_str().eq(hashed_pass)),
        Err(()) => Err(()),
    }
}

// ---------------------------------------------------------------------------
// Laws.
// ---------------------------------------------------------------------------

/// Verifying a password against the hash just computed for it under the
/// same salt always succeeds: `verify(p, s, hash(p, s)) == true`.
pub proof fn lemma_verify_after_hash(password: Seq<char>, salt: Seq<char>)
    ensures
        spec_password_matches(password, salt, pbkdf2_hash_of(password, salt)),
{
}

/// A decrypted PKCS#1 buffer is the plaintext followed by zero padding;
/// trimming restores the plaintext exactly, for any plaintext free of NUL
/// characters and any amount of padding.
pub proof fn lemma_trim_restores_plaintext(p: Seq<char>, pad: nat)
    requires
        forall|i: int| 0 <= i < p.len() ==> p[i] != '\0',
    ensures
        spec_trim_nuls(p + Seq::new(pad, |i: int| '\0')) =~= p,
{
    let s = p + Seq::new(pad, |i: int| '\0');
    if p.len() == 0 {
        assert(forall|j: int| 0 <= j < s.len() ==> s[j] == '\0');
        lemma_trim_start_at(s, s.len() as int);
        assert(s.skip(s.len() as int) =~= Seq::<char>::empty());
        assert(spec_trim_nuls(s) =~= Seq::<char>::empty());
    } else {
        assert(s[0] == p[0]);
        lemma_trim_start_at(s, 0);
        assert(s.skip(0) =~= s);
        assert(forall|j: int| p.len() <= j < s.len() ==> s[j] == '\0');
        assert(s[p.len() - 1] == p[p.len() - 1]);
        lemma_trim_end_at(s, p.len() as int);
        assert(s.take(p.len() as int) =~= p);
    }
}

} // verus!
