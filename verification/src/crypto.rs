//! Argon2id key derivation and AES-256-GCM sealing of payloads laid out as
//! `salt (16) | nonce (12) | ciphertext | tag (16)`.

use vstd::prelude::*;
use vstd::string::StringSliceAdditionalSpecFns;
use aes_gcm::aead::{Aead, KeyInit};
use zeroize::Zeroize;

verus! {

/// Argon2 memory cost in KiB (64 MiB).
pub const ARGON2_M_COST: u32 = 65536;

/// Argon2 number of passes.
pub const ARGON2_T_COST: u32 = 3;

/// Argon2 degree of parallelism.
pub const ARGON2_P_COST: u32 = 1;

/// Length in bytes of a derived key.
pub const KEY_LEN: usize = 32;

/// Length in bytes of the salt in front of a full payload.
pub const SALT_LEN: usize = 16;

/// Length in bytes of an AES-GCM nonce.
pub const NONCE_LEN: usize = 12;

/// Length in bytes of an AES-GCM authentication tag.
pub const TAG_LEN: usize = 16;

/// Longest plaintext, in bytes, that AES-GCM encrypts (2^36).
pub const AES_GCM_P_MAX: u64 = 0x10_0000_0000;

/// Longest password, in bytes, that Argon2 accepts.
pub const ARGON2_MAX_PWD_LEN: u64 = 0xFFFF_FFFF;

/// Errors of the cryptographic layer.
#[derive(Debug, Clone, Copy, PartialEq, Eq, Structural)]
pub enum CryptoError {
    /// The operating system's random source failed.
    RandomSource,
    /// Argon2 refused the inputs.
    KeyDerivation,
    /// AES-GCM refused to encrypt (message too long).
    Encryption,
    /// The payload is shorter than a nonce, or its tag did not verify.
    Decryption,
    /// A full payload is shorter than salt and nonce together.
    PayloadTooShort,
}

#[verifier::external_type_specification]
#[verifier::external_body]
pub struct ExArgon2Error(argon2::Error);

/// The bytes that Argon2id (version 0x13) writes for the given costs, password,
/// salt and output length.
pub uninterp spec fn argon2id_output(
    m_cost: u32,
    t_cost: u32,
    p_cost: u32,
    password: Seq<u8>,
    salt: Seq<u8>,
    out_len: nat,
) -> Seq<u8>;

/// Whether `argon2::Params::new` accepts these costs and output length.
pub open spec fn argon2_params_valid(m_cost: u32, t_cost: u32, p_cost: u32, out_len: nat) -> bool {
    &&& m_cost >= 8
    &&& m_cost >= p_cost * 8
    &&& t_cost >= 1
    &&& 1 <= p_cost <= 0xFF_FFFF
    &&& 4 <= out_len <= 0xFFFF_FFFF
}

/// Builds `argon2::Params` from the costs and `out.len()`, and runs
/// `Argon2::new(Algorithm::Argon2id, Version::V0x13, params).hash_password_into`.
/// Claimed: the call succeeds exactly when the parameters are valid, the
/// password has at most 2^32 - 1 bytes and the salt between 8 and 2^32 - 1 bytes
/// (the checks of `Params::new` and `verify_inputs` in the crate's source), and
/// then `out` holds the named Argon2id output. Nothing is claimed of `out` on error.
#[verifier::external_body]
fn argon2id_hash_into(
    m_cost: u32,
    t_cost: u32,
    p_cost: u32,
    password: &[u8],
    salt: &[u8],
    out: &mut [u8],
) -> (res: Result<(), argon2::Error>)
    requires
        p_cost <= 0xFF_FFFF,
    ensures
        final(out)@.len() == old(out)@.len(),
        res is Ok <==> (argon2_params_valid(m_cost, t_cost, p_cost, old(out)@.len())
            && password@.len() <= ARGON2_MAX_PWD_LEN && 8 <= salt@.len() <= 0xFFFF_FFFF),
        res is Ok ==> final(out)@ == argon2id_output(
            m_cost,
            t_cost,
            p_cost,
            password@,
            salt@,
            old(out)@.len(),
        ),
{
    let params = argon2::Params::new(m_cost, t_cost, p_cost, Some(out.len()))?;
    argon2::Argon2::new(argon2::Algorithm::Argon2id, argon2::Version::V0x13, params)
        .hash_password_into(password, salt, out)
}

/// The key that `derive_key` yields for a password (as UTF-8 bytes) and a salt.
pub open spec fn spec_derive_key(password: Seq<u8>, salt: Seq<u8>) -> Result<Seq<u8>, CryptoError> {
    if password.len() <= ARGON2_MAX_PWD_LEN {
        Ok(argon2id_output(ARGON2_M_COST, ARGON2_T_COST, ARGON2_P_COST, password, salt, KEY_LEN as nat))
    } else {
        Err(CryptoError::KeyDerivation)
    }
}

/// Derives a 32-byte key from the password and the salt with Argon2id
/// (64 MiB, 3 passes, 1 lane).
pub fn derive_key(password: &str, salt: &[u8; 16]) -> (res: Result<[u8; 32], CryptoError>)
    ensures
        match res {
            Ok(key) => spec_derive_key(password.spec_bytes(), salt@) == Ok::<Seq<u8>, CryptoError>(key@),
            Err(e) => spec_derive_key(password.spec_bytes(), salt@) == Err::<Seq<u8>, CryptoError>(e),
        },
        password.spec_bytes().len() <= 0xFFFF_FFFF ==> (res matches Ok(key)
            && key@ == argon2id_output(65536u32, 3u32, 1u32, password.spec_bytes(), salt@, 32nat)),
        password.spec_bytes().len() > 0xFFFF_FFFF ==> res == Err::<[u8; 32], CryptoError>(CryptoError::KeyDerivation),
{
    let mut output_key = [0u8; 32];
    let pwd = password.as_bytes();
    match argon2id_hash_into(ARGON2_M_COST, ARGON2_T_COST, ARGON2_P_COST, pwd, salt, &mut output_key) {
        Ok(()) => Ok(output_key),
        Err(_) => Err(CryptoError::KeyDerivation),
    }
}


/// The `Seq` view of a byte-vector result.
pub open spec fn result_view(r: Result<Vec<u8>, CryptoError>) -> Result<Seq<u8>, CryptoError> {
    match r {
        Ok(v) => Ok(v@),
        Err(e) => Err(e),
    }
}

#[verifier::external_type_specification]
#[verifier::external_body]
pub struct ExAeadError(aes_gcm::Error);

#[verifier::external_type_specification]
#[verifier::external_body]
pub struct ExGetrandomError(getrandom::Error);

/// Ciphertext followed by the 16-byte tag that AES-256-GCM produces for the key,
/// the nonce and the plaintext, with no associated data.
pub uninterp spec fn aes256gcm_sealed(key: Seq<u8>, nonce: Seq<u8>, plaintext: Seq<u8>) -> Seq<u8>;

/// What AES-256-GCM decryption yields for the key, the nonce and a ciphertext
/// with its tag appended, with no associated data: the plaintext when the tag
/// verifies, `None` otherwise.
pub uninterp spec fn aes256gcm_opened(key: Seq<u8>, nonce: Seq<u8>, ciphertext: Seq<u8>) -> Option<Seq<u8>>;

/// Calls `Aes256Gcm::new(key).encrypt(nonce, plaintext)` (trait `aead::Aead`).
/// Claimed: it fails exactly when the plaintext is longer than 2^36 bytes
/// (`P_MAX` in the crate's source); otherwise it returns the named sealed bytes,
/// which are 16 bytes longer than the plaintext (the tag is appended) and which
/// decryption with the same key and nonce opens to the plaintext.
#[verifier::external_body]
fn aes256gcm_seal(key: &[u8; 32], nonce: &[u8; 12], plaintext: &[u8]) -> (res: Result<Vec<u8>, aes_gcm::Error>)
    ensures
        res is Ok <==> plaintext@.len() <= AES_GCM_P_MAX,
        res matches Ok(c) ==> c@ == aes256gcm_sealed(key@, nonce@, plaintext@),
        res matches Ok(c) ==> c@.len() == plaintext@.len() + TAG_LEN,
        res matches Ok(c) ==> aes256gcm_opened(key@, nonce@, c@) == Some(plaintext@),
{
    let cipher = aes_gcm::Aes256Gcm::new(aes_gcm::Key::<aes_gcm::Aes256Gcm>::from_slice(key));
    cipher.encrypt(aes_gcm::Nonce::from_slice(nonce), plaintext)
}

/// Calls `Aes256Gcm::new(key).decrypt(nonce, ciphertext)` (trait `aead::Aead`).
/// Claimed: it succeeds exactly when the named opening is `Some`, and then
/// returns that plaintext, 16 bytes shorter than the ciphertext (the crate
/// splits off the tag and truncates the buffer at it); a ciphertext shorter
/// than the tag never opens (the crate checks the length before splitting).
#[verifier::external_body]
fn aes256gcm_open(key: &[u8; 32], nonce: &[u8], ciphertext: &[u8]) -> (res: Result<Vec<u8>, aes_gcm::Error>)
    requires
        nonce@.len() == NONCE_LEN,
    ensures
        match res {
            Ok(p) => aes256gcm_opened(key@, nonce@, ciphertext@) == Some(p@),
            Err(_) => aes256gcm_opened(key@, nonce@, ciphertext@) is None,
        },
        ciphertext@.len() < TAG_LEN ==> res is Err,
        res matches Ok(p) ==> p@.len() + TAG_LEN == ciphertext@.len(),
{
    let cipher = aes_gcm::Aes256Gcm::new(aes_gcm::Key::<aes_gcm::Aes256Gcm>::from_slice(key));
    cipher.decrypt(aes_gcm::Nonce::from_slice(nonce), ciphertext)
}

/// Calls `getrandom::fill(dest)`. The bytes it writes come from the operating
/// system's random source and are not described; only that the length of
/// `dest` stays is claimed, whether the call succeeds or not.
#[verifier::external_body]
fn os_random_fill(dest: &mut [u8]) -> (res: Result<(), getrandom::Error>)
    ensures
        final(dest)@.len() == old(dest)@.len(),
{
    getrandom::fill(dest)
}

/// Calls `<[u8] as Zeroize>::zeroize`, which writes zero to every byte with
/// volatile writes. Claimed: afterwards every byte is zero and the length
/// stays. The crate asserts that the length fits in `isize`.
#[verifier::external_body]
fn zeroize_slice(data: &mut [u8])
    requires
        old(data)@.len() <= isize::MAX,
    ensures
        final(data)@ == Seq::new(old(data)@.len(), |i: int| 0u8),
{
    data.zeroize()
}

/// Generates a random 16-byte salt.
pub fn gen_salt() -> (res: Result<[u8; 16], CryptoError>)
    ensures
        res matches Err(e) ==> e == CryptoError::RandomSource,
{
    let mut salt = [0u8; 16];
    match os_random_fill(&mut salt) {
        Ok(()) => Ok(salt),
        Err(_) => Err(CryptoError::RandomSource),
    }
}

/// Generates a random 12-byte nonce.
pub fn gen_nonce() -> (res: Result<[u8; 12], CryptoError>)
    ensures
        res matches Err(e) ==> e == CryptoError::RandomSource,
{
    let mut nonce = [0u8; 12];
    match os_random_fill(&mut nonce) {
        Ok(()) => Ok(nonce),
        Err(_) => Err(CryptoError::RandomSource),
    }
}

/// The payload that `encrypt_with_nonce` yields: the nonce followed by the
/// AES-256-GCM ciphertext and tag.
pub open spec fn spec_encrypt_with_nonce(key: Seq<u8>, nonce: Seq<u8>, plaintext: Seq<u8>) -> Result<Seq<u8>, CryptoError> {
    if plaintext.len() <= AES_GCM_P_MAX {
        Ok(nonce + aes256gcm_sealed(key, nonce, plaintext))
    } else {
        Err(CryptoError::Encryption)
    }
}

/// What `decrypt_with_key` yields for a payload `nonce | ciphertext | tag`.
pub open spec fn spec_decrypt_with_key(key: Seq<u8>, payload: Seq<u8>) -> Result<Seq<u8>, CryptoError> {
    if payload.len() < NONCE_LEN {
        Err(CryptoError::Decryption)
    } else {
        match aes256gcm_opened(key, payload.take(NONCE_LEN as int), payload.skip(NONCE_LEN as int)) {
            Some(p) => Ok(p),
            None => Err(CryptoError::Decryption),
        }
    }
}

/// Encrypts the plaintext with AES-256-GCM under the key and the given nonce,
/// and returns `nonce | ciphertext | tag`.
pub fn encrypt_with_nonce(plaintext: &[u8], key: &[u8; 32], nonce: &[u8; 12]) -> (res: Result<Vec<u8>, CryptoError>)
    ensures
        result_view(res) == spec_encrypt_with_nonce(key@, nonce@, plaintext@),
        plaintext@.len() <= 0x10_0000_0000 ==> (res matches Ok(c)
            && c@ == nonce@ + aes256gcm_sealed(key@, nonce@, plaintext@)),
        plaintext@.len() > 0x10_0000_0000 ==> res == Err::<Vec<u8>, CryptoError>(CryptoError::Encryption),
        res matches Ok(c) ==> c@.len() == NONCE_LEN + plaintext@.len() + TAG_LEN,
        res matches Ok(c) ==> spec_decrypt_with_key(key@, c@) == Ok::<Seq<u8>, CryptoError>(plaintext@),
{
    match aes256gcm_seal(key, nonce, plaintext) {
        Ok(ct) => {
            let mut result: Vec<u8> = Vec::new();
            result.extend_from_slice(nonce);
            result.extend_from_slice(ct.as_slice());
            proof {
                assert(result@ =~= nonce@ + ct@);
                assert(result@.take(NONCE_LEN as int) =~= nonce@);
                assert(result@.skip(NONCE_LEN as int) =~= ct@);
            }
            Ok(result)
        },
        Err(_) => Err(CryptoError::Encryption),
    }
}

/// Encrypts the plaintext with AES-256-GCM under the key and a fresh random
/// nonce, and returns `nonce | ciphertext | tag`.
pub fn encrypt(plaintext: &[u8], key: &[u8; 32]) -> (res: Result<Vec<u8>, CryptoError>)
    ensures
        res matches Ok(c) ==> c@.len() == NONCE_LEN + plaintext@.len() + TAG_LEN
            && spec_encrypt_with_nonce(key@, c@.take(NONCE_LEN as int), plaintext@) == Ok::<Seq<u8>, CryptoError>(c@),
        res matches Ok(c) ==> spec_decrypt_with_key(key@, c@) == Ok::<Seq<u8>, CryptoError>(plaintext@),
        res matches Ok(c) ==> c@ == c@.take(12) + aes256gcm_sealed(key@, c@.take(12), plaintext@),
        res matches Err(e) ==> e == CryptoError::RandomSource
            || (e == CryptoError::Encryption && plaintext@.len() > AES_GCM_P_MAX),
        plaintext@.len() > AES_GCM_P_MAX ==> res is Err,
{
    let nonce = match gen_nonce() {
        Ok(n) => n,
        Err(e) => return Err(e),
    };
    let res = encrypt_with_nonce(plaintext, key, &nonce);
    proof {
        if res is Ok {
            assert(res->Ok_0@.take(NONCE_LEN as int) =~= nonce@);
        }
    }
    res
}

/// Decrypts a payload `nonce | ciphertext | tag` with the key; fails when the
/// payload is shorter than a nonce or the tag does not verify.
pub fn decrypt_with_key(encrypted_payload: &[u8], key: &[u8; 32]) -> (res: Result<Vec<u8>, CryptoError>)
    ensures
        result_view(res) == spec_decrypt_with_key(key@, encrypted_payload@),
        encrypted_payload@.len() < NONCE_LEN + TAG_LEN ==> res is Err,
        res matches Ok(p) ==> p@.len() + NONCE_LEN + TAG_LEN == encrypted_payload@.len(),
        encrypted_payload@.len() < 12 ==> res == Err::<Vec<u8>, CryptoError>(CryptoError::Decryption),
        encrypted_payload@.len() >= 12 ==> match aes256gcm_opened(key@, encrypted_payload@.take(12), encrypted_payload@.skip(12)) {
            Some(p) => res matches Ok(q) && q@ == p,
            None => res == Err::<Vec<u8>, CryptoError>(CryptoError::Decryption),
        },
{
    if encrypted_payload.len() < NONCE_LEN {
        return Err(CryptoError::Decryption);
    }
    let (nonce_bytes, ciphertext) = encrypted_payload.split_at(NONCE_LEN);
    proof {
        assert(nonce_bytes@ =~= encrypted_payload@.take(NONCE_LEN as int));
        assert(ciphertext@ =~= encrypted_payload@.skip(NONCE_LEN as int));
    }
    match aes256gcm_open(key, nonce_bytes, ciphertext) {
        Ok(p) => Ok(p),
        Err(_) => Err(CryptoError::Decryption),
    }
}

/// Copies 16 bytes into an array.
pub(crate) fn to_array16(bytes: &[u8]) -> (res: [u8; 16])
    requires
        bytes@.len() == 16,
    ensures
        res@ == bytes@,
{
    let mut out = [0u8; 16];
    for i in 0..16
        invariant
            bytes@.len() == 16,
            forall|j: int| 0 <= j < i ==> out@[j] == bytes@[j],
    {
        out[i] = bytes[i];
    }
    assert(out@ =~= bytes@);
    out
}

/// What `decrypt_full` yields for a payload `salt | nonce | ciphertext | tag`
/// and a password (as UTF-8 bytes).
pub open spec fn spec_decrypt_full(payload: Seq<u8>, password: Seq<u8>) -> Result<Seq<u8>, CryptoError> {
    if payload.len() < SALT_LEN + NONCE_LEN {
        Err(CryptoError::PayloadTooShort)
    } else {
        match spec_derive_key(password, payload.take(SALT_LEN as int)) {
            Ok(key) => spec_decrypt_with_key(key, payload.skip(SALT_LEN as int)),
            Err(e) => Err(e),
        }
    }
}

/// Decrypts a full payload `salt | nonce | ciphertext | tag`: derives the key
/// from the password and the salt in front, then opens the rest.
pub fn decrypt_full(payload: &[u8], password: &str) -> (res: Result<Vec<u8>, CryptoError>)
    ensures
        result_view(res) == spec_decrypt_full(payload@, password.spec_bytes()),
        payload@.len() < SALT_LEN + NONCE_LEN + TAG_LEN ==> res is Err,
        res matches Ok(p) ==> p@.len() + SALT_LEN + NONCE_LEN + TAG_LEN == payload@.len(),
        payload@.len() < 28 ==> res == Err::<Vec<u8>, CryptoError>(CryptoError::PayloadTooShort),
        payload@.len() >= 28 && password.spec_bytes().len() > 0xFFFF_FFFF
            ==> res == Err::<Vec<u8>, CryptoError>(CryptoError::KeyDerivation),
        payload@.len() >= 28 && password.spec_bytes().len() <= 0xFFFF_FFFF ==> match aes256gcm_opened(
            argon2id_output(65536u32, 3u32, 1u32, password.spec_bytes(), payload@.take(16), 32nat),
            payload@.subrange(16, 28),
            payload@.skip(28),
        ) {
            Some(p) => res matches Ok(q) && q@ == p,
            None => res == Err::<Vec<u8>, CryptoError>(CryptoError::Decryption),
        },
{
    if payload.len() < SALT_LEN + NONCE_LEN {
        return Err(CryptoError::PayloadTooShort);
    }
    let (salt_bytes, rest) = payload.split_at(SALT_LEN);
    let salt = to_array16(salt_bytes);
    proof {
        assert(salt@ =~= payload@.take(SALT_LEN as int));
        assert(rest@ =~= payload@.skip(SALT_LEN as int));
        assert(rest@.take(12) =~= payload@.subrange(16, 28));
        assert(rest@.skip(12) =~= payload@.skip(28));
    }
    let key = match derive_key(password, &salt) {
        Ok(k) => k,
        Err(e) => return Err(e),
    };
    decrypt_with_key(rest, &key)
}

/// Builds the full payload `salt | nonce | ciphertext | tag` for the plaintext
/// from the given salt and nonce: the AES-256-GCM encryption under the key that
/// Argon2id derives from the whole password and the salt.
pub fn encrypt_full_with(plaintext: &[u8], password: &str, salt: &[u8; 16], nonce: &[u8; 12]) -> (res: Result<Vec<u8>, CryptoError>)
    ensures
        password.spec_bytes().len() <= 0xFFFF_FFFF && plaintext@.len() <= 0x10_0000_0000 ==> (res matches Ok(p)
            && p@ == salt@ + nonce@ + aes256gcm_sealed(
                argon2id_output(65536u32, 3u32, 1u32, password.spec_bytes(), salt@, 32nat),
                nonce@,
                plaintext@,
            )),
        password.spec_bytes().len() > 0xFFFF_FFFF ==> res == Err::<Vec<u8>, CryptoError>(CryptoError::KeyDerivation),
        password.spec_bytes().len() <= 0xFFFF_FFFF && plaintext@.len() > 0x10_0000_0000
            ==> res == Err::<Vec<u8>, CryptoError>(CryptoError::Encryption),
        res matches Ok(p) ==> p@.len() == SALT_LEN + NONCE_LEN + plaintext@.len() + TAG_LEN,
        res matches Ok(p) ==> spec_decrypt_full(p@, password.spec_bytes()) == Ok::<Seq<u8>, CryptoError>(plaintext@),
{
    let key = match derive_key(password, salt) {
        Ok(k) => k,
        Err(e) => return Err(e),
    };
    let encrypted = match encrypt_with_nonce(plaintext, &key, nonce) {
        Ok(c) => c,
        Err(e) => return Err(e),
    };
    let mut payload: Vec<u8> = Vec::new();
    payload.extend_from_slice(salt);
    payload.extend_from_slice(encrypted.as_slice());
    proof {
        assert(payload@ =~= salt@ + encrypted@);
        assert(payload@.take(SALT_LEN as int) =~= salt@);
        assert(payload@.skip(SALT_LEN as int) =~= encrypted@);
        assert(salt@ + encrypted@ =~= salt@ + nonce@ + aes256gcm_sealed(key@, nonce@, plaintext@));
    }
    Ok(payload)
}

/// Builds a full payload for the plaintext: a fresh salt, the key derived from
/// the password and that salt, and the AES-256-GCM encryption under that key
/// with a fresh nonce: `salt | nonce | ciphertext | tag`.
pub fn encrypt_full(plaintext: &[u8], password: &str) -> (res: Result<Vec<u8>, CryptoError>)
    ensures
        res matches Ok(p) ==> p@.len() == SALT_LEN + NONCE_LEN + plaintext@.len() + TAG_LEN,
        res matches Ok(p) ==> (spec_derive_key(password.spec_bytes(), p@.take(SALT_LEN as int)) matches Ok(key)
            && spec_encrypt_with_nonce(key, p@.subrange(SALT_LEN as int, (SALT_LEN + NONCE_LEN) as int), plaintext@)
                == Ok::<Seq<u8>, CryptoError>(p@.skip(SALT_LEN as int))),
        res matches Ok(p) ==> spec_decrypt_full(p@, password.spec_bytes()) == Ok::<Seq<u8>, CryptoError>(plaintext@),
        res matches Err(e) ==> e == CryptoError::RandomSource
            || (e == CryptoError::KeyDerivation && password.spec_bytes().len() > ARGON2_MAX_PWD_LEN)
            || (e == CryptoError::Encryption && plaintext@.len() > AES_GCM_P_MAX),
        password.spec_bytes().len() > ARGON2_MAX_PWD_LEN || plaintext@.len() > AES_GCM_P_MAX ==> res is Err,
        res matches Ok(p) ==> p@ == p@.take(16) + p@.subrange(16, 28) + aes256gcm_sealed(
            argon2id_output(65536u32, 3u32, 1u32, password.spec_bytes(), p@.take(16), 32nat),
            p@.subrange(16, 28),
            plaintext@,
        ),
        password.spec_bytes().len() <= 0xFFFF_FFFF && plaintext@.len() <= 0x10_0000_0000
            ==> (res is Ok || res == Err::<Vec<u8>, CryptoError>(CryptoError::RandomSource)),
{
    let salt = match gen_salt() {
        Ok(s) => s,
        Err(e) => return Err(e),
    };
    let nonce = match gen_nonce() {
        Ok(n) => n,
        Err(e) => return Err(e),
    };
    let res = encrypt_full_with(plaintext, password, &salt, &nonce);
    proof {
        if res is Ok {
            let p = res->Ok_0@;
            assert(p.take(16) =~= salt@);
            assert(p.subrange(16, 28) =~= nonce@);
            assert(p.skip(16) =~= nonce@ + aes256gcm_sealed(
                argon2id_output(65536u32, 3u32, 1u32, password.spec_bytes(), salt@, 32nat), nonce@, plaintext@));
            assert(p.skip(16).take(12) =~= nonce@);
        }
    }
    res
}

/// Overwrites every byte of the buffer with zero.
pub fn zeroize_bytes(data: &mut [u8])
    requires
        old(data)@.len() <= isize::MAX,
    ensures
        final(data)@ == Seq::new(old(data)@.len(), |i: int| 0u8),
{
    zeroize_slice(data)
}

/// The derived key is Argon2id with 64 MiB, 3 passes and 1 lane, 32 bytes
/// long, over every byte of the password and the salt; only a password longer
/// than Argon2 accepts fails.
pub proof fn lemma_derive_key_is_argon2id(password: Seq<u8>, salt: Seq<u8>)
    ensures
        password.len() <= 0xFFFF_FFFF ==> spec_derive_key(password, salt)
            == Ok::<Seq<u8>, CryptoError>(argon2id_output(65536u32, 3u32, 1u32, password, salt, 32nat)),
        password.len() > 0xFFFF_FFFF ==> spec_derive_key(password, salt)
            == Err::<Seq<u8>, CryptoError>(CryptoError::KeyDerivation),
{
}

/// Two passwords within Argon2's limit give the Argon2id outputs over their
/// own bytes, whatever they share: the keys differ as far as Argon2id tells the
/// passwords apart.
pub proof fn lemma_derive_key_reads_whole_password(p1: Seq<u8>, p2: Seq<u8>, salt: Seq<u8>)
    requires
        p1.len() <= 0xFFFF_FFFF,
        p2.len() <= 0xFFFF_FFFF,
        argon2id_output(65536u32, 3u32, 1u32, p1, salt, 32nat) != argon2id_output(65536u32, 3u32, 1u32, p2, salt, 32nat),
    ensures
        spec_derive_key(p1, salt) != spec_derive_key(p2, salt),
{
}

/// Sealing accepts every plaintext up to 2^36 bytes and gives the nonce
/// followed by the AES-256-GCM ciphertext and tag; longer plaintexts fail.
pub proof fn lemma_encrypt_with_nonce_is_aes256gcm(key: Seq<u8>, nonce: Seq<u8>, plaintext: Seq<u8>)
    ensures
        plaintext.len() <= 0x10_0000_0000 ==> spec_encrypt_with_nonce(key, nonce, plaintext)
            == Ok::<Seq<u8>, CryptoError>(nonce + aes256gcm_sealed(key, nonce, plaintext)),
        plaintext.len() > 0x10_0000_0000 ==> spec_encrypt_with_nonce(key, nonce, plaintext)
            == Err::<Seq<u8>, CryptoError>(CryptoError::Encryption),
{
}

/// Opening a payload reads the first 12 bytes as the nonce and the rest as
/// ciphertext and tag.
pub proof fn lemma_decrypt_with_key_is_aes256gcm(key: Seq<u8>, payload: Seq<u8>)
    ensures
        payload.len() < 12 ==> spec_decrypt_with_key(key, payload) == Err::<Seq<u8>, CryptoError>(CryptoError::Decryption),
        payload.len() >= 12 ==> spec_decrypt_with_key(key, payload) == match aes256gcm_opened(key, payload.take(12), payload.skip(12)) {
            Some(p) => Ok::<Seq<u8>, CryptoError>(p),
            None => Err::<Seq<u8>, CryptoError>(CryptoError::Decryption),
        },
{
}

/// Opening a full payload with a password within Argon2's limit opens the part
/// after the salt under the Argon2id key of the whole password and the salt.
pub proof fn lemma_decrypt_full_uses_whole_password(payload: Seq<u8>, password: Seq<u8>)
    requires
        payload.len() >= 28,
        password.len() <= 0xFFFF_FFFF,
    ensures
        spec_decrypt_full(payload, password) == spec_decrypt_with_key(
            argon2id_output(65536u32, 3u32, 1u32, password, payload.take(16), 32nat),
            payload.skip(16),
        ),
{
}

/// Opening the concatenation of a salt and a payload encrypted under the key
/// derived from the password and that salt gives back the plaintext: whatever
/// `encrypt` produced under `derive_key(password, salt)`, prefixed with the
/// salt, `decrypt_full` opens with the same password.
pub proof fn lemma_full_payload_roundtrip(
    password: Seq<u8>,
    salt: Seq<u8>,
    key: Seq<u8>,
    encrypted: Seq<u8>,
    plaintext: Seq<u8>,
)
    requires
        salt.len() == SALT_LEN,
        spec_derive_key(password, salt) == Ok::<Seq<u8>, CryptoError>(key),
        spec_decrypt_with_key(key, encrypted) == Ok::<Seq<u8>, CryptoError>(plaintext),
    ensures
        spec_decrypt_full(salt + encrypted, password) == Ok::<Seq<u8>, CryptoError>(plaintext),
{
    assert((salt + encrypted).take(SALT_LEN as int) =~= salt);
    assert((salt + encrypted).skip(SALT_LEN as int) =~= encrypted);
}

} // verus!
