//! Configuration: the settings of the pool, queries, cache and logging with their
//! defaults, and the encrypted configuration format
//! `base64(12-byte nonce || AES-256-GCM ciphertext and tag)`.
use vstd::prelude::*;
use crate::error::SqlError;
use crate::row::trimmed_chars;
use crate::text::to_owned_string;
use crate::textparse::trim;
use aes_gcm::aead::Aead;
use aes_gcm::KeyInit;
use base64::Engine;

verus! {

/// Connection-pool settings.
#[derive(Debug, Clone, Copy, PartialEq, Eq, Structural)]
pub struct PoolConfig {
    pub max_size: u32,
    pub min_size: u32,
    /// Close idle connections that have been unused longer than this (seconds).
    pub idle_timeout_secs: u64,
    /// Maximum lifetime of any connection regardless of activity (seconds); 0 = no limit.
    pub max_lifetime_secs: u64,
    pub checkout_timeout_ms: u64,
    pub validation_interval_secs: u64,
    pub max_deadlock_retries: u8,
    /// Run `EXEC sp_reset_connection` before reusing a pooled connection.
    pub reset_connection_on_reuse: bool,
}

impl PoolConfig {
    /// The lifetime limit used when a configuration file leaves it out: 30 minutes.
    pub fn default_max_lifetime_secs() -> (s: u64)
        ensures
            s == 1800,
    {
        1800
    }
}

impl Default for PoolConfig {
    fn default() -> (c: PoolConfig)
        ensures
            c == (PoolConfig {
                max_size: 100,
                min_size: 5,
                idle_timeout_secs: 300,
                max_lifetime_secs: 1800,
                checkout_timeout_ms: 5000,
                validation_interval_secs: 60,
                max_deadlock_retries: 3,
                reset_connection_on_reuse: false,
            }),
    {
        PoolConfig {
            max_size: 100,
            min_size: 5,
            idle_timeout_secs: 300,
            max_lifetime_secs: 1800,
            checkout_timeout_ms: 5000,
            validation_interval_secs: 60,
            max_deadlock_retries: 3,
            reset_connection_on_reuse: false,
        }
    }
}

/// Query settings.
#[derive(Debug, Clone, Copy, PartialEq, Eq, Structural)]
pub struct QueryConfig {
    pub default_command_timeout_secs: u64,
    pub slow_query_threshold_ms: u64,
    /// Maximum byte size of a single text/binary cell; wider cells are truncated by the driver.
    pub max_text_bytes: usize,
    /// Per-query timeout override (seconds); `None` uses `default_command_timeout_secs`.
    pub timeout_secs: Option<u64>,
}

impl QueryConfig {
    /// The cell limit used when a configuration file leaves it out: 64 KiB.
    pub fn default_max_text_bytes() -> (n: usize)
        ensures
            n == 65536,
    {
        65536
    }
}

impl Default for QueryConfig {
    fn default() -> (c: QueryConfig)
        ensures
            c == (QueryConfig {
                default_command_timeout_secs: 30,
                slow_query_threshold_ms: 1000,
                max_text_bytes: 65536,
                timeout_secs: None,
            }),
    {
        QueryConfig {
            default_command_timeout_secs: 30,
            slow_query_threshold_ms: 1000,
            max_text_bytes: QueryConfig::default_max_text_bytes(),
            timeout_secs: None,
        }
    }
}

/// Cache-server settings.
#[derive(Debug, Clone)]
pub struct RedisConfig {
    pub url: String,
    pub pool_size: u32,
    pub default_ttl_secs: u64,
    pub count_ttl_secs: u64,
    pub enabled: bool,
}

impl Default for RedisConfig {
    fn default() -> (c: RedisConfig)
        ensures
            c.url@ == "redis://127.0.0.1:6379"@,
            c.pool_size == 20,
            c.default_ttl_secs == 300,
            c.count_ttl_secs == 60,
            !c.enabled,
    {
        RedisConfig {
            url: to_owned_string("redis://127.0.0.1:6379"),
            pool_size: 20,
            default_ttl_secs: 300,
            count_ttl_secs: 60,
            enabled: false,
        }
    }
}

/// Logging settings.
#[derive(Debug, Clone)]
pub struct LoggingConfig {
    pub level: String,
    pub format: String,
}

impl Default for LoggingConfig {
    fn default() -> (c: LoggingConfig)
        ensures
            c.level@ == "INFO"@,
            c.format@ == "json"@,
    {
        LoggingConfig { level: to_owned_string("INFO"), format: to_owned_string("json") }
    }
}

/// Database settings.
#[derive(Debug, Clone)]
pub struct MssqlConfig {
    pub connection_string: String,
    pub pool: PoolConfig,
    pub query: QueryConfig,
    /// Read-replica connection strings; when present, SELECT queries go to a replica.
    pub read_replicas: Vec<String>,
}

/// The whole configuration.
#[derive(Debug, Clone)]
pub struct AppConfig {
    pub mssql: MssqlConfig,
    pub redis: RedisConfig,
    pub logging: LoggingConfig,
}

/// `s` ends with `suffix`.
pub open spec fn ends_with(s: Seq<char>, suffix: Seq<char>) -> bool {
    suffix.len() <= s.len() && s.subrange(s.len() - suffix.len(), s.len() as int) == suffix
}

/// A file is read as encrypted when its name ends in `.enc` and a key is available;
/// otherwise it is read as plain JSON.
pub fn reads_encrypted(path: &str, key_available: bool) -> (b: bool)
    ensures
        b == (key_available && ends_with(path@, ".enc"@)),
{
    proof {
        reveal_strlit(".enc");
    }
    let n = path.unicode_len();
    if !key_available || n < 4 {
        return false;
    }
    let r = path.get_char(n - 4) == '.' && path.get_char(n - 3) == 'e' && path.get_char(n - 2) == 'n'
        && path.get_char(n - 1) == 'c';
    assert(r ==> path@.subrange(n - 4, n as int) =~= ".enc"@);
    assert(path@.subrange(n - 4, n as int) == ".enc"@ ==> r) by {
        if path@.subrange(n - 4, n as int) == ".enc"@ {
            assert(path@.subrange(n - 4, n as int)[0] == path@[n - 4]);
            assert(path@.subrange(n - 4, n as int)[1] == path@[n - 3]);
            assert(path@.subrange(n - 4, n as int)[2] == path@[n - 2]);
            assert(path@.subrange(n - 4, n as int)[3] == path@[n - 1]);
        }
    }
    r
}

/// What the standard base64 engine (padded alphabet) decodes a text to, or the text of its error.
pub uninterp spec fn base64_decoding(s: Seq<char>) -> Result<Seq<u8>, Seq<char>>;

/// `base64::engine::general_purpose::STANDARD.decode`; a text that the same engine encoded
/// decodes back to the encoded bytes.
#[verifier::external_body]
fn base64_decode(s: &str) -> (r: Result<Vec<u8>, String>)
    ensures
        match r {
            Ok(v) => base64_decoding(s@) == Ok::<Seq<u8>, Seq<char>>(v@),
            Err(m) => base64_decoding(s@) == Err::<Seq<u8>, Seq<char>>(m@),
        },
        r matches Err(_) ==> forall|b: Seq<u8>| #[trigger] base64_encoding(b) != s@,
        r matches Ok(v) ==> forall|b: Seq<u8>| #[trigger] base64_encoding(b) == s@ ==> v@ == b,
{
    base64::engine::general_purpose::STANDARD.decode(s).map_err(|e| e.to_string())
}

/// The text the standard base64 engine (padded alphabet) encodes bytes as.
pub uninterp spec fn base64_encoding(b: Seq<u8>) -> Seq<char>;

/// A character of the standard base64 alphabet, the padding `=` included.
pub open spec fn is_base64_char(c: char) -> bool {
    ('A' <= c <= 'Z') || ('a' <= c <= 'z') || ('0' <= c <= '9') || c == '+' || c == '/' || c == '='
}

/// `base64::engine::general_purpose::STANDARD.encode`: the text is made of the standard
/// alphabet and padding only.
#[verifier::external_body]
fn base64_encode(b: &[u8]) -> (s: String)
    ensures
        s@ == base64_encoding(b@),
        forall|i: int| 0 <= i < s@.len() ==> is_base64_char(#[trigger] s@[i]),
{
    base64::engine::general_purpose::STANDARD.encode(b)
}

/// What `hex::decode` makes of a text: its bytes, or the text of its error.
pub uninterp spec fn hex_decoding(s: Seq<char>) -> Result<Seq<u8>, Seq<char>>;

/// `hex::decode`.
#[verifier::external_body]
fn hex_decode(s: &str) -> (r: Result<Vec<u8>, String>)
    ensures
        match r {
            Ok(v) => hex_decoding(s@) == Ok::<Seq<u8>, Seq<char>>(v@),
            Err(m) => hex_decoding(s@) == Err::<Seq<u8>, Seq<char>>(m@),
        },
{
    hex::decode(s).map_err(|e| e.to_string())
}

/// What AES-256-GCM decryption gives for a key, a nonce and ciphertext-with-tag:
/// the plaintext, or `None` when authentication fails.
pub uninterp spec fn aes_gcm_open(key: Seq<u8>, nonce: Seq<u8>, sealed: Seq<u8>) -> Option<Seq<u8>>;

/// `Aes256Gcm::new_from_slice(key)` then `decrypt(nonce, sealed)`; what `encrypt` sealed
/// with the same key and nonce opens to its plaintext.
#[verifier::external_body]
fn aes_gcm_decrypt(key: &[u8], nonce: &[u8], sealed: &[u8]) -> (r: Option<Vec<u8>>)
    requires
        key@.len() == 32,
        nonce@.len() == 12,
    ensures
        match r {
            Some(p) => aes_gcm_open(key@, nonce@, sealed@) == Some(p@),
            None => aes_gcm_open(key@, nonce@, sealed@) is None,
        },
        r is None ==> forall|p: Seq<u8>| #[trigger] aes_gcm_seal(key@, nonce@, p) != Some(sealed@),
        r matches Some(q) ==> forall|p: Seq<u8>| #[trigger] aes_gcm_seal(key@, nonce@, p) == Some(sealed@)
            ==> q@ == p,
{
    let cipher = aes_gcm::Aes256Gcm::new_from_slice(key).ok()?;
    cipher.decrypt(aes_gcm::Nonce::from_slice(nonce), sealed).ok()
}

/// What AES-256-GCM encryption gives for a key, a nonce and a plaintext: ciphertext
/// followed by the 16-byte tag, or `None` when the plaintext is too long for the cipher.
pub uninterp spec fn aes_gcm_seal(key: Seq<u8>, nonce: Seq<u8>, plain: Seq<u8>) -> Option<Seq<u8>>;

/// `Aes256Gcm::new_from_slice(key)` then `encrypt(nonce, plain)`.
#[verifier::external_body]
fn aes_gcm_encrypt(key: &[u8], nonce: &[u8], plain: &[u8]) -> (r: Option<Vec<u8>>)
    requires
        key@.len() == 32,
        nonce@.len() == 12,
    ensures
        match r {
            Some(c) => aes_gcm_seal(key@, nonce@, plain@) == Some(c@),
            None => aes_gcm_seal(key@, nonce@, plain@) is None,
        },
{
    let cipher = aes_gcm::Aes256Gcm::new_from_slice(key).ok()?;
    cipher.encrypt(aes_gcm::Nonce::from_slice(nonce), plain).ok()
}

/// `e` is the cryptography error with message `m`.
pub open spec fn crypto_error(e: SqlError, m: Seq<char>) -> bool {
    e matches SqlError::Crypto(s) && s@ == m
}

/// The 32-byte key that a hex text stands for, or why it is refused.
pub open spec fn config_key_spec(key_hex: Seq<char>) -> Result<Seq<u8>, Seq<char>> {
    match hex_decoding(key_hex) {
        Err(m) => Err("Invalid key hex: "@ + m),
        Ok(k) => if k.len() == 32 { Ok(k) } else { Err("Key must be 32 bytes (64 hex chars)"@) },
    }
}

/// Decode and check an AES-256 key given as 64 hex characters.
pub fn config_key(key_hex: &str) -> (r: Result<Vec<u8>, SqlError>)
    ensures
        match config_key_spec(key_hex@) {
            Ok(k) => r matches Ok(v) && v@ == k,
            Err(m) => r matches Err(e) && crypto_error(e, m),
        },
{
    match hex_decode(key_hex) {
        Err(m) => {
            let mut s = to_owned_string("Invalid key hex: ");
            s.append(m.as_str());
            Err(SqlError::Crypto(s))
        },
        Ok(k) => {
            if k.len() == 32 {
                Ok(k)
            } else {
                Err(SqlError::Crypto(to_owned_string("Key must be 32 bytes (64 hex chars)")))
            }
        },
    }
}

/// The plaintext of an encrypted configuration text, or why it cannot be had.
///
/// The text is trimmed and base64-decoded; its first 12 bytes are the nonce and the rest
/// is the ciphertext with its tag. The payload is checked before the key.
pub open spec fn open_config_spec(raw: Seq<char>, key_hex: Seq<char>) -> Result<Seq<u8>, Seq<char>> {
    match base64_decoding(trim(raw)) {
        Err(m) => Err(m),
        Ok(bytes) => if bytes.len() < 12 {
            Err("Encrypted file too short"@)
        } else {
            match config_key_spec(key_hex) {
                Err(m) => Err(m),
                Ok(key) => match aes_gcm_open(key, bytes.take(12), bytes.skip(12)) {
                    Some(p) => Ok(p),
                    None => Err("Decryption failed \u{2014} wrong key or corrupted file"@),
                },
            }
        },
    }
}

fn copy_range(b: &Vec<u8>, lo: usize, hi: usize) -> (r: Vec<u8>)
    requires
        lo <= hi <= b@.len(),
    ensures
        r@ == b@.subrange(lo as int, hi as int),
{
    let mut r: Vec<u8> = Vec::new();
    let mut i = lo;
    while i < hi
        invariant
            lo <= i <= hi <= b@.len(),
            r@ == b@.subrange(lo as int, i as int),
        decreases hi - i,
    {
        r.push(b[i]);
        i = i + 1;
        assert(r@ =~= b@.subrange(lo as int, i as int));
    }
    r
}

/// Decrypt the content of an encrypted configuration file to its JSON bytes. A text that
/// `seal_config` wrote, under the key that `key_hex` stands for and any 12-byte nonce,
/// opens to the plaintext it sealed.
pub fn open_config(raw: &str, key_hex: &str) -> (r: Result<Vec<u8>, SqlError>)
    ensures
        match open_config_spec(raw@, key_hex@) {
            Ok(p) => r matches Ok(v) && v@ == p,
            Err(m) => r matches Err(e) && crypto_error(e, m),
        },
        forall|key: Seq<u8>, nonce: Seq<u8>, plain: Seq<u8>|
            nonce.len() == 12 && config_key_spec(key_hex@) == Ok::<Seq<u8>, Seq<char>>(key)
                && #[trigger] seal_config_spec(key, nonce, plain) == Ok::<Seq<char>, Seq<char>>(trim(raw@))
            ==> (r matches Ok(v) && v@ == plain),
{
    let t = trimmed_chars(raw);
    let mut trimmed = String::new();
    let mut i: usize = 0;
    while i < t.len()
        invariant
            i <= t@.len(),
            trimmed@ == t@.take(i as int),
        decreases t@.len() - i,
    {
        crate::text::push_char(&mut trimmed, t[i]);
        i = i + 1;
        assert(trimmed@ =~= t@.take(i as int));
    }
    assert(t@.take(t@.len() as int) =~= t@);
    let bytes = match base64_decode(trimmed.as_str()) {
        Ok(b) => b,
        Err(m) => {
            proof {
                assert forall|key: Seq<u8>, nonce: Seq<u8>, plain: Seq<u8>|
                    nonce.len() == 12 && config_key_spec(key_hex@) == Ok::<Seq<u8>, Seq<char>>(key)
                        && #[trigger] seal_config_spec(key, nonce, plain) == Ok::<Seq<char>, Seq<char>>(trim(raw@))
                    implies false by {
                    let c = aes_gcm_seal(key, nonce, plain).unwrap();
                    assert(base64_encoding(nonce + c) == trimmed@);
                }
            }
            return Err(SqlError::Crypto(m));
        },
    };
    let ghost sealed_by = |key: Seq<u8>, nonce: Seq<u8>, plain: Seq<u8>|
        nonce.len() == 12 && config_key_spec(key_hex@) == Ok::<Seq<u8>, Seq<char>>(key)
            && seal_config_spec(key, nonce, plain) == Ok::<Seq<char>, Seq<char>>(trim(raw@));
    proof {
        assert forall|key: Seq<u8>, nonce: Seq<u8>, plain: Seq<u8>| #[trigger] sealed_by(key, nonce, plain)
            implies bytes@ == nonce + aes_gcm_seal(key, nonce, plain).unwrap() by {
            let c = aes_gcm_seal(key, nonce, plain).unwrap();
            assert(base64_encoding(nonce + c) == trimmed@);
        }
    }
    if bytes.len() < 12 {
        proof {
            assert forall|key: Seq<u8>, nonce: Seq<u8>, plain: Seq<u8>|
                nonce.len() == 12 && config_key_spec(key_hex@) == Ok::<Seq<u8>, Seq<char>>(key)
                    && #[trigger] seal_config_spec(key, nonce, plain) == Ok::<Seq<char>, Seq<char>>(trim(raw@))
                implies false by {
                assert(sealed_by(key, nonce, plain));
            }
        }
        return Err(SqlError::Crypto(to_owned_string("Encrypted file too short")));
    }
    let key = match config_key(key_hex) {
        Ok(k) => k,
        Err(e) => return Err(e),
    };
    let nonce = copy_range(&bytes, 0, 12);
    let sealed = copy_range(&bytes, 12, bytes.len());
    assert(nonce@ =~= bytes@.take(12));
    assert(sealed@ =~= bytes@.skip(12));
    let r = aes_gcm_decrypt(key.as_slice(), nonce.as_slice(), sealed.as_slice());
    proof {
        assert forall|k: Seq<u8>, n: Seq<u8>, plain: Seq<u8>|
            n.len() == 12 && config_key_spec(key_hex@) == Ok::<Seq<u8>, Seq<char>>(k)
                && #[trigger] seal_config_spec(k, n, plain) == Ok::<Seq<char>, Seq<char>>(trim(raw@))
            implies (r matches Some(q) && q@ == plain) by {
            assert(sealed_by(k, n, plain));
            let c = aes_gcm_seal(k, n, plain).unwrap();
            assert(bytes@ == n + c);
            assert(bytes@.take(12) =~= n);
            assert(bytes@.skip(12) =~= c);
            assert(aes_gcm_seal(key@, nonce@, plain) == Some(sealed@));
        }
    }
    match r {
        Some(p) => Ok(p),
        None => Err(SqlError::Crypto(to_owned_string(
            "Decryption failed \u{2014} wrong key or corrupted file",
        ))),
    }
}

/// The file content that encrypting `plain` under `key` with `nonce` gives.
pub open spec fn seal_config_spec(key: Seq<u8>, nonce: Seq<u8>, plain: Seq<u8>) -> Result<Seq<char>, Seq<char>> {
    match aes_gcm_seal(key, nonce, plain) {
        Some(c) => Ok(base64_encoding(nonce + c)),
        None => Err("aead::Error"@),
    }
}

proof fn lemma_trim_base64(s: Seq<char>)
    requires
        forall|i: int| 0 <= i < s.len() ==> is_base64_char(#[trigger] s[i]),
    ensures
        trim(s) == s,
{
    if s.len() > 0 {
        assert(is_base64_char(s[0]));
        assert(is_base64_char(s[s.len() - 1]));
    }
}

/// Encrypt configuration JSON: `base64(nonce || ciphertext || tag)`; the text has no
/// surrounding whitespace, so `open_config` reads it back unchanged.
pub fn seal_config(key: &Vec<u8>, nonce: &[u8], plain: &[u8]) -> (r: Result<String, SqlError>)
    requires
        key@.len() == 32,
        nonce@.len() == 12,
    ensures
        match seal_config_spec(key@, nonce@, plain@) {
            Ok(s) => r matches Ok(v) && v@ == s,
            Err(m) => r matches Err(e) && crypto_error(e, m),
        },
        r matches Ok(v) ==> trim(v@) == v@,
{
    let n: &[u8] = nonce;
    match aes_gcm_encrypt(key.as_slice(), n, plain) {
        None => Err(SqlError::Crypto(to_owned_string("aead::Error"))),
        Some(c) => {
            let mut payload: Vec<u8> = Vec::new();
            let mut i: usize = 0;
            while i < 12
                invariant
                    i <= 12,
                    n@.len() == 12,
                    payload@ == n@.take(i as int),
                decreases 12 - i,
            {
                payload.push(n[i]);
                i = i + 1;
                assert(payload@ =~= n@.take(i as int));
            }
            let mut j: usize = 0;
            while j < c.len()
                invariant
                    j <= c@.len(),
                    n@.len() == 12,
                    payload@ == n@ + c@.take(j as int),
                decreases c@.len() - j,
            {
                payload.push(c[j]);
                j = j + 1;
                assert(payload@ =~= n@ + c@.take(j as int));
            }
            assert(c@.take(c@.len() as int) =~= c@);
            let text = base64_encode(payload.as_slice());
            proof {
                lemma_trim_base64(text@);
            }
            Ok(text)
        },
    }
}

} // verus!
