//! Secrets, password hashes and random identifiers.

use vstd::prelude::*;
use vstd::string::StringSliceAdditionalSpecFns;

use crate::git::opt_view;

verus! {

/// The 62 ASCII letters and digits: identifiers of jobs, repositories and users.
pub const ALPHA_NUMERIC: &'static str = "0123456789abcdefghijklmnopqrstuvwxyzABCDEFGHIJKLMNOPQRSTUVWXYZ";

/// The 64 URL-safe characters: salts and raw secret material.
pub const URL_SAFE: &'static str = "_-0123456789abcdefghijklmnopqrstuvwxyzABCDEFGHIJKLMNOPQRSTUVWXYZ";

pub uninterp spec fn sha3_256_digest(data: Seq<u8>) -> Seq<u8>;

/// Relies on sha3's `Sha3_256`: the SHA3-256 digest of the data, 32 bytes long.
#[verifier::external_body]
fn sha3_256(data: &[u8]) -> (r: Vec<u8>)
    ensures
        r@ == sha3_256_digest(data@),
        r@.len() == 32,
{
    <sha3::Sha3_256 as sha3::Digest>::digest(data).to_vec()
}

/// The lower-case hexadecimal digit for `n < 16`.
pub open spec fn hex_digit(n: u8) -> char {
    if n < 10 {
        ((48 + n) as u32) as char
    } else {
        ((87 + n) as u32) as char
    }
}

/// One byte as two lower-case hexadecimal digits: `0a` for 10, `ff` for 255.
pub open spec fn byte_hex(b: u8) -> Seq<char> {
    seq![hex_digit(b / 16), hex_digit(b % 16)]
}

/// The bytes in lower-case hexadecimal, two digits each.
pub open spec fn hex_lower(bs: Seq<u8>) -> Seq<char>
    decreases bs.len(),
{
    if bs.len() == 0 {
        Seq::empty()
    } else {
        hex_lower(bs.drop_last()) + byte_hex(bs.last())
    }
}

/// A digit of `0-9a-f`.
pub open spec fn is_lower_hex(c: char) -> bool {
    ('0' <= c && c <= '9') || ('a' <= c && c <= 'f')
}

/// Lower-case hex has two digits per byte, each of `0-9a-f`.
pub proof fn lemma_hex_lower_shape(bs: Seq<u8>)
    ensures
        hex_lower(bs).len() == 2 * bs.len(),
        forall|i: int| 0 <= i < hex_lower(bs).len() ==> is_lower_hex(#[trigger] hex_lower(bs)[i]),
    decreases bs.len(),
{
    if bs.len() > 0 {
        lemma_hex_lower_shape(bs.drop_last());
        let prev = hex_lower(bs.drop_last());
        let b = bs.last();
        let h = hex_lower(bs);
        assert(b / 16 < 16 && b % 16 < 16);
        assert forall|i: int| 0 <= i < h.len() implies is_lower_hex(#[trigger] h[i]) by {
            if i < prev.len() {
                assert(h[i] == prev[i]);
            } else if i == prev.len() {
                assert(h[i] == hex_digit(b / 16));
            } else {
                assert(h[i] == hex_digit(b % 16));
            }
        }
    }
}

/// Relies on std's `String::push`: appends one character.
#[verifier::external_body]
pub(crate) fn push_char(s: &mut String, c: char)
    ensures
        final(s)@ == old(s)@.push(c),
{
    s.push(c)
}

fn hex_digit_char(n: u8) -> (c: char)
    requires
        n < 16,
    ensures
        c == hex_digit(n),
{
    if n < 10 {
        (48 + n) as char
    } else {
        (87 + n) as char
    }
}

fn hex_of_bytes(bs: &Vec<u8>) -> (r: String)
    ensures
        r@ == hex_lower(bs@),
{
    let mut out = String::new();
    let mut i: usize = 0;
    while i < bs.len()
        invariant
            0 <= i <= bs.len(),
            out@ == hex_lower(bs@.take(i as int)),
        decreases bs.len() - i,
    {
        let b: u8 = bs[i];
        proof {
            assert(bs@.take(i as int + 1).drop_last() =~= bs@.take(i as int));
            assert(bs@.take(i as int + 1).last() == b);
        }
        push_char(&mut out, hex_digit_char(b / 16));
        push_char(&mut out, hex_digit_char(b % 16));
        i += 1;
    }
    proof {
        assert(bs@.take(bs@.len() as int) =~= bs@);
    }
    out
}

/// The stored form of a repository secret.
pub open spec fn hashed_value(s: Seq<u8>) -> Seq<char> {
    hex_lower(sha3_256_digest(s))
}

/// A one-way digest of a repository secret: SHA3-256 of its UTF-8 bytes, in lower-case hex.
#[derive(Debug, Clone)]
pub struct HashedValue(pub String);

impl HashedValue {
    pub fn new(val: &str) -> (r: Self)
        ensures
            r.0@ == hashed_value(val.spec_bytes()),
            r.0@.len() == 64,
            forall|i: int| 0 <= i < r.0@.len() ==> is_lower_hex(#[trigger] r.0@[i]),
    {
        let digest = sha3_256(val.as_bytes());
        proof {
            lemma_hex_lower_shape(digest@);
        }
        HashedValue(hex_of_bytes(&digest))
    }

    pub fn into_string(self) -> (r: String)
        ensures
            r == self.0,
    {
        self.0
    }
}

/// Argon2 cost parameters: memory in KiB, passes, lanes, hash length in bytes.
pub open spec fn password_params() -> (u32, u32, u32, u32) {
    (4096, 3, 1, 32)
}

pub uninterp spec fn argon2id_encoding(pwd: Seq<u8>, salt: Seq<u8>, params: (u32, u32, u32, u32)) -> Option<Seq<char>>;

pub uninterp spec fn argon2_verdict(encoded: Seq<char>, pwd: Seq<u8>) -> Option<bool>;

/// Relies on rust-argon2's `hash_encoded` with Argon2id, version 1.3, sequential lanes and
/// no secret or associated data: the self-describing encoding of the hash. It fails only when
/// `Context::new` refuses the input: lanes outside 1 to 2^24 - 1, memory under 8 KiB per lane
/// or above its platform ceiling (0x200000 KiB on 32-bit targets), no pass, a hash under
/// 4 bytes, a salt under 8 bytes, or a password or salt over `u32::MAX` bytes.
/// `verify_encoded` accepts the encoding for the same password.
#[verifier::external_body]
fn argon2id_hash_encoded(pwd: &[u8], salt: &[u8], mem_cost: u32, time_cost: u32, lanes: u32, hash_length: u32) -> (r: Option<String>)
    ensures
        opt_view(r) == argon2id_encoding(pwd@, salt@, (mem_cost, time_cost, lanes, hash_length)),
        salt@.len() < 8 ==> r is None,
        1 <= lanes <= 0xFF_FFFF && 8 * lanes <= mem_cost <= 0x20_0000 && 1 <= time_cost && 4
            <= hash_length && 8 <= salt@.len() <= u32::MAX && pwd@.len() <= u32::MAX ==> r is Some,
        r matches Some(e) ==> argon2_verdict(e@, pwd@) == Some(true),
{
    let config = argon2::Config {
        variant: argon2::Variant::Argon2id,
        version: argon2::Version::Version13,
        mem_cost,
        time_cost,
        lanes,
        thread_mode: argon2::ThreadMode::Sequential,
        secret: &[],
        ad: &[],
        hash_length,
    };
    argon2::hash_encoded(pwd, salt, &config).ok()
}

/// Relies on rust-argon2's `verify_encoded`: decodes parameters, salt and hash from the
/// encoding and checks the password against them; an error for a malformed encoding.
#[verifier::external_body]
fn argon2_verify_encoded(encoded: &str, pwd: &[u8]) -> (r: Option<bool>)
    ensures
        r == argon2_verdict(encoded@, pwd@),
{
    argon2::verify_encoded(encoded, pwd).ok()
}

/// The stored password `encoded` accepts the password `p`.
pub open spec fn password_accepts(encoded: Seq<char>, p: Seq<u8>) -> bool {
    argon2_verdict(encoded, p) == Some(true)
}

/// A user password hashed with Argon2id and a per-user salt, in its encoded form.
#[derive(Debug, Clone)]
pub struct HashedPassword(pub String);

impl HashedPassword {
    /// Hashes `password` with `salt`; `None` when Argon2 refuses the input (a salt under
    /// 8 bytes). A hash always verifies against the password it was made from.
    pub fn new(password: &str, salt: &str) -> (r: Option<Self>)
        ensures
            opt_view(
                match r {
                    Some(h) => Some(h.0),
                    None => None,
                },
            ) == argon2id_encoding(password.spec_bytes(), salt.spec_bytes(), password_params()),
            salt.spec_bytes().len() < 8 ==> r is None,
            8 <= salt.spec_bytes().len() <= u32::MAX && password.spec_bytes().len() <= u32::MAX
                ==> r is Some,
            r matches Some(h) ==> password_accepts(h.0@, password.spec_bytes()),
    {
        match argon2id_hash_encoded(password.as_bytes(), salt.as_bytes(), 4096, 3, 1, 32) {
            Some(e) => Some(HashedPassword(e)),
            None => None,
        }
    }

    /// Whether `input_password` matches the stored encoding; a malformed encoding matches nothing.
    pub fn verify(input_password: &str, stored_password: &str) -> (r: bool)
        ensures
            r == password_accepts(stored_password@, input_password.spec_bytes()),
    {
        match argon2_verify_encoded(stored_password, input_password.as_bytes()) {
            Some(b) => b,
            None => false,
        }
    }

    pub fn into_string(self) -> (r: String)
        ensures
            r == self.0,
    {
        self.0
    }
}

/// Relies on secstr's `SecStr` equality: the two byte strings are compared in constant time.
#[verifier::external_body]
pub(crate) fn secrets_equal(a: &str, b: &str) -> (r: bool)
    ensures
        r == (a@ == b@),
{
    secstr::SecStr::from(a) == secstr::SecStr::from(b)
}

pub open spec fn all_ascii(s: Seq<char>) -> bool {
    forall|i: int| 0 <= i < s.len() ==> (#[trigger] s[i] as u32) < 128
}

/// Relies on nanoid's `format` with its operating-system random source: `size` characters,
/// each drawn from the alphabet (ASCII, at most 255 characters; the loop ends for a size above 0).
#[verifier::external_body]
fn random_string(alphabet: &str, size: usize) -> (r: String)
    requires
        0 < size,
        0 < alphabet@.len() <= 255,
        all_ascii(alphabet@),
    ensures
        r@.len() == size,
        forall|i: int| 0 <= i < r@.len() ==> alphabet@.contains(#[trigger] r@[i]),
{
    let chars: Vec<char> = alphabet.chars().collect();
    nanoid::format(nanoid::rngs::default, &chars, size)
}

/// A fresh random identifier of `size` letters and digits.
pub fn random_alphanumeric(size: usize) -> (r: String)
    requires
        0 < size,
    ensures
        r@.len() == size,
        forall|i: int| 0 <= i < r@.len() ==> ALPHA_NUMERIC@.contains(#[trigger] r@[i]),
{
    proof {
        reveal_strlit("0123456789abcdefghijklmnopqrstuvwxyzABCDEFGHIJKLMNOPQRSTUVWXYZ");
    }
    random_string(ALPHA_NUMERIC, size)
}

/// A fresh random string of `size` URL-safe characters.
pub fn random_url_safe(size: usize) -> (r: String)
    requires
        0 < size,
    ensures
        r@.len() == size,
        forall|i: int| 0 <= i < r@.len() ==> URL_SAFE@.contains(#[trigger] r@[i]),
{
    proof {
        reveal_strlit("_-0123456789abcdefghijklmnopqrstuvwxyzABCDEFGHIJKLMNOPQRSTUVWXYZ");
    }
    random_string(URL_SAFE, size)
}

} // verus!
