use vstd::prelude::*;
use crypto::digest::Digest;
use rand::Rng;
use crate::common::text::push_char;
use crate::common::cipher::{hex_decode, hex_digit, sm4_cbc_decrypt_hex, sm4_cbc_decrypt_hex_checked, sm4_cbc_decrypt_hex_spec, sm4_cbc_encrypt_hex, sm4_cbc_encrypt_hex_of};

verus! {

/// The lowercase hexadecimal MD5 digest of the UTF-8 bytes of a text.
pub uninterp spec fn md5_hex_of(text: Seq<char>) -> Seq<char>;

/// Whether every character of `s` is a lowercase hexadecimal digit.
pub open spec fn is_lower_hex(s: Seq<char>) -> bool {
    forall|i: int| 0 <= i < s.len() ==> ('0' <= #[trigger] s[i] <= '9' || 'a' <= s[i] <= 'f')
}

/// Calls `crypto::md5::Md5` (`input_str`, then `result_str`). The result is
/// named `md5_hex_of`; rust-crypto's `result_str` writes each of the 16
/// digest bytes as two lowercase hex digits.
#[verifier::external_body]
fn md5_hex(text: &str) -> (r: String)
    ensures
        r@ == md5_hex_of(text@),
        r@.len() == 32,
        is_lower_hex(r@),
{
    let mut hasher = crypto::md5::Md5::new();
    hasher.input_str(text);
    hasher.result_str()
}

/// MD5 of `text` as 32 lowercase hex digits.
pub fn md5(text: String) -> (r: String)
    ensures
        r@ == md5_hex_of(text@),
        r@.len() == 32,
        is_lower_hex(r@),
{
    md5_hex(text.as_str())
}


/// The lowercase hexadecimal SHA-1 digest of the UTF-8 bytes of a text.
pub uninterp spec fn sha1_hex_of(text: Seq<char>) -> Seq<char>;

/// Calls `crypto::sha1::Sha1` (`input_str`, then `result_str`). The result
/// is named `sha1_hex_of`; `result_str` writes each of the 20 digest bytes
/// as two lowercase hex digits.
#[verifier::external_body]
fn sha1_hex(text: &str) -> (r: String)
    ensures
        r@ == sha1_hex_of(text@),
        r@.len() == 40,
        is_lower_hex(r@),
{
    let mut hasher = crypto::sha1::Sha1::new();
    hasher.input_str(text);
    hasher.result_str()
}

/// The text that is hashed to salt `text` with `salt`.
pub open spec fn salted(text: Seq<char>, salt: Seq<char>) -> Seq<char> {
    "RUST"@ + text + "PANEL"@ + salt + "CATTLE"@
}

/// The salted SHA-1 of a password, as stored for a user.
pub open spec fn sha1_salt_of(text: Seq<char>, salt: Seq<char>) -> Seq<char> {
    sha1_hex_of(salted(text, salt))
}

/// The SHA-1 of `RUST<text>PANEL<salt>CATTLE`, as 40 lowercase hex digits.
pub fn sha1_salt(text: String, salt: String) -> (r: String)
    ensures
        r@ == sha1_salt_of(text@, salt@),
        r@.len() == 40,
        is_lower_hex(r@),
{
    let mut input = String::from_str("RUST");
    input.append(text.as_str());
    input.append("PANEL");
    input.append(salt.as_str());
    input.append("CATTLE");
    sha1_hex(input.as_str())
}

/// The characters that random strings are made of.
pub open spec fn random_charset() -> Seq<char> {
    "0123456789ABCDEFGHIJKLMNOPQRSTUVWXYZabcdefghijklmnopqrstuvwxyz"@
}

/// Calls `rand::Rng::gen_range(low..high)` on the thread's generator. The
/// outcome is random: it is only known to lie in the range (`gen_range`
/// panics on an empty range, so the range must not be empty).
#[verifier::external_body]
pub(crate) fn random_in(low: usize, high: usize) -> (r: usize)
    requires
        low < high,
    ensures
        low <= r < high,
{
    rand::thread_rng().gen_range(low..high)
}

/// The string whose characters are the random-string characters at the
/// positions `indices`, in order.
pub fn random_string_from(indices: &Vec<usize>) -> (r: String)
    requires
        forall|i: int| 0 <= i < indices.len() ==> indices[i] < 62,
    ensures
        r@.len() == indices.len(),
        forall|i: int| 0 <= i < indices.len() ==> r@[i] == random_charset()[indices[i] as int],
{
    let charset = "0123456789ABCDEFGHIJKLMNOPQRSTUVWXYZabcdefghijklmnopqrstuvwxyz";
    proof {
        reveal_strlit("0123456789ABCDEFGHIJKLMNOPQRSTUVWXYZabcdefghijklmnopqrstuvwxyz");
    }
    let chars = crate::common::text::chars_of(charset);
    let mut r = String::new();
    let mut k: usize = 0;
    while k < indices.len()
        invariant
            chars@ == random_charset(),
            chars@.len() == 62,
            forall|i: int| 0 <= i < indices.len() ==> indices[i] < 62,
            k <= indices.len(),
            r@.len() == k,
            forall|i: int| 0 <= i < k ==> r@[i] == random_charset()[indices[i] as int],
        decreases indices.len() - k,
    {
        let ghost before = r@;
        push_char(&mut r, chars[indices[k]]);
        assert forall|i: int| 0 <= i < k + 1 implies r@[i] == random_charset()[indices[i] as int] by {
            if i < k {
                assert(r@[i] == before[i]);
            }
        }
        k = k + 1;
    }
    r
}

/// `length` positions in the random-string characters, each drawn at random
/// with `random_in`.
pub fn draw_indices(length: usize) -> (r: Vec<usize>)
    ensures
        r.len() == length,
        forall|i: int| 0 <= i < length ==> r[i] < 62,
{
    let mut r: Vec<usize> = Vec::new();
    let mut k: usize = 0;
    while k < length
        invariant
            k <= length,
            r.len() == k,
            forall|i: int| 0 <= i < k ==> r[i] < 62,
        decreases length - k,
    {
        r.push(random_in(0, 62));
        k = k + 1;
    }
    r
}

/// A random string of `length` characters, each a digit or an ASCII letter:
/// the characters at `length` freshly drawn positions.
pub fn generate_random_string(length: usize) -> (r: String)
    ensures
        r@.len() == length,
        forall|i: int| 0 <= i < length ==> random_charset().contains(#[trigger] r@[i]),
{
    let indices = draw_indices(length);
    let r = random_string_from(&indices);
    proof {
        reveal_strlit("0123456789ABCDEFGHIJKLMNOPQRSTUVWXYZabcdefghijklmnopqrstuvwxyz");
    }
    assert forall|i: int| 0 <= i < length implies random_charset().contains(#[trigger] r@[i]) by {
        assert(0 <= indices[i] < random_charset().len());
        assert(random_charset()[indices[i] as int] == r@[i]);
    }
    r
}

/// Lowercase hexadecimal text of even length decodes, to half as many bytes.
proof fn lemma_lower_hex_decodes(s: Seq<char>)
    requires
        is_lower_hex(s),
        s.len() % 2 == 0,
    ensures
        hex_decode(s) is Some,
        hex_decode(s)->0.len() == s.len() / 2,
    decreases s.len(),
{
    if s.len() >= 2 {
        let rest = s.skip(2);
        assert forall|i: int| 0 <= i < rest.len() implies ('0' <= #[trigger] rest[i] <= '9' || 'a' <= rest[i] <= 'f') by {
            assert(rest[i] == s[i + 2]);
        }
        lemma_lower_hex_decodes(rest);
        assert('0' <= s[0] <= '9' || 'a' <= s[0] <= 'f');
        assert('0' <= s[1] <= '9' || 'a' <= s[1] <= 'f');
        assert(hex_digit(s[0]) is Some);
        assert(hex_digit(s[1]) is Some);
    }
}

/// The key (and iv) of file contents: the MD5 of a fixed text, in hexadecimal.
pub open spec fn file_key() -> Seq<char> {
    md5_hex_of("01b394cebf636ef53fe44c46a10abea2f54f60e6"@)
}

/// What a file content sent by the browser decrypts to under the file key;
/// none where it does not decrypt.
pub open spec fn file_plaintext(encrypted: Seq<char>) -> Option<Seq<char>> {
    sm4_cbc_decrypt_hex_spec(encrypted, file_key(), file_key())
}

/// The iv of login data: the MD5 of the key, in hexadecimal.
pub open spec fn login_iv(key: Seq<char>) -> Seq<char> {
    md5_hex_of(key)
}

/// The key of login data: the MD5 of the key, the token `t` and the iv.
pub open spec fn login_key(key: Seq<char>, t: Seq<char>) -> Seq<char> {
    md5_hex_of(key + t + login_iv(key))
}

/// What login data sent by the browser decrypts to for `key` and token `t`;
/// none where it does not decrypt.
pub open spec fn login_plaintext(encrypted: Seq<char>, key: Seq<char>, t: Seq<char>) -> Option<Seq<char>> {
    sm4_cbc_decrypt_hex_spec(encrypted, login_key(key, t), login_iv(key))
}

/// The file key as text; it is hexadecimal for 16 bytes.
fn file_key_text() -> (r: String)
    ensures
        r@ == file_key(),
        hex_decode(r@) matches Some(k) && k.len() == 16,
{
    let key = md5(String::from_str("01b394cebf636ef53fe44c46a10abea2f54f60e6"));
    proof {
        lemma_lower_hex_decodes(key@);
    }
    key
}

fn login_key_iv(key: &str, t: &str) -> (r: (String, String))
    ensures
        r.0@ == login_key(key@, t@),
        r.1@ == login_iv(key@),
{
    let iv = md5(String::from_str(key));
    let mut with_token = String::from_str(key);
    with_token.append(t);
    with_token.append(iv.as_str());
    let encryption_key = md5(with_token);
    (encryption_key, iv)
}

/// Decrypts login data sent by the browser: SM4-CBC with the key
/// `md5(key + t + md5(key))` and the iv `md5(key)`. The input must decrypt.
pub fn sm4_decrypt_login(encrypted_text: String, key: String, t: String) -> (r: String)
    requires
        login_plaintext(encrypted_text@, key@, t@) is Some,
    ensures
        login_plaintext(encrypted_text@, key@, t@) == Some(r@),
{
    let (encryption_key, iv) = login_key_iv(key.as_str(), t.as_str());
    sm4_cbc_decrypt_hex(encrypted_text.as_str(), encryption_key.as_str(), iv.as_str())
}

/// Decrypts login data as `sm4_decrypt_login` does, or gives none when it
/// does not decrypt.
pub fn try_sm4_decrypt_login(encrypted_text: String, key: String, t: String) -> (r: Option<String>)
    ensures
        match r {
            Some(p) => login_plaintext(encrypted_text@, key@, t@) == Some(p@),
            None => login_plaintext(encrypted_text@, key@, t@) is None,
        },
{
    let (encryption_key, iv) = login_key_iv(key.as_str(), t.as_str());
    if sm4_cbc_decrypt_hex_checked(encrypted_text.as_str(), encryption_key.as_str(), iv.as_str()).is_some() {
        Some(sm4_decrypt_login(encrypted_text, key, t))
    } else {
        None
    }
}

/// Decrypts a file content sent by the browser with the file key. The input must decrypt.
pub fn sm4_decrypt_file(encrypted_text: String) -> (r: String)
    requires
        file_plaintext(encrypted_text@) is Some,
    ensures
        file_plaintext(encrypted_text@) == Some(r@),
{
    let key = file_key_text();
    sm4_cbc_decrypt_hex(encrypted_text.as_str(), key.as_str(), key.as_str())
}

/// Decrypts a file content as `sm4_decrypt_file` does, or gives none when it does not decrypt.
pub fn try_sm4_decrypt_file(encrypted_text: String) -> (r: Option<String>)
    ensures
        match r {
            Some(p) => file_plaintext(encrypted_text@) == Some(p@),
            None => file_plaintext(encrypted_text@) is None,
        },
{
    let key = file_key_text();
    if sm4_cbc_decrypt_hex_checked(encrypted_text.as_str(), key.as_str(), key.as_str()).is_some() {
        Some(sm4_decrypt_file(encrypted_text))
    } else {
        None
    }
}

/// Encrypts a file content for the browser with the file key. Decrypting
/// the result with `sm4_decrypt_file` gives `plain` back.
pub fn sm4_encrypt_file(plain: &str) -> (r: String)
    ensures
        r@ == sm4_cbc_encrypt_hex_of(plain@, file_key(), file_key()),
        file_plaintext(r@) == Some(plain@),
{
    let key = file_key_text();
    sm4_cbc_encrypt_hex(plain, key.as_str(), key.as_str())
}


/// The lowercase form of a text, by `str::to_lowercase`.
pub uninterp spec fn lowercase_of(text: Seq<char>) -> Seq<char>;

/// Calls `str::to_lowercase`; the result is named `lowercase_of`. As its
/// documentation says, each character is replaced by its lowercase mapping,
/// so the empty text stays empty.
#[verifier::external_body]
fn to_lowercase(text: &str) -> (r: String)
    ensures
        r@ == lowercase_of(text@),
        text@.len() == 0 ==> r@.len() == 0,
{
    text.to_lowercase()
}

/// Whether a process whose name is `found` (none when there is no process
/// with the id) answers to `name`: any process does when no name is asked
/// for; otherwise its name must contain the asked name, ignoring case.
pub open spec fn process_matches_spec(found: Option<Seq<char>>, name: Option<Seq<char>>) -> bool {
    match found {
        None => false,
        Some(f) => match name {
            None => true,
            Some(n) => crate::common::text::has_infix(lowercase_of(f), lowercase_of(n)),
        },
    }
}

/// Whether the process found for an id answers to the name asked for. An
/// empty name asks for nothing: any process found answers to it.
pub fn process_matches(found: Option<&str>, name: Option<&str>) -> (r: bool)
    ensures
        (name matches Some(n) && n@.len() == 0) ==> (r == found is Some),
        r == process_matches_spec(
            match found {
                Some(f) => Some(f@),
                None => None,
            },
            match name {
                Some(n) => Some(n@),
                None => None,
            },
        ),
{
    match found {
        None => false,
        Some(f) => match name {
            None => true,
            Some(n) => {
                let fl = to_lowercase(f);
                let nl = to_lowercase(n);
                proof {
                    if n@.len() == 0 {
                        assert(fl@.subrange(0, 0) =~= nl@);
                        assert(crate::common::text::occurs_at(fl@, nl@, 0));
                    }
                }
                crate::common::text::contains(fl.as_str(), nl.as_str())
            },
        },
    }
}

} // verus!
