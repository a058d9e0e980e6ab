use vstd::prelude::*;
use crate::common::text::chars_of;

verus! {

/// The value of a hexadecimal digit, either case.
pub open spec fn hex_digit(c: char) -> Option<u8> {
    if '0' <= c <= '9' {
        Some((c as u32 - '0' as u32) as u8)
    } else if 'a' <= c <= 'f' {
        Some((c as u32 - 'a' as u32 + 10) as u8)
    } else if 'A' <= c <= 'F' {
        Some((c as u32 - 'A' as u32 + 10) as u8)
    } else {
        None
    }
}

/// The bytes that a hexadecimal text stands for, two digits per byte, high
/// digit first; none for an odd length or a character that is not a digit.
pub open spec fn hex_decode(s: Seq<char>) -> Option<Seq<u8>>
    decreases s.len(),
{
    if s.len() == 0 {
        Some(Seq::empty())
    } else if s.len() == 1 {
        None
    } else {
        match (hex_digit(s[0]), hex_digit(s[1]), hex_decode(s.skip(2))) {
            (Some(hi), Some(lo), Some(rest)) => Some(seq![(hi * 16 + lo) as u8] + rest),
            _ => None,
        }
    }
}

fn hex_digit_exec(c: char) -> (r: Option<u8>)
    ensures
        r == hex_digit(c),
{
    if '0' <= c && c <= '9' {
        Some((c as u32 - '0' as u32) as u8)
    } else if 'a' <= c && c <= 'f' {
        Some((c as u32 - 'a' as u32 + 10) as u8)
    } else if 'A' <= c && c <= 'F' {
        Some((c as u32 - 'A' as u32 + 10) as u8)
    } else {
        None
    }
}

proof fn lemma_hex_decode_skip(s: Seq<char>, i: int)
    requires
        0 <= i,
        2 * i + 2 <= s.len(),
    ensures
        hex_decode(s.skip(2 * i)) == match (
            hex_digit(s[2 * i]),
            hex_digit(s[2 * i + 1]),
            hex_decode(s.skip(2 * i + 2)),
        ) {
            (Some(hi), Some(lo), Some(rest)) => Some(seq![(hi * 16 + lo) as u8] + rest),
            _ => None,
        },
{
    assert(s.skip(2 * i).skip(2) =~= s.skip(2 * i + 2));
}

/// Whether `o` is `prefix` followed by what `rest` holds.
pub open spec fn prefixed(prefix: Seq<u8>, rest: Option<Seq<u8>>) -> Option<Seq<u8>> {
    match rest {
        Some(r) => Some(prefix + r),
        None => None,
    }
}

/// The bytes that the hexadecimal text `s` stands for, if it is one.
pub fn hex_decode_text(s: &str) -> (r: Option<Vec<u8>>)
    ensures
        match r {
            Some(b) => hex_decode(s@) == Some(b@),
            None => hex_decode(s@) is None,
        },
{
    let cs = chars_of(s);
    let mut out: Vec<u8> = Vec::new();
    let mut i: usize = 0;
    assert(cs@.skip(0) =~= cs@);
    assert(out@ + Seq::<u8>::empty() =~= out@);
    while 2 * i + 1 < cs.len()
        invariant
            cs@ == s@,
            2 * i <= cs.len(),
            hex_decode(s@) == prefixed(out@, hex_decode(cs@.skip(2 * i))),
        decreases cs.len() - 2 * i,
    {
        proof {
            lemma_hex_decode_skip(cs@, i as int);
        }
        let hi = hex_digit_exec(cs[2 * i]);
        let lo = hex_digit_exec(cs[2 * i + 1]);
        match (hi, lo) {
            (Some(h), Some(l)) => {
                let ghost before = out@;
                assert(h < 16 && l < 16);
                out.push(h * 16 + l);
                proof {
                    match hex_decode(cs@.skip(2 * i + 2)) {
                        Some(rest) => {
                            assert(before + (seq![(h * 16 + l) as u8] + rest) =~= out@ + rest);
                        },
                        None => {},
                    }
                }
                i = i + 1;
            },
            _ => {
                return None;
            },
        }
    }
    if 2 * i == cs.len() {
        assert(cs@.skip(2 * i) =~= Seq::<char>::empty());
        assert(out@ + Seq::<u8>::empty() =~= out@);
        Some(out)
    } else {
        assert(cs@.skip(2 * i).len() == 1);
        None
    }
}

/// The bytes of `a` and `b` combined by exclusive or, position by position.
pub open spec fn xor_bytes(a: Seq<u8>, b: Seq<u8>) -> Seq<u8> {
    Seq::new(a.len(), |i: int| a[i] ^ b[i])
}

/// SM4's decryption of one 16-byte block with a 16-byte key.
pub uninterp spec fn sm4_block_decrypted(key: Seq<u8>, block: Seq<u8>) -> Seq<u8>;

/// Calls `gmsm::g4::cipher::new_cipher` to expand the key and
/// `gmsm::g4::cipher::Block::decrypt` on one block. The result is named
/// `sm4_block_decrypted`; `decrypt` writes a whole 16-byte block.
#[verifier::external_body]
fn sm4_decrypt_block(key: &[u8], block: &[u8]) -> (r: Vec<u8>)
    requires
        key@.len() == 16,
        block@.len() == 16,
    ensures
        r@ == sm4_block_decrypted(key@, block@),
        r@.len() == 16,
{
    let mut cipher = gmsm::g4::cipher::new_cipher(key);
    let mut out = [0u8; 16];
    cipher.decrypt(&mut out, block);
    out.to_vec()
}

/// CBC decryption of the whole 16-byte blocks of `data`, each block's
/// decryption combined with the block before it (`iv` before the first).
pub open spec fn cbc_blocks(key: Seq<u8>, iv: Seq<u8>, data: Seq<u8>) -> Seq<u8>
    decreases data.len(),
{
    if data.len() < 16 {
        Seq::empty()
    } else {
        xor_bytes(sm4_block_decrypted(key, data.take(16)), iv) + cbc_blocks(key, data.take(16), data.skip(16))
    }
}

/// The bytes that CBC decryption of `data` yields before padding is removed:
/// the decrypted whole blocks, then zeros for the bytes of a trailing partial block.
pub open spec fn cbc_raw(key: Seq<u8>, iv: Seq<u8>, data: Seq<u8>) -> Seq<u8> {
    cbc_blocks(key, iv, data) + Seq::new((data.len() % 16) as nat, |i: int| 0u8)
}

/// `b` without its PKCS#7 padding: the last byte `n` says how many bytes of
/// value `n` end the text. None when the text is empty or the padding is not such.
pub open spec fn pkcs7_unpadded(b: Seq<u8>) -> Option<Seq<u8>> {
    if b.len() == 0 {
        None
    } else {
        let n = b.last() as int;
        if n <= b.len() && (forall|i: int| b.len() - n <= i < b.len() ==> b[i] == n) {
            Some(b.take(b.len() - n))
        } else {
            None
        }
    }
}

/// The text that lossy UTF-8 decoding makes of some bytes.
pub uninterp spec fn utf8_lossy_of(bytes: Seq<u8>) -> Seq<char>;

/// The plaintext bytes that SM4-CBC decryption with hexadecimal `cipher`,
/// `key` and `iv` gives, as `gmsm::sm4::sm4_cbc_decrypt_hex` computes them
/// before it decodes them as text; none where that function panics (text
/// that is not hexadecimal, a key that is not 16 bytes, an iv that is not
/// 16 bytes when there is a whole block, or bad padding).
pub open spec fn sm4_cbc_plain_bytes(cipher: Seq<char>, key: Seq<char>, iv: Seq<char>) -> Option<Seq<u8>> {
    match (hex_decode(cipher), hex_decode(key), hex_decode(iv)) {
        (Some(c), Some(k), Some(v)) => {
            if k.len() == 16 && (c.len() < 16 || v.len() == 16) {
                pkcs7_unpadded(cbc_raw(k, v, c))
            } else {
                None
            }
        },
        _ => None,
    }
}

/// The text that `gmsm::sm4::sm4_cbc_decrypt_hex` returns for hexadecimal
/// `cipher`, `key` and `iv`: the plaintext bytes decoded as lossy UTF-8;
/// none where it panics.
pub open spec fn sm4_cbc_decrypt_hex_spec(cipher: Seq<char>, key: Seq<char>, iv: Seq<char>) -> Option<Seq<char>> {
    match sm4_cbc_plain_bytes(cipher, key, iv) {
        Some(p) => Some(utf8_lossy_of(p)),
        None => None,
    }
}

/// Calls `gmsm::sm4::sm4_cbc_decrypt_hex`. It panics where
/// `sm4_cbc_plain_bytes` is none, which `requires` leaves out. The contract
/// claims what its source shows: the three texts are hex-decoded, the
/// whole 16-byte blocks are decrypted in CBC mode with gmsm's block
/// decryption, a trailing partial block leaves zeros, the PKCS#7 padding is
/// removed, and the bytes are decoded with `String::from_utf8_lossy`.
#[verifier::external_body]
pub(crate) fn sm4_cbc_decrypt_hex(cipher: &str, key: &str, iv: &str) -> (r: String)
    requires
        sm4_cbc_plain_bytes(cipher@, key@, iv@) is Some,
    ensures
        r@ == utf8_lossy_of(sm4_cbc_plain_bytes(cipher@, key@, iv@)->0),
{
    gmsm::sm4::sm4_cbc_decrypt_hex(cipher, key, iv)
}

fn cbc_decrypt(key: &Vec<u8>, iv: &Vec<u8>, data: &Vec<u8>) -> (r: Vec<u8>)
    requires
        key@.len() == 16,
        data@.len() < 16 || iv@.len() == 16,
    ensures
        r@ == cbc_raw(key@, iv@, data@),
{
    let mut out: Vec<u8> = Vec::new();
    let mut prev: Vec<u8> = iv.clone();
    let mut i: usize = 0;
    let blocks = data.len() / 16;
    assert(data@.skip(0) =~= data@);
    while i < blocks
        invariant
            key@.len() == 16,
            blocks == data@.len() / 16,
            i <= blocks,
            i == 0 ==> prev@ == iv@,
            i > 0 ==> prev@ == data@.subrange(16 * i - 16, 16 * i as int),
            data@.len() < 16 || iv@.len() == 16,
            prev@.len() == 16 || data@.len() < 16,
            cbc_blocks(key@, iv@, data@) == out@ + cbc_blocks(key@, prev@, data@.skip(16 * i as int)),
            out@.len() == 16 * i,
        decreases blocks - i,
    {
        let ghost rest = data@.skip(16 * i as int);
        assert(16 * i + 16 <= data@.len()) by (nonlinear_arith)
            requires
                i < blocks,
                blocks == data@.len() / 16,
        ;
        assert(data@.len() == data.len());
        let base = 16 * i;
        let mut block: Vec<u8> = Vec::new();
        let mut k: usize = 0;
        while k < 16
            invariant
                k <= 16,
                i < blocks,
                blocks == data@.len() / 16,
                base == 16 * i,
                base + 16 <= data@.len(),
                block@ == data@.subrange(16 * i as int, 16 * i + k),
            decreases 16 - k,
        {
            block.push(data[base + k]);
            k = k + 1;
            assert(block@ =~= data@.subrange(16 * i as int, 16 * i + k));
        }
        let plain = sm4_decrypt_block(key.as_slice(), block.as_slice());
        let ghost before = out@;
        let mut j: usize = 0;
        while j < 16
            invariant
                j <= 16,
                plain@.len() == 16,
                prev@.len() == 16,
                out@ == before + xor_bytes(plain@, prev@).take(j as int),
            decreases 16 - j,
        {
            out.push(plain[j] ^ prev[j]);
            j = j + 1;
            assert(xor_bytes(plain@, prev@).take(j as int) =~= xor_bytes(plain@, prev@).take(j - 1).push(
                plain@[j - 1] ^ prev@[j - 1],
            ));
        }
        assert(xor_bytes(plain@, prev@).take(16) =~= xor_bytes(plain@, prev@));
        assert(rest.take(16) =~= block@);
        assert(rest.skip(16) =~= data@.skip(16 * (i + 1)));
        prev = block;
        i = i + 1;
    }
    assert(data@.skip(16 * i as int).len() < 16);
    let tail = data.len() % 16;
    let ghost blocks_part = out@;
    let mut z: usize = 0;
    while z < tail
        invariant
            z <= tail,
            out@ == blocks_part + Seq::new(z as nat, |q: int| 0u8),
        decreases tail - z,
    {
        out.push(0u8);
        z = z + 1;
        assert(out@ =~= blocks_part + Seq::new(z as nat, |q: int| 0u8));
    }
    assert(out@ =~= cbc_raw(key@, iv@, data@));
    out
}

/// Whether `b` ends in valid PKCS#7 padding.
fn pkcs7_valid(b: &Vec<u8>) -> (r: bool)
    ensures
        r == pkcs7_unpadded(b@) is Some,
{
    let len = b.len();
    if len == 0 {
        return false;
    }
    let n = b[len - 1] as usize;
    if n > len {
        return false;
    }
    let mut i: usize = len - n;
    while i < len
        invariant
            len == b@.len(),
            n == b@.last() as int,
            n <= len,
            len - n <= i <= len,
            forall|q: int| len - n <= q < i ==> b@[q] == n,
        decreases len - i,
    {
        if b[i] as usize != n {
            return false;
        }
        i = i + 1;
    }
    true
}

/// SM4-CBC decryption of hexadecimal `cipher` with hexadecimal `key` and
/// `iv` by `gmsm::sm4::sm4_cbc_decrypt_hex`, or none where that function
/// would panic. Whether it would depends on the padding of the decrypted
/// bytes, so they are decrypted here first to check it.
pub fn sm4_cbc_decrypt_hex_checked(cipher: &str, key: &str, iv: &str) -> (r: Option<String>)
    ensures
        match r {
            Some(t) => sm4_cbc_decrypt_hex_spec(cipher@, key@, iv@) == Some(t@),
            None => sm4_cbc_decrypt_hex_spec(cipher@, key@, iv@) is None,
        },
{
    let c = match hex_decode_text(cipher) {
        Some(c) => c,
        None => return None,
    };
    let k = match hex_decode_text(key) {
        Some(k) => k,
        None => return None,
    };
    let v = match hex_decode_text(iv) {
        Some(v) => v,
        None => return None,
    };
    if k.len() != 16 || (c.len() >= 16 && v.len() != 16) {
        return None;
    }
    let raw = cbc_decrypt(&k, &v, &c);
    if pkcs7_valid(&raw) {
        Some(sm4_cbc_decrypt_hex(cipher, key, iv))
    } else {
        None
    }
}

/// SM4-CBC encryption of the text `plain` under hexadecimal `key` and `iv`,
/// as uppercase hexadecimal.
pub uninterp spec fn sm4_cbc_encrypt_hex_of(plain: Seq<char>, key: Seq<char>, iv: Seq<char>) -> Seq<char>;

/// Calls `gmsm::sm4::sm4_cbc_encrypt_hex`. Its result is named
/// `sm4_cbc_encrypt_hex_of`. It panics unless key and iv are hexadecimal
/// texts of 16 bytes. The second clause states what its source shows: the
/// UTF-8 bytes of `plain` get PKCS#7 padding and are encrypted block by
/// block in CBC mode with gmsm's SM4, whose block decryption undoes its
/// block encryption; so decrypting the result gives `plain` back.
#[verifier::external_body]
pub(crate) fn sm4_cbc_encrypt_hex(plain: &str, key: &str, iv: &str) -> (r: String)
    requires
        hex_decode(key@) matches Some(k) && k.len() == 16,
        hex_decode(iv@) matches Some(v) && v.len() == 16,
    ensures
        r@ == sm4_cbc_encrypt_hex_of(plain@, key@, iv@),
        sm4_cbc_decrypt_hex_spec(r@, key@, iv@) == Some(plain@),
{
    gmsm::sm4::sm4_cbc_encrypt_hex(plain, key, iv)
}

} // verus!
