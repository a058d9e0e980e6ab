use rust_panel::api::auth::verify_password_sha1;
use rust_panel::common::cipher::{hex_decode_text, sm4_cbc_decrypt_hex_checked};
use rust_panel::common::fun::{
    generate_random_string, md5, process_matches, random_string_from, sha1_salt, sm4_decrypt_file, sm4_decrypt_login,
    sm4_encrypt_file, try_sm4_decrypt_file, try_sm4_decrypt_login,
};

const KEY: &str = "8A3F8665AAEE6F7A0CB8F40B971E3373";
const IV: &str = "88BA27B390F466ABE7C4327E1E60270B";
const PLAIN: &str = "hello world, this is sm4 test!";
const CIPHER: &str = "92662AD8A11D165EEF617AE3EDC4F9D4012A4C3CE7F42B15F26D1DA404CD97E0";

#[test]
fn md5_of_hello() {
    assert_eq!(md5(String::from("hello")), "5d41402abc4b2a76b9719d911017c592");
}

#[test]
fn md5_of_file_secret() {
    assert_eq!(
        md5(String::from("01b394cebf636ef53fe44c46a10abea2f54f60e6")),
        "24d12899b19093fa79c7f35a07374bf9"
    );
}

#[test]
fn sha1_salt_known_value() {
    assert_eq!(
        sha1_salt(String::from("admin"), String::from("salt")),
        "32c67ebb2f7cf564057b966dbc79e8c29e9f7762"
    );
}

#[test]
fn verify_password_accepts_right_and_rejects_wrong() {
    let hash = sha1_salt(String::from("secret"), String::from("pepper"));
    assert!(matches!(verify_password_sha1(&hash, "pepper", "secret"), Ok(true)));
    assert!(matches!(verify_password_sha1(&hash, "pepper", "Secret"), Ok(false)));
    assert!(matches!(verify_password_sha1(&hash, "salt", "secret"), Ok(false)));
}

#[test]
fn sm4_cbc_known_vector() {
    assert_eq!(sm4_cbc_decrypt_hex_checked(CIPHER, KEY, IV), Some(String::from(PLAIN)));
}

#[test]
fn sm4_decrypt_agrees_with_gmsm() {
    for plain in ["", "a", "0123456789abcdef", "exactly sixteen!", "多字节的文本 with ascii", "line\nbreaks\r\n"] {
        let c = gmsm::sm4::sm4_cbc_encrypt_hex(plain, KEY, IV);
        let expected = gmsm::sm4::sm4_cbc_decrypt_hex(&c, KEY, IV);
        assert_eq!(sm4_cbc_decrypt_hex_checked(&c, KEY, IV), Some(expected));
        assert_eq!(sm4_cbc_decrypt_hex_checked(&c.to_lowercase(), KEY, IV), Some(String::from(plain)));
    }
}

#[test]
fn sm4_decrypt_refuses_what_gmsm_panics_on() {
    assert_eq!(sm4_cbc_decrypt_hex_checked("abc", KEY, IV), None);
    assert_eq!(sm4_cbc_decrypt_hex_checked("zz", KEY, IV), None);
    assert_eq!(sm4_cbc_decrypt_hex_checked("", KEY, IV), None);
    assert_eq!(sm4_cbc_decrypt_hex_checked(CIPHER, "8A3F", IV), None);
    assert_eq!(sm4_cbc_decrypt_hex_checked(CIPHER, KEY, "88"), None);
}

#[test]
fn sm4_partial_block_decrypts_to_zeros() {
    assert_eq!(sm4_cbc_decrypt_hex_checked("0102", KEY, IV), Some(String::from("\u{0}\u{0}")));
}

#[test]
fn hex_decoding() {
    assert_eq!(hex_decode_text("00ff10Ab"), Some(vec![0x00, 0xff, 0x10, 0xab]));
    assert_eq!(hex_decode_text(""), Some(vec![]));
    assert_eq!(hex_decode_text("0"), None);
    assert_eq!(hex_decode_text("0g"), None);
}

#[test]
fn file_content_round_trip() {
    for plain in ["", "fn main() {}\n", "中文内容", "a".repeat(100).as_str()] {
        let enc = sm4_encrypt_file(plain);
        assert_eq!(try_sm4_decrypt_file(enc.clone()), Some(String::from(plain)));
        assert_eq!(sm4_decrypt_file(enc), plain);
    }
    assert_eq!(try_sm4_decrypt_file(String::from("not hex")), None);
}

#[test]
fn file_encryption_uses_md5_of_secret_as_key_and_iv() {
    let key = "24d12899b19093fa79c7f35a07374bf9";
    assert_eq!(sm4_encrypt_file("abc"), gmsm::sm4::sm4_cbc_encrypt_hex("abc", key, key));
}

#[test]
fn login_round_trip() {
    let dir = String::from("secure123");
    let t = String::from("1700000000000");
    let iv = md5(dir.clone());
    let key = md5(format!("{}{}{}", dir, t, iv));
    let enc = gmsm::sm4::sm4_cbc_encrypt_hex("admin", &key, &iv);
    assert_eq!(sm4_decrypt_login(enc.clone(), dir.clone(), t.clone()), "admin");
    assert_eq!(try_sm4_decrypt_login(enc, dir.clone(), t.clone()), Some(String::from("admin")));
    assert_eq!(try_sm4_decrypt_login(String::from("00"), dir.clone(), t.clone()), Some(String::from("\u{0}")));
    assert_eq!(try_sm4_decrypt_login(String::from("zz"), dir, t), None);
}

#[test]
fn random_strings_have_the_asked_length_and_charset() {
    for n in [0usize, 1, 8, 17, 64] {
        let s = generate_random_string(n);
        assert_eq!(s.chars().count(), n);
        assert!(s.chars().all(|c| c.is_ascii_alphanumeric()));
    }
}

#[test]
fn process_name_matching() {
    assert!(!process_matches(None, Some("nginx")));
    assert!(process_matches(Some("whatever"), None));
    assert!(process_matches(Some("NGINX: master"), Some("nginx")));
    assert!(process_matches(Some("nginx"), Some("NgInX")));
    assert!(!process_matches(Some("redis-server"), Some("nginx")));
}

#[test]
fn empty_process_name_matches_any_process() {
    assert!(process_matches(Some("redis-server"), Some("")));
    assert!(!process_matches(None, Some("")));
}

#[test]
fn random_string_from_positions() {
    assert_eq!(random_string_from(&vec![0, 9, 10, 35, 36, 61]), "09AZaz");
    assert_eq!(random_string_from(&vec![]), "");
    assert_eq!(random_string_from(&vec![17, 17, 17]), "HHH");
}
