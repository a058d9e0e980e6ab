use vstd::prelude::*;
use crate::api::auth::password_matches;
use crate::common::fun::{draw_indices, random_in, random_charset, random_string_from, sha1_salt, sha1_salt_of};

verus! {

/// Prepares the database service; there is nothing to prepare.
pub fn init() {
}

/// The account created when the panel is first installed.
pub struct AdminAccount {
    pub username: String,
    /// The password in clear, shown once to the operator.
    pub password: String,
    pub salt: String,
    /// The salted SHA-1 of the password, as stored.
    pub password_hash: String,
}

/// The text made of the random-string characters at the positions `indices`.
pub open spec fn drawn_text(indices: Seq<usize>) -> Seq<char> {
    indices.map_values(|i: usize| random_charset()[i as int])
}

/// Text drawn from positions inside the random-string characters is made of them.
pub proof fn lemma_drawn_text_is_random(indices: Seq<usize>)
    requires
        forall|i: int| 0 <= i < indices.len() ==> indices[i] < 62,
    ensures
        random_text(drawn_text(indices)),
        drawn_text(indices).len() == indices.len(),
{
    reveal_strlit("0123456789ABCDEFGHIJKLMNOPQRSTUVWXYZabcdefghijklmnopqrstuvwxyz");
    assert forall|i: int| 0 <= i < drawn_text(indices).len() implies random_charset().contains(#[trigger] drawn_text(indices)[i]) by {
        assert(0 <= indices[i] < random_charset().len());
        assert(random_charset()[indices[i] as int] == drawn_text(indices)[i]);
    }
}

/// Whether every character of `s` is one of the random-string characters.
pub open spec fn random_text(s: Seq<char>) -> bool {
    forall|i: int| 0 <= i < s.len() ==> random_charset().contains(#[trigger] s[i])
}

/// The administrator account made from drawn positions in the
/// random-string characters: the password, the salt and the username are
/// the characters at `password`, `salt` and `username`; the stored hash is
/// the salted SHA-1 of the password.
pub fn admin_account_from(password: &Vec<usize>, salt: &Vec<usize>, username: &Vec<usize>) -> (r: AdminAccount)
    requires
        forall|i: int| 0 <= i < password.len() ==> password[i] < 62,
        forall|i: int| 0 <= i < salt.len() ==> salt[i] < 62,
        forall|i: int| 0 <= i < username.len() ==> username[i] < 62,
    ensures
        r.password@ == drawn_text(password@),
        r.salt@ == drawn_text(salt@),
        r.username@ == drawn_text(username@),
        r.password_hash@ == sha1_salt_of(r.password@, r.salt@),
{
    let password = random_string_from(password);
    let salt = random_string_from(salt);
    let password_hash = sha1_salt(password.clone(), salt.clone());
    let username = random_string_from(username);
    AdminAccount { username, password, salt, password_hash }
}

/// A new administrator account with random credentials: a password of 8 to
/// 17 characters, a salt of 8 to 15 and a username of 6 to 11, each
/// character drawn at random from the digits and letters; the stored hash
/// is the salted SHA-1 of the password.
pub fn admin_account() -> (r: AdminAccount)
    ensures
        8 <= r.password@.len() < 18,
        8 <= r.salt@.len() < 16,
        6 <= r.username@.len() < 12,
        random_text(r.password@),
        random_text(r.salt@),
        random_text(r.username@),
        r.password_hash@ == sha1_salt_of(r.password@, r.salt@),
{
    let password = draw_indices(random_in(8, 18));
    let salt = draw_indices(random_in(8, 16));
    let username = draw_indices(random_in(6, 12));
    let r = admin_account_from(&password, &salt, &username);
    proof {
        lemma_drawn_text_is_random(password@);
        lemma_drawn_text_is_random(salt@);
        lemma_drawn_text_is_random(username@);
    }
    r
}

/// The administrator's own password passes the login check.
pub proof fn lemma_admin_password_verifies(account: AdminAccount)
    requires
        account.password_hash@ == sha1_salt_of(account.password@, account.salt@),
    ensures
        password_matches(account.password_hash@, account.salt@, account.password@),
{
}

} // verus!
