use vstd::prelude::*;

verus! {

#[verifier::external_type_specification]
#[verifier::external_body]
pub struct ExNaiveDateTime(chrono::NaiveDateTime);

/// A row of the `rp_users` table.
pub struct Users {
    pub id: i32,
    pub username: String,
    pub password: String,
    pub salt: String,
    pub initial_password: String,
    pub authority: String,
    pub error_count: i32,
    pub status: i32,
    pub created_at: chrono::NaiveDateTime,
    pub updated_at: chrono::NaiveDateTime,
}

/// What the panel keeps of a user once logged in.
pub struct SlimUser {
    pub id: i32,
    pub username: String,
    pub password: String,
    pub authority: String,
    pub created_at: chrono::NaiveDateTime,
}

/// The logged-in view of a user row.
pub open spec fn slim_of(user: Users) -> SlimUser {
    SlimUser {
        id: user.id,
        username: user.username,
        password: user.password,
        authority: user.authority,
        created_at: user.created_at,
    }
}

impl From<Users> for SlimUser {
    fn from(user: Users) -> (r: SlimUser) {
        SlimUser {
            id: user.id,
            username: user.username,
            password: user.password,
            authority: user.authority,
            created_at: user.created_at,
        }
    }
}

impl vstd::std_specs::convert::FromSpecImpl<Users> for SlimUser {
    open spec fn obeys_from_spec() -> bool {
        true
    }

    open spec fn from_spec(v: Users) -> SlimUser {
        slim_of(v)
    }
}

} // verus!
