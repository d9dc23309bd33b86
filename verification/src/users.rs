//! The credential verifier: matches submitted login credentials against
//! the user directory and, on success, mints a token for the matched
//! subject and role.

use vstd::prelude::*;

use crate::error::Error;
use crate::role::{spec_role_name, spec_role_of, Role};
use crate::token::{claims_of, TokenCodec, TOKEN_TTL_SECONDS};

verus! {

/// A directory entry: the subject identifier is the entry's key in the
/// directory, kept separate from this record.
#[derive(Clone, Debug, PartialEq, Eq)]
pub struct User {
    pub uid: u32,
    pub email: String,
    pub password: String,
    pub role: String,
}

/// A submitted login: an email/password pair.
#[derive(Clone, Debug, PartialEq, Eq)]
pub struct LoginRequest {
    pub email: String,
    pub password: String,
}

/// A successful login's response: the minted token.
#[derive(Clone, Debug, PartialEq, Eq)]
pub struct LoginResponse {
    pub token: String,
}

/// The directory entry at index `i` carries exactly the submitted
/// email/password pair.
pub open spec fn matches_at(
    users: Seq<(String, User)>,
    email: Seq<char>,
    password: Seq<char>,
    i: int,
) -> bool {
    users[i].1.email@ == email && users[i].1.password@ == password
}

/// Index `i` holds the first directory entry matching the submitted
/// email/password pair.
pub open spec fn first_match(
    users: Seq<(String, User)>,
    email: Seq<char>,
    password: Seq<char>,
    i: int,
) -> bool {
    &&& 0 <= i < users.len()
    &&& matches_at(users, email, password, i)
    &&& forall|j: int| 0 <= j < i ==> !matches_at(users, email, password, j)
}

/// Looks the submitted email/password pair up in the directory by exact
/// equality and returns the first matching entry's subject identifier
/// and role, or the credential failure if none matches.
pub fn authenticate(users: &Vec<(String, User)>, email: &String, password: &String) -> (r: Result<
    (String, Role),
    Error,
>)
    ensures
        match r {
            Ok(sr) => exists|i: int|
                {
                    &&& #[trigger] first_match(users@, email@, password@, i)
                    &&& sr.0@ == users@[i].0@
                    &&& sr.1 == spec_role_of(users@[i].1.role@)
                },
            Err(e) => e == Error::WrongCredentialError && forall|i: int|
                0 <= i < users@.len() ==> !matches_at(users@, email@, password@, i),
        },
{
    let n = users.len();
    let mut idx: usize = 0;
    while idx < n
        invariant
            idx <= n,
            n == users@.len(),
            forall|j: int| 0 <= j < idx ==> !matches_at(users@, email@, password@, j),
        decreases n - idx,
    {
        let entry = &users[idx];
        if entry.1.email == *email && entry.1.password == *password {
            proof {
                assert(first_match(users@, email@, password@, idx as int));
            }
            let subject = entry.0.clone();
            let role = Role::from_str(entry.1.role.as_str());
            return Ok((subject, role));
        }
        idx = idx + 1;
    }
    Err(Error::WrongCredentialError)
}

/// Authenticates the request against the directory and, on a match,
/// mints a token embedding the matched subject and recorded role with
/// expiry `now + TOKEN_TTL_SECONDS`. A token is returned exactly when
/// some entry matches; otherwise the one generic credential failure.
pub fn login(
    codec: &TokenCodec,
    users: &Vec<(String, User)>,
    request: &LoginRequest,
    now: u64,
) -> (r: Result<LoginResponse, Error>)
    requires
        now + TOKEN_TTL_SECONDS <= u64::MAX,
    ensures
        match r {
            Ok(resp) => exists|i: int|
                {
                    &&& #[trigger] first_match(users@, request.email@, request.password@, i)
                    &&& claims_of(codec.spec_key(), resp.token@) == Some(
                        (
                            users@[i].0@,
                            (now + TOKEN_TTL_SECONDS) as u64,
                            spec_role_name(spec_role_of(users@[i].1.role@)),
                        ),
                    )
                },
            Err(e) => e == Error::WrongCredentialError && forall|i: int|
                0 <= i < users@.len() ==> !matches_at(users@, request.email@, request.password@, i),
        },
{
    match authenticate(users, &request.email, &request.password) {
        Ok((subject, role)) => {
            proof {
                let i = choose|i: int|
                    {
                        &&& #[trigger] first_match(users@, request.email@, request.password@, i)
                        &&& subject@ == users@[i].0@
                        &&& role == spec_role_of(users@[i].1.role@)
                    };
                assert(first_match(users@, request.email@, request.password@, i));
            }
            match codec.create_jwt_token(subject.as_str(), role, now) {
                Ok(token) => Ok(LoginResponse { token }),
                Err(e) => Err(e),
            }
        },
        Err(e) => Err(e),
    }
}

/// The sample in-process user directory: one regular user and one
/// administrator.
pub fn init_users() -> (users: Vec<(String, User)>)
    ensures
        users@.len() == 2,
        users@[0].0@ == "1"@,
        users@[0].1.uid == 1,
        users@[0].1.email@ == "user1@example.com"@,
        users@[0].1.password@ == "password1"@,
        users@[0].1.role@ == "User"@,
        users@[1].0@ == "2"@,
        users@[1].1.uid == 2,
        users@[1].1.email@ == "admin@example.com"@,
        users@[1].1.password@ == "adminpass"@,
        users@[1].1.role@ == "Admin"@,
{
    let mut users: Vec<(String, User)> = Vec::new();
    users.push(
        (
            "1".to_owned(),
            User {
                uid: 1,
                email: "user1@example.com".to_owned(),
                password: "password1".to_owned(),
                role: "User".to_owned(),
            },
        ),
    );
    users.push(
        (
            "2".to_owned(),
            User {
                uid: 2,
                email: "admin@example.com".to_owned(),
                password: "adminpass".to_owned(),
                role: "Admin".to_owned(),
            },
        ),
    );
    users
}

/// A token minted by a successful login verifies, at the mint time, to
/// the matched directory entry's subject and the role its recorded role
/// text names.
pub proof fn lemma_login_token_verifies(
    key: Seq<u8>,
    token: Seq<char>,
    sub: Seq<char>,
    role_text: Seq<char>,
    now: u64,
)
    requires
        now + TOKEN_TTL_SECONDS <= u64::MAX,
        claims_of(key, token) == Some(
            (sub, (now + TOKEN_TTL_SECONDS) as u64, spec_role_name(spec_role_of(role_text))),
        ),
    ensures
        crate::token::spec_verify_outcome(key, token, now) == Some(
            (sub, (now + TOKEN_TTL_SECONDS) as u64, spec_role_of(role_text)),
        ),
{
    crate::token::lemma_mint_verify_round_trip(key, sub, spec_role_of(role_text), now, token);
}

} // verus!
