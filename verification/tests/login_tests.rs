use authgate::users::{authenticate, login};
use authgate::{init_users, Error, LoginRequest, Role, TokenCodec, User, TOKEN_TTL_SECONDS};

fn codec() -> TokenCodec {
    TokenCodec::new(b"your_secret_key".to_vec())
}

#[test]
fn init_users_holds_the_two_sample_accounts() {
    let users = init_users();
    assert_eq!(users.len(), 2);
    assert_eq!(users[0].0, "1");
    assert_eq!(users[0].1.uid, 1);
    assert_eq!(users[0].1.email, "user1@example.com");
    assert_eq!(users[0].1.password, "password1");
    assert_eq!(users[0].1.role, "User");
    assert_eq!(users[1].0, "2");
    assert_eq!(users[1].1.uid, 2);
    assert_eq!(users[1].1.email, "admin@example.com");
    assert_eq!(users[1].1.password, "adminpass");
    assert_eq!(users[1].1.role, "Admin");
}

#[test]
fn authenticate_unknown_email_fails() {
    let users = init_users();
    let r = authenticate(&users, &"nobody@example.com".to_string(), &"password1".to_string());
    assert_eq!(r, Err(Error::WrongCredentialError));
}

#[test]
fn authenticate_wrong_password_fails() {
    let users = init_users();
    let r = authenticate(&users, &"user1@example.com".to_string(), &"wrong".to_string());
    assert_eq!(r, Err(Error::WrongCredentialError));
}

#[test]
fn authenticate_returns_subject_and_role() {
    let users = init_users();
    let r = authenticate(&users, &"admin@example.com".to_string(), &"adminpass".to_string());
    assert_eq!(r, Ok(("2".to_string(), Role::Admin)));
    let r = authenticate(&users, &"user1@example.com".to_string(), &"password1".to_string());
    assert_eq!(r, Ok(("1".to_string(), Role::User)));
}

#[test]
fn authenticate_returns_first_match() {
    let entry = |uid: u32, key: &str| {
        (
            key.to_string(),
            User {
                uid,
                email: "same@example.com".to_string(),
                password: "pw".to_string(),
                role: "User".to_string(),
            },
        )
    };
    let users = vec![entry(7, "7"), entry(8, "8")];
    let r = authenticate(&users, &"same@example.com".to_string(), &"pw".to_string());
    assert_eq!(r, Ok(("7".to_string(), Role::User)));
}

#[test]
fn login_with_unknown_pair_fails_generically() {
    let c = codec();
    let users = init_users();
    let request = LoginRequest {
        email: "user1@example.com".to_string(),
        password: "adminpass".to_string(),
    };
    assert_eq!(login(&c, &users, &request, 1000), Err(Error::WrongCredentialError));
}

#[test]
fn login_token_embeds_recorded_role() {
    let c = codec();
    let users = init_users();
    let request = LoginRequest {
        email: "admin@example.com".to_string(),
        password: "adminpass".to_string(),
    };
    let response = login(&c, &users, &request, 1000).unwrap();
    let claims = c.verify(&response.token, 1000).unwrap();
    assert_eq!(claims.sub, "2");
    assert_eq!(claims.role, Role::Admin);
    assert_eq!(claims.exp, 1000 + TOKEN_TTL_SECONDS);

    let request = LoginRequest {
        email: "user1@example.com".to_string(),
        password: "password1".to_string(),
    };
    let response = login(&c, &users, &request, 1000).unwrap();
    let claims = c.verify(&response.token, 1000).unwrap();
    assert_eq!(claims.sub, "1");
    assert_eq!(claims.role, Role::User);
}
