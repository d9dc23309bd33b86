use authgate::gate::{authorize, jwt_from_headers};
use authgate::{Error, Role, TokenCodec};

fn codec() -> TokenCodec {
    TokenCodec::new(b"your_secret_key".to_vec())
}

fn bearer_header(token: &str) -> Vec<u8> {
    let mut h = b"Bearer ".to_vec();
    h.extend_from_slice(token.as_bytes());
    h
}

#[test]
fn missing_header_is_rejected() {
    let c = codec();
    assert_eq!(authorize(&c, Role::User, None, 0), Err(Error::NoAuthHeaderError));
}

#[test]
fn basic_scheme_is_rejected() {
    let c = codec();
    let header = b"Basic xyz".to_vec();
    assert_eq!(
        authorize(&c, Role::User, Some(&header), 0),
        Err(Error::InvalidAuthHeaderError)
    );
}

#[test]
fn lower_case_scheme_is_rejected() {
    let c = codec();
    let header = b"bearer abc".to_vec();
    assert_eq!(
        authorize(&c, Role::User, Some(&header), 0),
        Err(Error::InvalidAuthHeaderError)
    );
}

#[test]
fn non_utf8_token_is_rejected() {
    let c = codec();
    let header = vec![b'B', b'e', b'a', b'r', b'e', b'r', b' ', 0xff, 0xfe];
    assert_eq!(
        authorize(&c, Role::User, Some(&header), 0),
        Err(Error::InvalidAuthHeaderError)
    );
}

#[test]
fn invalid_token_is_rejected() {
    let c = codec();
    let header = bearer_header("not.a.token");
    assert_eq!(authorize(&c, Role::User, Some(&header), 0), Err(Error::JWTTokenError));
}

#[test]
fn admin_gate_rejects_user_token() {
    let c = codec();
    let token = c.create_jwt_token("bob", Role::User, 1000).unwrap();
    let header = bearer_header(&token);
    assert_eq!(
        authorize(&c, Role::Admin, Some(&header), 1000),
        Err(Error::NoPermissionError)
    );
}

#[test]
fn admin_gate_admits_admin_token() {
    let c = codec();
    let token = c.create_jwt_token("alice", Role::Admin, 1000).unwrap();
    let header = bearer_header(&token);
    assert_eq!(authorize(&c, Role::Admin, Some(&header), 1000), Ok("alice".to_string()));
}

#[test]
fn user_gate_admits_both_roles() {
    let c = codec();
    let user_token = c.create_jwt_token("bob", Role::User, 1000).unwrap();
    let admin_token = c.create_jwt_token("alice", Role::Admin, 1000).unwrap();
    assert_eq!(
        authorize(&c, Role::User, Some(&bearer_header(&user_token)), 1000),
        Ok("bob".to_string())
    );
    assert_eq!(
        authorize(&c, Role::User, Some(&bearer_header(&admin_token)), 1000),
        Ok("alice".to_string())
    );
}

#[test]
fn gate_rejects_expired_token() {
    let c = codec();
    let token = c.create_jwt_token("alice", Role::Admin, 1000).unwrap();
    let header = bearer_header(&token);
    assert_eq!(
        authorize(&c, Role::Admin, Some(&header), 5000),
        Err(Error::JWTTokenError)
    );
}

#[test]
fn header_token_text_is_trimmed() {
    assert_eq!(
        jwt_from_headers(Some(&b"Bearer   abc.def.ghi \t ".to_vec())),
        Ok("abc.def.ghi".to_string())
    );
    assert_eq!(jwt_from_headers(Some(&b"Bearerabc".to_vec())), Ok("abc".to_string()));
    assert_eq!(jwt_from_headers(Some(&b"Bearer".to_vec())), Ok("".to_string()));
}

#[test]
fn header_trims_unicode_whitespace() {
    // The trimmed set is the White_Space property, as str::trim uses.
    let padded = "Bearer \u{a0}\u{2003}abc.def\u{3000}\u{85}\u{2029} ";
    assert_eq!(
        jwt_from_headers(Some(&padded.as_bytes().to_vec())),
        Ok("abc.def".to_string())
    );
    for ws in ['\u{9}', '\u{b}', '\u{1680}', '\u{2000}', '\u{200a}', '\u{2028}', '\u{202f}',
        '\u{205f}']
    {
        assert!(ws.is_whitespace());
        let header = format!("Bearer{}tok{}", ws, ws);
        assert_eq!(
            jwt_from_headers(Some(&header.as_bytes().to_vec())),
            Ok("tok".to_string())
        );
    }
    // A non-whitespace code point next to whitespace stays in the token.
    assert_eq!(
        jwt_from_headers(Some(&"Bearer \u{200b}tok ".as_bytes().to_vec())),
        Ok("\u{200b}tok".to_string())
    );
}

#[test]
fn gate_accepts_padded_token_text() {
    let c = codec();
    let token = c.create_jwt_token("alice", Role::Admin, 1000).unwrap();
    let mut header = b"Bearer \t ".to_vec();
    header.extend_from_slice(token.as_bytes());
    header.extend_from_slice(b"  \t");
    assert_eq!(authorize(&c, Role::Admin, Some(&header), 1000), Ok("alice".to_string()));
}
