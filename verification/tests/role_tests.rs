use authgate::Role;

#[test]
fn parse_admin() {
    assert_eq!(Role::from_str("Admin"), Role::Admin);
}

#[test]
fn parse_user() {
    assert_eq!(Role::from_str("User"), Role::User);
}

#[test]
fn parse_unknown_defaults_to_lowest_privilege() {
    assert_eq!(Role::from_str("bogus"), Role::User);
    assert_eq!(Role::from_str(""), Role::User);
    assert_eq!(Role::from_str("admin"), Role::User);
    assert_eq!(Role::from_str("Admin "), Role::User);
}

#[test]
fn satisfies_role_ordering() {
    assert_eq!(Role::Admin.satisfies(Role::Admin), true);
    assert_eq!(Role::Admin.satisfies(Role::User), true);
    assert_eq!(Role::User.satisfies(Role::Admin), false);
    assert_eq!(Role::User.satisfies(Role::User), true);
}

#[test]
fn role_names() {
    assert_eq!(Role::Admin.as_str(), "Admin");
    assert_eq!(Role::User.as_str(), "User");
}
