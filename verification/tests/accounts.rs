use goldboot::unix_account::{UnixAccountProvisioner, UnixAccountProvisioners};
use goldboot::validate::ValidationErrors;

fn account(username: &str, password: &str) -> UnixAccountProvisioner {
    UnixAccountProvisioner { username: username.to_string(), password: password.to_string() }
}

#[test]
fn root_password_is_the_first_roots() {
    let users = UnixAccountProvisioners {
        users: vec![account("alice", "a"), account("root", "r1"), account("root", "r2")],
    };
    assert_eq!(users.get_root_password(), Some("r1".to_string()));
}

#[test]
fn no_root_no_password() {
    let users = UnixAccountProvisioners { users: vec![account("alice", "a"), account("Root", "b")] };
    assert_eq!(users.get_root_password(), None);
    let users = UnixAccountProvisioners { users: vec![] };
    assert_eq!(users.get_root_password(), None);
}

#[test]
fn default_account_is_root_and_valid() {
    let a = UnixAccountProvisioner::default();
    assert_eq!(a.username, "root");
    assert_eq!(a.password.chars().count(), 12);
    assert!(a.password.chars().all(|c| c.is_ascii_alphanumeric()));
    assert_eq!(a.validate(), Ok(()));
    let users = UnixAccountProvisioners { users: vec![a.clone()] };
    assert_eq!(users.get_root_password(), Some(a.password));
}

#[test]
fn account_validation() {
    assert_eq!(account(&"u".repeat(64), &"p".repeat(64)).validate(), Ok(()));
    assert_eq!(
        account(&"u".repeat(65), "p").validate(),
        Err(ValidationErrors { fields: vec!["username".to_string()] })
    );
    assert_eq!(
        account(&"u".repeat(65), &"p".repeat(100)).validate(),
        Err(ValidationErrors { fields: vec!["username".to_string(), "password".to_string()] })
    );
}
