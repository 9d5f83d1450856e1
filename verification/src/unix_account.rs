//! UNIX-like user accounts to be configured on an image.

use vstd::prelude::*;

use crate::random::{is_alphanumeric, random_password, PASSWORD_LENGTH};
use crate::text::str_eq;
use crate::validate::{length_within, no_failures, note_failure, outcome, record_failure, within, ValidationErrors};

verus! {

/// The longest user name and password accepted, in characters.
pub const MAX_ACCOUNT_FIELD: u64 = 64;

/// This provisioner configures a UNIX-like user account.
#[derive(Clone, Debug, PartialEq, Eq)]
pub struct UnixAccountProvisioner {
    pub username: String,
    pub password: String,
}

/// The accounts of an image.
#[derive(Clone, Debug, PartialEq, Eq)]
pub struct UnixAccountProvisioners {
    pub users: Vec<UnixAccountProvisioner>,
}

/// The password of the first account in `users` named `root`.
pub open spec fn first_root_password(users: Seq<UnixAccountProvisioner>) -> Option<Seq<char>>
    decreases users.len(),
{
    if users.len() == 0 {
        None
    } else if users[0].username@ == "root"@ {
        Some(users[0].password@)
    } else {
        first_root_password(users.drop_first())
    }
}

impl UnixAccountProvisioners {
    /// Get the root user's password: that of the first account named `root`.
    pub fn get_root_password(&self) -> (r: Option<String>)
        ensures
            r matches Some(p) ==> first_root_password(self.users@) == Some(p@),
            r is None ==> first_root_password(self.users@) is None,
    {
        let mut i: usize = 0;
        assert(self.users@.subrange(0, self.users@.len() as int) =~= self.users@);
        while i < self.users.len()
            invariant
                i <= self.users@.len(),
                first_root_password(self.users@) == first_root_password(
                    self.users@.subrange(i as int, self.users@.len() as int),
                ),
            decreases self.users@.len() - i,
        {
            let ghost rest = self.users@.subrange(i as int, self.users@.len() as int);
            assert(rest[0] == self.users@[i as int]);
            if str_eq(self.users[i].username.as_str(), "root") {
                return Some(self.users[i].password.clone());
            }
            assert(rest.drop_first() =~= self.users@.subrange(i + 1, self.users@.len() as int));
            i = i + 1;
        }
        None
    }
}

impl UnixAccountProvisioner {
    /// The names of the fields of this account that break their length
    /// bound, `username` before `password`.
    pub open spec fn invalid_fields(self) -> Seq<Seq<char>> {
        note_failure(
            note_failure(
                Seq::empty(),
                !within(self.username@.len(), None, Some(MAX_ACCOUNT_FIELD)),
                "username"@,
            ),
            !within(self.password@.len(), None, Some(MAX_ACCOUNT_FIELD)),
            "password"@,
        )
    }

    /// Checks that the user name and the password are at most 64 characters
    /// long.
    pub fn validate(&self) -> (r: Result<(), ValidationErrors>)
        ensures
            r is Ok <==> self.invalid_fields().len() == 0,
            r matches Err(e) ==> e.names() == self.invalid_fields(),
    {
        let mut fields = no_failures();
        let username_ok = length_within(self.username.as_str(), None, Some(MAX_ACCOUNT_FIELD));
        record_failure(&mut fields, !username_ok, "username");
        let password_ok = length_within(self.password.as_str(), None, Some(MAX_ACCOUNT_FIELD));
        record_failure(&mut fields, !password_ok, "password");
        outcome(fields)
    }
}

impl Default for UnixAccountProvisioner {
    /// The `root` account, with a fresh random password.
    fn default() -> (r: Self)
        ensures
            r.username@ == "root"@,
            r.password@.len() == PASSWORD_LENGTH,
            forall|i: int| 0 <= i < r.password@.len() ==> is_alphanumeric(#[trigger] r.password@[i]),
            r.invalid_fields().len() == 0,
    {
        proof {
            reveal_strlit("root");
        }
        UnixAccountProvisioner { username: "root".to_owned(), password: random_password() }
    }
}

/// An account is valid exactly when its user name and its password are each
/// at most 64 characters long, and a too-long user name is reported before a
/// too-long password.
pub proof fn lemma_account_validity(a: UnixAccountProvisioner)
    ensures
        a.invalid_fields().len() == 0 <==> (a.username@.len() <= 64 && a.password@.len() <= 64),
        a.username@.len() > 64 ==> a.invalid_fields()[0] == "username"@,
        a.password@.len() > 64 ==> a.invalid_fields().last() == "password"@,
{
}

/// The root password is that of an account named `root` with no account
/// named `root` before it; there is none exactly when no account is named
/// `root`.
pub proof fn lemma_root_password(users: Seq<UnixAccountProvisioner>)
    ensures
        first_root_password(users) is None <==> forall|i: int|
            0 <= i < users.len() ==> (#[trigger] users[i]).username@ != "root"@,
        first_root_password(users) matches Some(p) ==> exists|i: int|
            0 <= i < users.len() && (#[trigger] users[i]).username@ == "root"@ && users[i].password@ == p
                && forall|j: int| 0 <= j < i ==> (#[trigger] users[j]).username@ != "root"@,
    decreases users.len(),
{
    if users.len() > 0 {
        lemma_root_password(users.drop_first());
        let rest = users.drop_first();
        assert forall|i: int| 1 <= i < users.len() implies users[i] == rest[i - 1] by {}
        if users[0].username@ != "root"@ {
            if first_root_password(users) is None {
                assert forall|i: int| 0 <= i < users.len() implies (#[trigger] users[i]).username@ != "root"@ by {
                    if i > 0 {
                        assert(rest[i - 1] == users[i]);
                    }
                }
            } else {
                let p = first_root_password(users)->0;
                let k = choose|k: int|
                    0 <= k < rest.len() && (#[trigger] rest[k]).username@ == "root"@ && rest[k].password@ == p
                        && forall|j: int| 0 <= j < k ==> (#[trigger] rest[j]).username@ != "root"@;
                assert(users[k + 1] == rest[k]);
                assert forall|j: int| 0 <= j < k + 1 implies (#[trigger] users[j]).username@ != "root"@ by {
                    if j > 0 {
                        assert(users[j] == rest[j - 1]);
                    }
                }
            }
        } else {
            assert(users[0].username@ == "root"@);
        }
    }
}

} // verus!
