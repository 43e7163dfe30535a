//! Process configuration: the user list and the optional bind address and
//! port, constructed once at startup and passed by reference to whichever
//! component needs it.
//!
//! Reading and deserialising a configuration file is the surrounding layer's
//! business; it hands the parsed values over as plain data. When no file is
//! found or it is invalid, the configuration falls back to [`Config::default`],
//! which holds the single default user.

use vstd::prelude::*;

verus! {

/// Permissions a user can hold.
#[derive(Debug, Clone, Copy, PartialEq, Eq, Structural)]
pub enum Permission {
    /// Permission for reading files.
    Read,
    /// Permission for creating, updating and deleting files.
    Write,
}

/// A user as specified in the configuration; also used for authentication.
#[derive(Debug, Clone)]
pub struct User {
    pub username: String,
    pub password: String,
    /// The permissions granted to this user.
    pub permissions: Vec<Permission>,
}

/// Username of the default user.
pub open spec fn default_username() -> Seq<char> {
    "stormi"@
}

/// Password of the default user.
pub open spec fn default_password() -> Seq<char> {
    "stormi-admin"@
}

impl User {
    /// The default user: default credentials, read and write permission.
    pub open spec fn is_default(self) -> bool {
        &&& self.username@ == default_username()
        &&& self.password@ == default_password()
        &&& self.permissions@ == seq![Permission::Read, Permission::Write]
    }

    /// Creates a new default user with the default credentials and both
    /// permissions.
    pub fn default() -> (u: User)
        ensures
            u.is_default(),
    {
        User {
            username: "stormi".to_owned(),
            password: "stormi-admin".to_owned(),
            permissions: vec![Permission::Read, Permission::Write],
        }
    }
}

/// Whether a configured user carries exactly these credentials.
pub open spec fn user_matches(u: User, username: Seq<char>, password: Seq<char>) -> bool {
    u.username@ == username && u.password@ == password
}

/// Configuration holder. The surrounding layer fills it from a configuration
/// file, or falls back to the default.
#[derive(Debug, Clone)]
pub struct Config {
    /// All users the configuration names; only the default user when the
    /// configuration was not found or was invalid.
    pub users: Vec<User>,
    /// The port to bind, if the configuration names one.
    pub port: Option<u16>,
    /// The address to bind, if the configuration names one.
    pub addr: Option<String>,
    /// Whether this is the fallback configuration rather than one read from
    /// a file.
    pub is_default_config: bool,
}

impl Config {
    /// The fallback configuration: the default user alone, no address, no
    /// port.
    pub fn default() -> (c: Config)
        ensures
            c.users@.len() == 1,
            c.users@[0].is_default(),
            c.port is None,
            c.addr is None,
            c.is_default_config,
    {
        Config { users: vec![User::default()], port: None, addr: None, is_default_config: true }
    }

    /// How many users the configuration names.
    pub fn get_users_size(&self) -> (n: usize)
        ensures
            n == self.users@.len(),
    {
        self.users.len()
    }

    /// The first configured user carrying exactly these credentials, if any
    /// user does.
    pub fn verify_user(&self, username: &str, password: &str) -> (r: Option<&User>)
        ensures
            match r {
                Some(u) => exists|i: int|
                    0 <= i < self.users@.len() && *u == self.users@[i] && user_matches(
                        self.users@[i],
                        username@,
                        password@,
                    ) && (forall|j: int|
                        0 <= j < i ==> !user_matches(self.users@[j], username@, password@)),
                None => forall|i: int|
                    0 <= i < self.users@.len() ==> !user_matches(
                        self.users@[i],
                        username@,
                        password@,
                    ),
            },
    {
        let uname: String = username.to_owned();
        let pass: String = password.to_owned();
        let mut i: usize = 0;
        while i < self.users.len()
            invariant
                i <= self.users@.len(),
                uname@ == username@,
                pass@ == password@,
                forall|j: int| 0 <= j < i ==> !user_matches(self.users@[j], username@, password@),
            decreases self.users@.len() - i,
        {
            let u = &self.users[i];
            if u.username == uname && u.password == pass {
                return Some(u);
            }
            i = i + 1;
        }
        None
    }
}

/// The queries the configuration answers for its consumers.
pub trait ConfigTrait {
    /// For getting the length of the user list.
    fn get_users_size(&self) -> usize;

    /// For finding a valid user with the supplied username and password.
    fn verify_user(&self, username: &str, password: &str) -> Option<&User>;
}

impl ConfigTrait for Config {
    fn get_users_size(&self) -> usize {
        Config::get_users_size(self)
    }

    fn verify_user(&self, username: &str, password: &str) -> Option<&User> {
        Config::verify_user(self, username, password)
    }
}

} // verus!
