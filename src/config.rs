//! Stored credentials: named server/key pairs, one of which may be current.
use vstd::prelude::*;
use crate::text::text_eq;

verus! {

/// Configuration details for one user of a server.
#[derive(Clone, Debug)]
pub struct UserConfig {
    /// API key for authentication with the server.
    pub api_key: String,
    /// Base URL of the server.
    pub server_url: String,
}

/// The stored users, by name, and the name of the current one.
#[derive(Clone, Debug)]
pub struct Config {
    /// The name of the currently active user.
    pub current_user: Option<String>,
    /// Each user's name with that user's configuration.
    pub users: Vec<(String, UserConfig)>,
}

/// `i` is the first position in `users` whose name is `name`.
pub open spec fn first_named(users: Seq<(String, UserConfig)>, name: Seq<char>, i: int) -> bool {
    &&& 0 <= i < users.len()
    &&& users[i].0@ == name
    &&& forall|j: int| 0 <= j < i ==> users[j].0@ != name
}

/// Some user in `users` is named `name`.
pub open spec fn has_user(users: Seq<(String, UserConfig)>, name: Seq<char>) -> bool {
    exists|i: int| 0 <= i < users.len() && users[i].0@ == name
}

/// No two users share a name.
pub open spec fn names_unique(users: Seq<(String, UserConfig)>) -> bool {
    forall|i: int, j: int|
        0 <= i < users.len() && 0 <= j < users.len() && i != j ==> users[i].0@ != users[j].0@
}

/// Why no credentials could be settled on.
#[derive(Clone, Debug, PartialEq, Eq)]
pub enum CredentialError {
    /// The user asked for is not stored.
    UserNotFound(String),
    /// No user was asked for and none is current.
    NoCurrentUser,
}

impl Default for Config {
    fn default() -> (r: Config)
        ensures
            r.current_user is None,
            r.users@.len() == 0,
    {
        Config::new()
    }
}

impl Config {
    /// A configuration with no users and no current user.
    pub fn new() -> (r: Config)
        ensures
            r.current_user is None,
            r.users@.len() == 0,
    {
        Config { current_user: None, users: Vec::new() }
    }

    /// Position of the first user named `name`.
    pub fn find_user(&self, name: &str) -> (r: Option<usize>)
        ensures
            r is None <==> !has_user(self.users@, name@),
            r matches Some(i) ==> first_named(self.users@, name@, i as int),
    {
        let mut i: usize = 0;
        while i < self.users.len()
            invariant
                i <= self.users@.len(),
                forall|j: int| 0 <= j < i ==> self.users@[j].0@ != name@,
            decreases self.users@.len() - i,
        {
            if text_eq(self.users[i].0.as_str(), name) {
                return Some(i);
            }
            i = i + 1;
        }
        None
    }

    /// Retrieves the current user's name and configuration, where a current
    /// user is set and stored.
    pub fn get_current_user(&self) -> (r: Option<(&String, &UserConfig)>)
        ensures
            r is Some <==> (self.current_user matches Some(n) && has_user(self.users@, n@)),
            r matches Some((n, u)) ==> {
                &&& self.current_user == Some(*n)
                &&& exists|i: int| first_named(self.users@, n@, i) && self.users@[i].1 == *u
            },
    {
        let name = match &self.current_user {
            Some(n) => n,
            None => return None,
        };
        match self.find_user(name.as_str()) {
            Some(i) => Some((name, &self.users[i].1)),
            None => None,
        }
    }

    /// Stores `user` under `name`, replacing a user of that name; the user
    /// becomes current if `make_default` or if none was current.
    pub fn add_user(&mut self, name: String, user: UserConfig, make_default: bool)
        ensures
            has_user(old(self).users@, name@) ==> exists|i: int|
                first_named(old(self).users@, name@, i) && final(self).users@ == old(
                    self,
                ).users@.update(i, (name, user)),
            !has_user(old(self).users@, name@) ==> final(self).users@ == old(self).users@.push(
                (name, user),
            ),
            final(self).current_user == if make_default || old(self).current_user is None {
                Some(name)
            } else {
                old(self).current_user
            },
            names_unique(old(self).users@) ==> names_unique(final(self).users@),
    {
        let becomes_current = make_default || self.current_user.is_none();
        let current = if becomes_current {
            Some(name.clone())
        } else {
            self.current_user.clone()
        };
        match self.find_user(name.as_str()) {
            Some(i) => {
                self.users.set(i, (name, user));
            },
            None => {
                self.users.push((name, user));
            },
        }
        self.current_user = current;
    }

    /// Removes the first user named `name`, and the current mark if it was
    /// that user's; says whether such a user was stored.
    pub fn remove_user(&mut self, name: &str) -> (r: bool)
        ensures
            r == has_user(old(self).users@, name@),
            r ==> exists|i: int|
                first_named(old(self).users@, name@, i) && final(self).users@ == old(
                    self,
                ).users@.remove(i),
            !r ==> final(self).users@ == old(self).users@,
            names_unique(old(self).users@) ==> names_unique(final(self).users@),
            final(self).current_user == if r && (old(self).current_user matches Some(c) && c@
                == name@) {
                None
            } else {
                old(self).current_user
            },
    {
        match self.find_user(name) {
            Some(i) => {
                self.users.remove(i);
                let is_current = match &self.current_user {
                    Some(c) => text_eq(c.as_str(), name),
                    None => false,
                };
                if is_current {
                    self.current_user = None;
                }
                true
            },
            None => false,
        }
    }

    /// Makes `name` the current user if such a user is stored; says whether
    /// it was.
    pub fn set_default(&mut self, name: &str) -> (r: bool)
        ensures
            r == has_user(old(self).users@, name@),
            final(self).users@ == old(self).users@,
            r ==> (final(self).current_user matches Some(c) && c@ == name@),
            !r ==> final(self).current_user == old(self).current_user,
    {
        if self.find_user(name).is_some() {
            self.current_user = Some(String::from_str(name));
            true
        } else {
            false
        }
    }

    /// Settles on a server and key: both given explicitly win; else the user
    /// named; else the current user.
    pub fn resolve_credentials(
        &self,
        server: Option<String>,
        key: Option<String>,
        user: Option<String>,
    ) -> (r: Result<(String, String), CredentialError>)
        ensures
            (server is Some && key is Some) ==> r == Ok::<(String, String), CredentialError>(
                (server->0, key->0),
            ),
            !(server is Some && key is Some) && user is Some ==> {
                let n = user->0;
                &&& !has_user(self.users@, n@) ==> r == Err::<(String, String), CredentialError>(
                    CredentialError::UserNotFound(n),
                )
                &&& has_user(self.users@, n@) ==> exists|i: int|
                    first_named(self.users@, n@, i) && r == Ok::<(String, String), CredentialError>(
                        (self.users@[i].1.server_url, self.users@[i].1.api_key),
                    )
            },
            !(server is Some && key is Some) && user is None ==> {
                &&& (self.current_user matches Some(c) && has_user(self.users@, c@)) ==> exists|
                    i: int,
                |
                    first_named(self.users@, self.current_user->0@, i) && r == Ok::<
                        (String, String),
                        CredentialError,
                    >((self.users@[i].1.server_url, self.users@[i].1.api_key))
                &&& !(self.current_user matches Some(c) && has_user(self.users@, c@)) ==> r
                    == Err::<(String, String), CredentialError>(CredentialError::NoCurrentUser)
            },
    {
        match (server, key) {
            (Some(s), Some(k)) => {
                return Ok((s, k));
            },
            _ => {},
        }
        match user {
            Some(n) => match self.find_user(n.as_str()) {
                Some(i) => Ok(
                    (self.users[i].1.server_url.clone(), self.users[i].1.api_key.clone()),
                ),
                None => Err(CredentialError::UserNotFound(n)),
            },
            None => match self.get_current_user() {
                Some((_, u)) => Ok((u.server_url.clone(), u.api_key.clone())),
                None => Err(CredentialError::NoCurrentUser),
            },
        }
    }
}

} // verus!
