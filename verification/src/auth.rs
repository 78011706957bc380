//! Accounts and sessions: role resolution from a token, the role gate every
//! endpoint runs first, `login`, `register`, `reset_password`, and the
//! startup bootstrap that guarantees an administrator account.

use vstd::prelude::*;

use crate::errors::MyError;
use crate::lookup::{find_session, find_user, has_session, has_user, session_index, user_index};
use crate::types::{Db, ResetPwd, Session, User, UserData};

verus! {

/// The privilege floor of an endpoint: any authenticated role, any role but
/// `guest`, or exactly `administrator`.
#[derive(Clone, Copy, Debug)]
pub enum Floor {
    AnyRole,
    NonGuest,
    AdminOnly,
}

/// What the role gate answers for a resolved role (`None` standing for a
/// missing or invalid token): `None` to let the request through, or the
/// error that ends it.
pub open spec fn gate(role: Option<Seq<char>>, floor: Floor) -> Option<MyError> {
    match role {
        Option::None => Option::Some(MyError::AuthError),
        Option::Some(r) => match floor {
            Floor::AnyRole => Option::None,
            Floor::NonGuest => if r == "guest"@ {
                Option::Some(MyError::ForbiddenError)
            } else {
                Option::None
            },
            Floor::AdminOnly => if r != "administrator"@ {
                Option::Some(MyError::ForbiddenError)
            } else {
                Option::None
            },
        },
    }
}

/// Some user carries exactly these credentials.
pub open spec fn credentials_ok(s: Seq<User>, name: Seq<char>, pwd: Seq<char>) -> bool {
    exists|i: int|
        0 <= i < s.len() && (#[trigger] s[i]).username@ == name && s[i].pwd@ == pwd
}

/// The role of the user with this username.
pub open spec fn user_role(s: Seq<User>, name: Seq<char>) -> Seq<char> {
    s[user_index(s, name)].rol@
}

/// The username the session with this token belongs to.
pub open spec fn session_username(s: Seq<Session>, token: u64) -> Seq<char> {
    s[session_index(s, token)].username@
}

impl Db {
    /// The role this token resolves to: the role of the account owning the
    /// token's session, or `None` for an unknown token.
    pub open spec fn role_of(self, token: u64) -> Option<Seq<char>> {
        if has_session(self.sessions@, token) {
            let name = session_username(self.sessions@, token);
            if has_user(self.users@, name) {
                Option::Some(user_role(self.users@, name))
            } else {
                Option::None
            }
        } else {
            Option::None
        }
    }

    /// `role_of` for an optional token: a missing token resolves to no role.
    pub open spec fn role_of_opt(self, token: Option<u64>) -> Option<Seq<char>> {
        match token {
            Option::None => Option::None,
            Option::Some(t) => self.role_of(t),
        }
    }

    /// Resolve a token to its role string, failing closed on an unknown
    /// token.
    pub fn check(&self, token: u64) -> (r: Result<String, MyError>)
        requires
            self.wf(),
        ensures
            self.role_of(token) is Some ==> (r matches Ok(s) && s@ == self.role_of(
                token,
            )->Some_0),
            self.role_of(token) is None ==> (r matches Err(e) && e == MyError::AuthError),
    {
        match find_session(&self.sessions, token) {
            None => Err(MyError::AuthError),
            Some(i) => {
                let name = &self.sessions[i].username;
                match find_user(&self.users, name) {
                    None => Err(MyError::AuthError),
                    Some(j) => Ok(self.users[j].rol.clone()),
                }
            },
        }
    }

    /// Run the role gate of an endpoint with this floor.
    pub fn gate_check(&self, token: u64, floor: Floor) -> (r: Option<MyError>)
        requires
            self.wf(),
        ensures
            r == gate(self.role_of(token), floor),
    {
        match self.check(token) {
            Err(_) => Some(MyError::AuthError),
            Ok(role) => match floor {
                Floor::AnyRole => None,
                Floor::NonGuest => {
                    let guest: String = "guest".to_owned();
                    if role == guest {
                        Some(MyError::ForbiddenError)
                    } else {
                        None
                    }
                },
                Floor::AdminOnly => {
                    let admin: String = "administrator".to_owned();
                    if role == admin {
                        None
                    } else {
                        Some(MyError::ForbiddenError)
                    }
                },
            },
        }
    }

    /// Authenticate with username and password; on success open a fresh
    /// session and return its token, which resolves to the account's role.
    pub fn login(&mut self, data: &UserData) -> (r: Result<u64, MyError>)
        requires
            old(self).wf(),
        ensures
            final(self).wf(),
            final(self).users == old(self).users,
            final(self).data == old(self).data,
            !credentials_ok(old(self).users@, data.username@, data.pwd@) ==> (r matches Err(e)
                && e == MyError::AuthError && *final(self) == *old(self)),
            credentials_ok(old(self).users@, data.username@, data.pwd@) && old(self).next_token
                == u64::MAX ==> (r matches Err(e) && e == MyError::ConstraintError && *final(self)
                == *old(self)),
            credentials_ok(old(self).users@, data.username@, data.pwd@) && old(self).next_token
                < u64::MAX ==> (r matches Ok(t) && t == old(self).next_token && final(self).sessions@.len() == old(self).sessions@.len() + 1 && final(self).sessions@.last().token
                == t && final(self).sessions@.last().username@ == data.username@ && final(self).sessions@.drop_last() == old(self).sessions@ && final(self).next_token == old(self).next_token + 1 && final(self).role_of(t) == Option::Some(
                user_role(old(self).users@, data.username@),
            )),
    {
        let j = match find_user(&self.users, &data.username) {
            Some(j) => j,
            None => {
                return Err(MyError::AuthError);
            },
        };
        if !(self.users[j].pwd == data.pwd) {
            proof {
                if credentials_ok(self.users@, data.username@, data.pwd@) {
                    let w = choose|i: int|
                        0 <= i < self.users@.len() && (#[trigger] self.users@[i]).username@
                            == data.username@ && self.users@[i].pwd@ == data.pwd@;
                    if w != j as int {
                        assert(self.users@[w].username@ == self.users@[j as int].username@);
                    }
                    assert(false);
                }
            }
            return Err(MyError::AuthError);
        }
        if self.next_token == u64::MAX {
            return Err(MyError::ConstraintError);
        }
        let t = self.next_token;
        self.next_token = t + 1;
        let ghost pre = *self;
        self.sessions.push(Session { token: t, username: data.username.clone() });
        proof {
            let n = old(self).sessions@.len() as int;
            assert(self.sessions@ == pre.sessions@.push(self.sessions@[n]));
            assert(self.sessions@.drop_last() =~= old(self).sessions@);
            // the fresh token is new, so session tokens stay unique
            assert forall|a: int, b: int| 0 <= a < b < self.sessions@.len() implies (
            #[trigger] self.sessions@[a]).token != (#[trigger] self.sessions@[b]).token by {
                if b == n {
                    assert(old(self).sessions@[a].token < t);
                }
            }
            // every session still belongs to an existing user
            assert forall|i: int| 0 <= i < self.sessions@.len() implies has_user(
                self.users@,
                (#[trigger] self.sessions@[i]).username@,
            ) by {
                if i == n {
                    assert(self.users@[j as int].username@ == data.username@);
                } else {
                    assert(old(self).sessions@[i] == self.sessions@[i]);
                }
            }
            // the fresh token resolves to the account's role
            assert(self.sessions@[n].token == t);
            assert(has_session(self.sessions@, t));
            let c = session_index(self.sessions@, t);
            assert(self.sessions@[c].token == t);
            if c != n {
                assert(old(self).sessions@[c].token < t);
                assert(false);
            }
            assert(session_username(self.sessions@, t) == data.username@);
            assert(self.users@[j as int].username@ == data.username@);
            assert(has_user(self.users@, data.username@));
        }
        Ok(t)
    }

    /// Create an account. The caller's token must resolve to exactly the
    /// `administrator` role; the username must be unused. A request without
    /// a role becomes a `guest` account.
    pub fn register(&mut self, data: &UserData) -> (r: Result<&'static str, MyError>)
        requires
            old(self).wf(),
        ensures
            final(self).wf(),
            final(self).sessions == old(self).sessions,
            final(self).next_token == old(self).next_token,
            final(self).data == old(self).data,
            match gate(old(self).role_of_opt(data.token), Floor::AdminOnly) {
                Option::Some(e) => r matches Err(x) && x == e && *final(self) == *old(self),
                Option::None => if has_user(old(self).users@, data.username@) {
                    r matches Err(x) && x == MyError::DuplicateError && *final(self) == *old(self)
                } else {
                    r matches Ok(m) && m@ == "user registered"@ && final(self).users@.len() == old(self).users@.len() + 1 && final(self).users@.last().username@ == data.username@
                        && final(self).users@.last().pwd@ == data.pwd@ && final(self).users@.last().rol@ == (match data.rol {
                        Option::Some(ro) => ro@,
                        Option::None => "guest"@,
                    }) && final(self).users@.drop_last() == old(self).users@
                },
            },
    {
        let g = match data.token {
            None => Some(MyError::AuthError),
            Some(t) => self.gate_check(t, Floor::AdminOnly),
        };
        if let Some(e) = g {
            return Err(e);
        }
        if find_user(&self.users, &data.username).is_some() {
            return Err(MyError::DuplicateError);
        }
        let rol: String = match &data.rol {
            Some(r) => r.clone(),
            None => "guest".to_owned(),
        };
        let ghost pre = *self;
        self.users.push(User { username: data.username.clone(), pwd: data.pwd.clone(), rol });
        proof {
            let n = old(self).users@.len() as int;
            assert(self.users@ == pre.users@.push(self.users@[n]));
            assert(self.users@.drop_last() =~= old(self).users@);
            assert forall|a: int, b: int| 0 <= a < b < self.users@.len() implies (
            #[trigger] self.users@[a]).username@ != (#[trigger] self.users@[b]).username@ by {
                if b == n {
                    assert(old(self).users@[a].username@ != data.username@);
                }
            }
            assert forall|i: int| 0 <= i < self.sessions@.len() implies has_user(
                self.users@,
                (#[trigger] self.sessions@[i]).username@,
            ) by {
                let w = user_index(old(self).users@, self.sessions@[i].username@);
                assert(has_user(old(self).users@, self.sessions@[i].username@));
                assert(old(self).users@[w] == self.users@[w]);
            }
        }
        Ok("user registered")
    }

    /// Change the password of the account the token belongs to. Any
    /// authenticated role may do so.
    pub fn reset_password(&mut self, data: &ResetPwd) -> (r: Result<&'static str, MyError>)
        requires
            old(self).wf(),
        ensures
            final(self).wf(),
            final(self).sessions == old(self).sessions,
            final(self).next_token == old(self).next_token,
            final(self).data == old(self).data,
            match gate(old(self).role_of(data.token), Floor::AnyRole) {
                Option::Some(e) => r matches Err(x) && x == e && *final(self) == *old(self),
                Option::None => ({
                    let j = user_index(
                        old(self).users@,
                        session_username(old(self).sessions@, data.token),
                    );
                    r matches Ok(m) && m@ == "password changed."@ && final(self).users@.len()
                        == old(self).users@.len() && final(self).users@[j].username@ == old(self).users@[j].username@ && final(self).users@[j].pwd@ == data.pwd@ && final(self).users@[j].rol@ == old(self).users@[j].rol@ && (forall|k: int|
                        0 <= k < old(self).users@.len() && k != j ==> final(self).users@[k] == old(self).users@[k])
                }),
            },
    {
        let i = match find_session(&self.sessions, data.token) {
            Some(i) => i,
            None => {
                return Err(MyError::AuthError);
            },
        };
        let name = self.sessions[i].username.clone();
        let j = match find_user(&self.users, &name) {
            Some(j) => j,
            None => {
                return Err(MyError::AuthError);
            },
        };
        let ghost pre = *self;
        self.users[j].pwd = data.pwd.clone();
        proof {
            assert(self.users@ =~= pre.users@.update(j as int, self.users@[j as int]));
            assert forall|a: int, b: int| 0 <= a < b < self.users@.len() implies (
            #[trigger] self.users@[a]).username@ != (#[trigger] self.users@[b]).username@ by {
                assert(self.users@[a].username@ == old(self).users@[a].username@);
                assert(self.users@[b].username@ == old(self).users@[b].username@);
            }
            assert forall|k: int| 0 <= k < self.sessions@.len() implies has_user(
                self.users@,
                (#[trigger] self.sessions@[k]).username@,
            ) by {
                let w = user_index(old(self).users@, self.sessions@[k].username@);
                assert(has_user(old(self).users@, self.sessions@[k].username@));
                assert(self.users@[w].username@ == old(self).users@[w].username@);
            }
        }
        Ok("password changed.")
    }

    /// Startup bootstrap: if no account named `admin` exists, create an
    /// administrator account `admin`/`admin`, so that an administrator can
    /// always log in right after first boot.
    pub fn ensure_admin(&mut self)
        requires
            old(self).wf(),
        ensures
            final(self).wf(),
            final(self).sessions == old(self).sessions,
            final(self).next_token == old(self).next_token,
            final(self).data == old(self).data,
            has_user(old(self).users@, "admin"@) ==> *final(self) == *old(self),
            !has_user(old(self).users@, "admin"@) ==> final(self).users@.len() == old(self).users@.len() + 1 && final(self).users@.last().username@ == "admin"@ && final(self).users@.last().pwd@ == "admin"@ && final(self).users@.last().rol@ == "administrator"@
                && final(self).users@.drop_last() == old(self).users@,
            !has_user(old(self).users@, "admin"@) ==> credentials_ok(
                final(self).users@,
                "admin"@,
                "admin"@,
            ),
            has_user(final(self).users@, "admin"@),
    {
        let name: String = "admin".to_owned();
        if find_user(&self.users, &name).is_none() {
            let ghost pre = *self;
            self.users.push(
                User {
                    username: "admin".to_owned(),
                    pwd: "admin".to_owned(),
                    rol: "administrator".to_owned(),
                },
            );
            proof {
                let n = old(self).users@.len() as int;
                assert(self.users@ == pre.users@.push(self.users@[n]));
                assert(self.users@.drop_last() =~= old(self).users@);
                assert forall|a: int, b: int| 0 <= a < b < self.users@.len() implies (
                #[trigger] self.users@[a]).username@ != (#[trigger] self.users@[b]).username@ by {
                    if b == n {
                        assert(old(self).users@[a].username@ != "admin"@);
                    }
                }
                assert forall|i: int| 0 <= i < self.sessions@.len() implies has_user(
                    self.users@,
                    (#[trigger] self.sessions@[i]).username@,
                ) by {
                    let w = user_index(old(self).users@, self.sessions@[i].username@);
                    assert(has_user(old(self).users@, self.sessions@[i].username@));
                    assert(old(self).users@[w] == self.users@[w]);
                }
                assert(has_user(self.users@, "admin"@));
            }
        }
    }
}

} // verus!
