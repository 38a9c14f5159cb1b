//! Roles that the identity provider grants users, per client.
use vstd::prelude::*;
use crate::text::{contains_str, str_eq, strings_view};

verus! {

/// The roles a user holds for one client.
#[derive(Clone, Debug)]
pub struct ClientRoles {
    pub roles: Vec<String>,
}

impl ClientRoles {
    /// Whether the user holds `role`.
    pub fn has_role(&self, role: &str) -> (r: bool)
        ensures
            r == strings_view(self.roles@).contains(role@),
    {
        contains_str(&self.roles, role)
    }
}

/// The claims an identity token carries beyond the standard ones: the roles
/// per client, each client at most once.
#[derive(Clone, Debug)]
pub struct AdditionalClaims {
    pub resource_access: Vec<(String, ClientRoles)>,
}

/// The roles held for `client`, if the claims name it.
pub open spec fn roles_for(access: Seq<(String, ClientRoles)>, client: Seq<char>) -> Option<Seq<Seq<char>>>
    decreases access.len(),
{
    if access.len() == 0 {
        None
    } else if access.last().0@ == client {
        Some(strings_view(access.last().1.roles@))
    } else {
        roles_for(access.drop_last(), client)
    }
}

fn find_client(access: &Vec<(String, ClientRoles)>, client: &str) -> (r: Option<usize>)
    ensures
        match r {
            Some(i) => i < access@.len() && roles_for(access@, client@) == Some(strings_view(access@[i as int].1.roles@)),
            None => roles_for(access@, client@) is None,
        },
{
    let mut i: usize = access.len();
    proof {
        assert(access@.take(i as int) =~= access@);
    }
    while i > 0
        invariant
            i <= access@.len(),
            roles_for(access@, client@) == roles_for(access@.take(i as int), client@),
        decreases i,
    {
        proof {
            assert(access@.take(i as int).drop_last() =~= access@.take(i - 1));
            assert(access@.take(i as int).last() == access@[i - 1]);
        }
        if str_eq(access[i - 1].0.as_str(), client) {
            return Some(i - 1);
        }
        i = i - 1;
    }
    None
}

impl AdditionalClaims {
    /// Whether the user holds `role` for `client_id`.
    pub fn has_role(&self, client_id: &str, role: &str) -> (r: bool)
        ensures
            r == match roles_for(self.resource_access@, client_id@) {
                Some(rs) => rs.contains(role@),
                None => false,
            },
    {
        match find_client(&self.resource_access, client_id) {
            Some(i) => self.resource_access[i].1.has_role(role),
            None => false,
        }
    }

    /// The roles the user holds for `client_id`; the client is added with
    /// no roles when the claims do not name it.
    pub fn own_roles(&mut self, client_id: &str) -> (r: ClientRoles)
        ensures
            match roles_for(old(self).resource_access@, client_id@) {
                Some(rs) => final(self).resource_access@ == old(self).resource_access@ && strings_view(r.roles@) == rs,
                None => r.roles@.len() == 0
                    && final(self).resource_access@.len() == old(self).resource_access@.len() + 1
                    && final(self).resource_access@.drop_last() == old(self).resource_access@
                    && final(self).resource_access@.last().0@ == client_id@
                    && final(self).resource_access@.last().1.roles@.len() == 0,
            },
    {
        match find_client(&self.resource_access, client_id) {
            Some(i) => {
                let roles = self.resource_access[i].1.roles.clone();
                proof {
                    assert(strings_view(roles@) =~= strings_view(self.resource_access@[i as int].1.roles@));
                }
                ClientRoles { roles }
            },
            None => {
                let ghost before = self.resource_access@;
                self.resource_access.push((client_id.to_owned(), ClientRoles { roles: Vec::new() }));
                proof {
                    assert(self.resource_access@.drop_last() =~= before);
                }
                ClientRoles { roles: Vec::new() }
            },
        }
    }
}

/// What a stored sign-in session is good for.
#[derive(Clone, Copy, Debug, PartialEq, Eq, Structural)]
pub enum SessionState {
    /// Its access token may be used as it is.
    Valid,
    /// It has expired, and its refresh token is to be exchanged.
    Refresh,
    /// It has expired with nothing to refresh it: the user is not signed in.
    SignedOut,
}

/// The state of a session at `now`: valid when it never expires or expires
/// later; otherwise refreshed when it has a refresh token.
pub fn session_state(expires_at: Option<i64>, has_refresh_token: bool, now: i64) -> (r: SessionState)
    ensures
        r == (match expires_at {
            None => SessionState::Valid,
            Some(exp) => if exp > now {
                SessionState::Valid
            } else if has_refresh_token {
                SessionState::Refresh
            } else {
                SessionState::SignedOut
            },
        }),
{
    match expires_at {
        None => SessionState::Valid,
        Some(exp) => if exp > now {
            SessionState::Valid
        } else if has_refresh_token {
            SessionState::Refresh
        } else {
            SessionState::SignedOut
        },
    }
}

} // verus!
