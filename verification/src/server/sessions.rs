//! The server's two tables: which user each session token belongs to, and
//! which users have a socket open.

use vstd::hash_map::StringHashMap;
use vstd::prelude::*;

verus! {

/// Session tokens, each mapped to the name of the user who logged in with it.
pub struct SessionStore {
    by_token: StringHashMap<String>,
}

impl View for SessionStore {
    type V = Map<Seq<char>, Seq<char>>;

    closed spec fn view(&self) -> Map<Seq<char>, Seq<char>> {
        self.by_token@.map_values(|name: String| name@)
    }
}

impl SessionStore {
    /// A store with no session.
    pub fn new() -> (store: Self)
        ensures
            store@ == Map::<Seq<char>, Seq<char>>::empty(),
    {
        let store = SessionStore { by_token: StringHashMap::new() };
        assert(store@ =~= Map::<Seq<char>, Seq<char>>::empty());
        store
    }

    /// Binds `token` to `username`; a token that was bound before now names
    /// the new user.
    pub fn open_session(&mut self, token: String, username: String)
        ensures
            final(self)@ == old(self)@.insert(token@, username@),
    {
        let ghost before = self.by_token@;
        self.by_token.insert(token, username);
        assert(self@ =~= old(self)@.insert(token@, username@)) by {
            assert(self.by_token@ == before.insert(token@, username));
        }
    }

    /// The user that `token` is bound to, if any.
    pub fn lookup(&self, token: &str) -> (user: Option<String>)
        ensures
            match user {
                Some(name) => self@.contains_key(token@) && name@ == self@[token@],
                None => !self@.contains_key(token@),
            },
    {
        match self.by_token.get(token) {
            Some(name) => Some(name.clone()),
            None => None,
        }
    }

    /// The number of sessions.
    pub fn len(&self) -> (n: usize)
        ensures
            n == self@.len(),
    {
        proof {
            vstd::hash_map::axiom_string_hash_map_spec_len(&self.by_token);
            assert(self@.dom() =~= self.by_token@.dom());
        }
        self.by_token.len()
    }
}

/// The users who have a socket open, each with the handle of its connection.
#[verifier::reject_recursive_types(C)]
pub struct ConnectionRegistry<C> {
    by_user: StringHashMap<C>,
}

impl<C> View for ConnectionRegistry<C> {
    type V = Map<Seq<char>, C>;

    closed spec fn view(&self) -> Map<Seq<char>, C> {
        self.by_user@
    }
}

impl<C> ConnectionRegistry<C> {
    /// A registry with no connection.
    pub fn new() -> (reg: Self)
        ensures
            reg@ == Map::<Seq<char>, C>::empty(),
    {
        ConnectionRegistry { by_user: StringHashMap::new() }
    }

    /// Records that `username` has the connection `conn`; an earlier
    /// connection of the same user is forgotten.
    pub fn register(&mut self, username: String, conn: C)
        ensures
            final(self)@ == old(self)@.insert(username@, conn),
    {
        self.by_user.insert(username, conn);
    }

    /// Forgets the connection of `username`, whichever it is.
    pub fn unregister(&mut self, username: &str)
        ensures
            final(self)@ == old(self)@.remove(username@),
    {
        self.by_user.remove(username);
    }

    /// Whether `username` has a connection.
    pub fn is_connected(&self, username: &str) -> (b: bool)
        ensures
            b == self@.contains_key(username@),
    {
        self.by_user.contains_key(username)
    }

    /// The number of connected users.
    pub fn len(&self) -> (n: usize)
        ensures
            n == self@.len(),
    {
        proof {
            vstd::hash_map::axiom_string_hash_map_spec_len(&self.by_user);
        }
        self.by_user.len()
    }
}

} // verus!
