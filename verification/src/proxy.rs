//! The server's configuration and credential store.
//!
//! A [`Proxy`] holds the set of authentication methods the server enables
//! and a username-to-password store. The store is modelled as a map from
//! the username's characters to the password's characters; where a name
//! was stored more than once, the latest entry wins, exactly as a map
//! insert would.

use vstd::prelude::*;

use crate::methods::AuthMethods;

verus! {

/// One stored username/password pair.
struct UserEntry {
    name: String,
    pass: String,
}

/// The password the entry sequence gives for a username: that of the
/// latest entry whose name matches, `None` when no entry does.
spec fn seq_lookup(s: Seq<UserEntry>, k: Seq<char>) -> Option<Seq<char>>
    decreases s.len(),
{
    if s.len() == 0 {
        None
    } else if s.last().name@ == k {
        Some(s.last().pass@)
    } else {
        seq_lookup(s.drop_last(), k)
    }
}

/// The server configuration and credential store.
pub struct Proxy {
    auth_methods: Vec<AuthMethods>,
    users: Vec<UserEntry>,
}

impl Proxy {
    /// The authentication methods this server enables, in priority order
    /// of configuration.
    pub closed spec fn spec_methods(&self) -> Seq<AuthMethods> {
        self.auth_methods@
    }

    /// The credential store as a map from username to password.
    pub closed spec fn users_map(&self) -> Map<Seq<char>, Seq<char>> {
        Map::new(
            |k: Seq<char>| seq_lookup(self.users@, k) is Some,
            |k: Seq<char>| seq_lookup(self.users@, k)->Some_0,
        )
    }

    /// A fresh server: the given enabled methods and an empty store.
    pub fn new(auth_methods: Vec<AuthMethods>) -> (p: Proxy)
        ensures
            p.spec_methods() == auth_methods@,
            p.users_map() == Map::<Seq<char>, Seq<char>>::empty(),
    {
        let p = Proxy { auth_methods, users: Vec::new() };
        proof {
            assert(p.users_map() =~= Map::<Seq<char>, Seq<char>>::empty());
        }
        p
    }

    /// Stores a password for a username, replacing any earlier one.
    pub fn add_user(&mut self, username: String, password: String)
        ensures
            final(self).users_map() == old(self).users_map().insert(username@, password@),
            final(self).spec_methods() == old(self).spec_methods(),
    {
        let ghost oldu = self.users@;
        self.users.push(UserEntry { name: username, pass: password });
        proof {
            let newu = self.users@;
            assert(newu.drop_last() =~= oldu);
            assert forall|k: Seq<char>|
                #[trigger] seq_lookup(newu, k) == (if k == username@ {
                    Some(password@)
                } else {
                    seq_lookup(oldu, k)
                }) by {
                assert(newu.last().name@ == username@);
            }
            assert(self.users_map() =~= old(self).users_map().insert(username@, password@));
        }
    }

    /// Drops a username from the store; a name that is absent stays absent.
    pub fn remove_user(&mut self, username: String)
        ensures
            final(self).users_map() == old(self).users_map().remove(username@),
            final(self).spec_methods() == old(self).spec_methods(),
    {
        let ghost all = self.users@;
        let mut kept: Vec<UserEntry> = Vec::new();
        let n = self.users.len();
        let mut i: usize = 0;
        while i < n
            invariant
                i <= n,
                n == all.len(),
                self.users@ == all,
                forall|k: Seq<char>|
                    #[trigger] seq_lookup(kept@, k) == (if k == username@ {
                        None::<Seq<char>>
                    } else {
                        seq_lookup(all.take(i as int), k)
                    }),
            decreases n - i,
        {
            let ghost prev_kept = kept@;
            let e = &self.users[i];
            let keep_it = !(e.name == username);
            if keep_it {
                kept.push(UserEntry { name: e.name.clone(), pass: e.pass.clone() });
            }
            proof {
                let taken = all.take(i + 1 as int);
                assert(taken.drop_last() =~= all.take(i as int));
                assert(taken.last() == all[i as int]);
                assert forall|k: Seq<char>|
                    #[trigger] seq_lookup(kept@, k) == (if k == username@ {
                        None::<Seq<char>>
                    } else {
                        seq_lookup(taken, k)
                    }) by {
                    assert(seq_lookup(prev_kept, k) == (if k == username@ {
                        None::<Seq<char>>
                    } else {
                        seq_lookup(all.take(i as int), k)
                    }));
                    if keep_it {
                        assert(kept@.drop_last() =~= prev_kept);
                        assert(kept@.drop_last() == prev_kept);
                        assert(kept@.last().name@ == all[i as int].name@);
                        assert(kept@.last().pass@ == all[i as int].pass@);
                    } else {
                        assert(kept@ == prev_kept);
                        assert(all[i as int].name@ == username@);
                    }
                }
            }
            i = i + 1;
        }
        proof {
            assert(all.take(n as int) =~= all);
        }
        self.users = kept;
        proof {
            assert(self.users_map() =~= old(self).users_map().remove(username@));
        }
    }

    /// The stored password for a username, `None` when the name is absent.
    pub fn get_user(&self, username: String) -> (r: Option<String>)
        ensures
            r matches Some(p) ==> self.users_map().contains_key(username@) && p@
                == self.users_map()[username@],
            r is None ==> !self.users_map().contains_key(username@),
    {
        let mut i = self.users.len();
        proof {
            assert(self.users@.take(i as int) =~= self.users@);
        }
        while i > 0
            invariant
                i <= self.users@.len(),
                seq_lookup(self.users@, username@) == seq_lookup(
                    self.users@.take(i as int),
                    username@,
                ),
            decreases i,
        {
            i = i - 1;
            proof {
                let taken = self.users@.take(i + 1 as int);
                assert(taken.drop_last() =~= self.users@.take(i as int));
                assert(taken.last() == self.users@[i as int]);
            }
            if self.users[i].name == username {
                return Some(self.users[i].pass.clone());
            }
        }
        None
    }

    /// True exactly when the server enables the given method.
    pub fn check_valid_auth_method(&self, auth_method: &AuthMethods) -> (r: bool)
        ensures
            r == self.spec_methods().contains(*auth_method),
    {
        let mut i: usize = 0;
        while i < self.auth_methods.len()
            invariant
                i <= self.auth_methods@.len(),
                forall|j: int| 0 <= j < i ==> self.auth_methods@[j] != *auth_method,
            decreases self.auth_methods@.len() - i,
        {
            if self.auth_methods[i] == *auth_method {
                return true;
            }
            i = i + 1;
        }
        false
    }

    /// True exactly when the store holds the username with that password.
    pub fn check_credentials(&self, username: &String, password: &String) -> (r: bool)
        ensures
            r == (self.users_map().contains_key(username@) && self.users_map()[username@]
                == password@),
    {
        match self.get_user(username.clone()) {
            Some(stored) => stored == *password,
            None => false,
        }
    }
}

} // verus!
