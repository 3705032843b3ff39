//! The directory of live sessions, keyed by each connection's address.
use crate::messages::UserStatus;
use std::collections::HashMap;
use vstd::prelude::*;

verus! {

broadcast use vstd::std_specs::hash::group_hash_axioms;

/// A connection's identity: its IPv4 address and port.
#[derive(Debug, Clone, Copy, PartialEq, Eq, Structural)]
pub struct PeerAddr {
    pub ip: u32,
    pub port: u16,
}

impl PeerAddr {
    /// The directory key of this address.
    pub open spec fn spec_key(&self) -> u64 {
        ((self.ip as u64) * 65536 + (self.port as u64)) as u64
    }

    pub fn key(&self) -> (k: u64)
        ensures
            k == self.spec_key(),
    {
        assert((self.ip as u64) * 65536 + (self.port as u64) < 0x1_0000_0000_0000) by (nonlinear_arith)
            requires
                self.ip <= u32::MAX,
                self.port <= u16::MAX,
        ;
        (self.ip as u64) * 65536 + (self.port as u64)
    }
}

/// A logged-in session: the name given at login and the last reported status.
pub struct User {
    pub name: String,
    pub status: UserStatus,
}

/// All live sessions; at most one per connection address.
pub struct ConnectedUsers {
    users: HashMap<u64, User>,
}

impl View for ConnectedUsers {
    type V = Map<u64, (Seq<char>, UserStatus)>;

    closed spec fn view(&self) -> Map<u64, (Seq<char>, UserStatus)> {
        Map::new(
            |k: u64| self.users@.contains_key(k),
            |k: u64| (self.users@[k].name@, self.users@[k].status),
        )
    }
}

impl ConnectedUsers {
    pub fn new() -> (r: Self)
        ensures
            r@ == Map::<u64, (Seq<char>, UserStatus)>::empty(),
    {
        let r = ConnectedUsers { users: HashMap::new() };
        assert(r@ =~= Map::<u64, (Seq<char>, UserStatus)>::empty());
        r
    }

    /// Records (or replaces) the session of `peer`.
    pub fn insert(&mut self, peer: PeerAddr, name: String, status: UserStatus)
        ensures
            final(self)@ == old(self)@.insert(peer.spec_key(), (name@, status)),
    {
        let k = peer.key();
        self.users.insert(k, User { name, status });
        assert(self@ =~= old(self)@.insert(peer.spec_key(), (name@, status)));
    }

    /// Changes the status of `peer`'s session; does nothing if it has none.
    pub fn set_status(&mut self, peer: PeerAddr, status: UserStatus)
        ensures
            final(self)@ == if old(self)@.contains_key(peer.spec_key()) {
                old(self)@.insert(peer.spec_key(), (old(self)@[peer.spec_key()].0, status))
            } else {
                old(self)@
            },
    {
        let k = peer.key();
        match self.users.remove(&k) {
            Some(user) => {
                self.users.insert(k, User { name: user.name, status });
                assert(self@ =~= old(self)@.insert(k, (old(self)@[k].0, status)));
            },
            None => {
                assert(self@ =~= old(self)@);
            },
        }
    }

    /// Ends the session of `peer`, if there is one.
    pub fn remove(&mut self, peer: PeerAddr)
        ensures
            final(self)@ == old(self)@.remove(peer.spec_key()),
    {
        let k = peer.key();
        self.users.remove(&k);
        assert(self@ =~= old(self)@.remove(peer.spec_key()));
    }

    /// The status of `peer`'s session, if it has one.
    pub fn status_of(&self, peer: PeerAddr) -> (r: Option<UserStatus>)
        ensures
            r == if self@.contains_key(peer.spec_key()) {
                Some(self@[peer.spec_key()].1)
            } else {
                None::<UserStatus>
            },
    {
        let k = peer.key();
        match self.users.get(&k) {
            Some(user) => Some(user.status),
            None => None,
        }
    }

    /// The name of `peer`'s session, if it has one.
    pub fn name_of(&self, peer: PeerAddr) -> (r: Option<String>)
        ensures
            r is Some == self@.contains_key(peer.spec_key()),
            r is Some ==> r->Some_0@ == self@[peer.spec_key()].0,
    {
        let k = peer.key();
        match self.users.get(&k) {
            Some(user) => Some(user.name.clone()),
            None => None,
        }
    }

    /// How many sessions are live.
    pub fn len(&self) -> (r: usize)
        ensures
            r == self@.len(),
    {
        assert(self@.dom() =~= self.users@.dom());
        self.users.len()
    }
}

} // verus!
