//! Addressing of outbound messages.

use vstd::prelude::*;
use crate::components::Client;
use crate::sequences::lemma_filter_push;

verus! {

/// Who a message goes to.
#[derive(Debug, Copy, Clone, PartialEq, Eq, Structural)]
pub enum Dest {
    /// One client.
    Single(Client),
    /// Every client but one.
    AllExcept(Client),
    /// Every client.
    All,
}

impl Dest {
    /// Whether a message with this destination is sent to `client`.
    pub open spec fn reaches(self, client: Client) -> bool {
        match self {
            Dest::Single(only) => client == only,
            Dest::AllExcept(excluded) => client != excluded,
            Dest::All => true,
        }
    }

    /// The clients a message with this destination is sent to, given the
    /// connected clients in order: the named client for `Single`, whether
    /// connected or not, and otherwise the connected ones it reaches.
    pub open spec fn targets(self, clients: Seq<Client>) -> Seq<Client> {
        match self {
            Dest::Single(only) => seq![only],
            _ => clients.filter(|client: Client| self.reaches(client)),
        }
    }
}

/// A message and its destination.
#[derive(Debug, Clone, PartialEq, Eq)]
pub struct Pack<T> {
    pub msg: T,
    pub dest: Dest,
}

impl<T> Pack<T> {
    pub fn new(msg: T, dest: Dest) -> (pack: Pack<T>)
        ensures
            pack == (Pack { msg, dest }),
    {
        Pack { msg, dest }
    }

    /// `msg`, for every client.
    pub fn all(msg: T) -> (pack: Pack<T>)
        ensures
            pack == (Pack { msg, dest: Dest::All }),
    {
        Pack { msg, dest: Dest::All }
    }

    /// `msg`, for `client` alone.
    pub fn single(msg: T, client: Client) -> (pack: Pack<T>)
        ensures
            pack == (Pack { msg, dest: Dest::Single(client) }),
    {
        Pack { msg, dest: Dest::Single(client) }
    }

    /// `msg`, for every client but `client`.
    pub fn except(msg: T, client: Client) -> (pack: Pack<T>)
        ensures
            pack == (Pack { msg, dest: Dest::AllExcept(client) }),
    {
        Pack { msg, dest: Dest::AllExcept(client) }
    }
}

/// The clients that a message for `dest` is handed to the transport for,
/// out of the connected `clients`.
pub fn recipients(dest: &Dest, clients: &Vec<Client>) -> (targets: Vec<Client>)
    ensures
        targets@ == dest.targets(clients@),
{
    let mut targets: Vec<Client> = Vec::new();
    match dest {
        Dest::Single(only) => {
            targets.push(*only);
        },
        Dest::AllExcept(excluded) => {
            let ghost keep = |client: Client| dest.reaches(client);
            let mut i: usize = 0;
            assert(clients@.subrange(0, 0) == Seq::<Client>::empty());
            while i < clients.len()
                invariant
                    i <= clients.len(),
                    *dest == Dest::AllExcept(*excluded),
                    keep == |client: Client| dest.reaches(client),
                    targets@ == clients@.subrange(0, i as int).filter(keep),
                decreases clients.len() - i,
            {
                let client = clients[i];
                proof {
                    let before = clients@.subrange(0, i as int);
                    assert(clients@.subrange(0, i + 1) == before.push(client));
                    lemma_filter_push(before, client, keep);
                }
                if client != *excluded {
                    targets.push(client);
                }
                i = i + 1;
            }
            assert(clients@.subrange(0, clients.len() as int) == clients@);
        },
        Dest::All => {
            let ghost keep = |client: Client| dest.reaches(client);
            let mut i: usize = 0;
            assert(clients@.subrange(0, 0) == Seq::<Client>::empty());
            while i < clients.len()
                invariant
                    i <= clients.len(),
                    *dest == Dest::All,
                    keep == |client: Client| dest.reaches(client),
                    targets@ == clients@.subrange(0, i as int).filter(keep),
                decreases clients.len() - i,
            {
                let client = clients[i];
                proof {
                    let before = clients@.subrange(0, i as int);
                    assert(clients@.subrange(0, i + 1) == before.push(client));
                    lemma_filter_push(before, client, keep);
                }
                targets.push(client);
                i = i + 1;
            }
            assert(clients@.subrange(0, clients.len() as int) == clients@);
        },
    }
    targets
}

} // verus!
