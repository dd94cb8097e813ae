//! Peer discovery: one known peer is asked for the peers that it knows.

use crate::error::{Cause, Error};
use vstd::prelude::*;

verus! {

/// A peer, as the node describes it. `A` is the address by which it is
/// reached.
#[derive(Clone, Debug, PartialEq, Eq)]
pub struct Peer<A> {
    pub connection: A,
}

impl<A> Peer<A> {
    pub fn new(connection: A) -> (peer: Peer<A>)
        ensures
            peer.connection == connection,
    {
        Peer { connection }
    }
}

/// Where a discovery stands: what the peer was asked last.
#[derive(Clone, Copy, Debug, PartialEq, Eq, Structural)]
pub enum Discovery {
    /// To open a session.
    Connecting,
    /// To become ready.
    Readying,
    /// To list its peers.
    Listing,
    /// The discovery is over.
    Done,
}

/// What the peer answered.
#[derive(Debug, PartialEq, Eq)]
pub enum DiscoveryEvent<A> {
    Connected(Result<(), Cause>),
    Ready(Result<(), Cause>),
    /// The addresses of the peers that the peer knows.
    Peers(Result<Vec<A>, Cause>),
}

/// What is to happen next.
#[derive(Debug, PartialEq, Eq)]
pub enum DiscoveryAction<A> {
    /// Wait for the session to become ready.
    AwaitReady,
    /// Ask the peer for its peers.
    RequestPeers,
    /// The discovery is over with this result.
    Finish(Result<Vec<Peer<A>>, Error>),
}

/// The peers at the addresses `addrs`, in the same order.
pub open spec fn peers_at<A>(addrs: Seq<A>) -> Seq<Peer<A>> {
    Seq::new(addrs.len(), |i: int| Peer { connection: addrs[i] })
}

/// Describes the peer at each address.
pub fn describe_peers<A>(addrs: Vec<A>) -> (peers: Vec<Peer<A>>)
    ensures
        peers@ == peers_at(addrs@),
{
    let ghost all = addrs@;
    let mut addrs = addrs;
    let mut reversed: Vec<Peer<A>> = Vec::new();
    while addrs.len() > 0
        invariant
            addrs@.len() + reversed@.len() == all.len(),
            addrs@ == all.subrange(0, addrs@.len() as int),
            forall|i: int|
                0 <= i < reversed@.len() ==> (#[trigger] reversed@[i]).connection == all[all.len()
                    - 1 - i],
        decreases addrs@.len(),
    {
        match addrs.pop() {
            Some(addr) => reversed.push(Peer::new(addr)),
            None => {},
        }
    }
    let mut peers: Vec<Peer<A>> = Vec::new();
    let ghost turned = reversed@;
    while reversed.len() > 0
        invariant
            turned.len() == all.len(),
            reversed@.len() + peers@.len() == all.len(),
            reversed@ == turned.subrange(0, reversed@.len() as int),
            forall|i: int|
                0 <= i < turned.len() ==> (#[trigger] turned[i]).connection == all[all.len() - 1
                    - i],
            forall|i: int| 0 <= i < peers@.len() ==> (#[trigger] peers@[i]).connection == all[i],
        decreases reversed@.len(),
    {
        match reversed.pop() {
            Some(peer) => peers.push(peer),
            None => {},
        }
    }
    assert(peers@ =~= peers_at(all));
    peers
}

/// The next state and what is to happen, for every answer but a list of
/// addresses; `None` where the answer is not one to what was asked.
pub open spec fn discovery_step<A>(state: Discovery, event: DiscoveryEvent<A>) -> Option<
    (Discovery, DiscoveryAction<A>),
> {
    match event {
        DiscoveryEvent::Connected(answer) => if state == Discovery::Connecting {
            Some(
                match answer {
                    Ok(_) => (Discovery::Readying, DiscoveryAction::AwaitReady),
                    Err(cause) => (
                        Discovery::Done,
                        DiscoveryAction::Finish(Err(Error::Connect(cause))),
                    ),
                },
            )
        } else {
            None
        },
        DiscoveryEvent::Ready(answer) => if state == Discovery::Readying {
            Some(
                match answer {
                    Ok(_) => (Discovery::Listing, DiscoveryAction::RequestPeers),
                    Err(cause) => (
                        Discovery::Done,
                        DiscoveryAction::Finish(Err(Error::ClientNotReady(cause))),
                    ),
                },
            )
        } else {
            None
        },
        DiscoveryEvent::Peers(Err(cause)) => if state == Discovery::Listing {
            Some((Discovery::Done, DiscoveryAction::Finish(Err(Error::PeersNotAvailable(cause)))))
        } else {
            None
        },
        DiscoveryEvent::Peers(Ok(addrs)) => None,
    }
}

/// Takes the peer's answer and says what is to happen next. With the list of
/// addresses the discovery is over, and its result describes the peer at
/// each address, in the same order. An answer that does not belong to the
/// state is handed back and changes nothing.
pub fn peers_from_trusted_peer<A>(state: &mut Discovery, event: DiscoveryEvent<A>) -> (r: Result<
    DiscoveryAction<A>,
    DiscoveryEvent<A>,
>)
    ensures
        match event {
            DiscoveryEvent::Peers(Ok(addrs)) => if *old(state) == Discovery::Listing {
                *final(state) == Discovery::Done && (r matches Ok(
                    DiscoveryAction::Finish(Ok(peers)),
                ) && peers@ == peers_at(addrs@))
            } else {
                r == Err::<DiscoveryAction<A>, DiscoveryEvent<A>>(event) && *final(state) == *old(
                    state,
                )
            },
            _ => match discovery_step(*old(state), event) {
                Some((next, action)) => r == Ok::<DiscoveryAction<A>, DiscoveryEvent<A>>(action)
                    && *final(state) == next,
                None => r == Err::<DiscoveryAction<A>, DiscoveryEvent<A>>(event) && *final(state)
                    == *old(state),
            },
        },
{
    match event {
        DiscoveryEvent::Connected(answer) => match *state {
            Discovery::Connecting => match answer {
                Ok(_) => {
                    *state = Discovery::Readying;
                    Ok(DiscoveryAction::AwaitReady)
                },
                Err(cause) => {
                    *state = Discovery::Done;
                    Ok(DiscoveryAction::Finish(Err(Error::Connect(cause))))
                },
            },
            _ => Err(DiscoveryEvent::Connected(answer)),
        },
        DiscoveryEvent::Ready(answer) => match *state {
            Discovery::Readying => match answer {
                Ok(_) => {
                    *state = Discovery::Listing;
                    Ok(DiscoveryAction::RequestPeers)
                },
                Err(cause) => {
                    *state = Discovery::Done;
                    Ok(DiscoveryAction::Finish(Err(Error::ClientNotReady(cause))))
                },
            },
            _ => Err(DiscoveryEvent::Ready(answer)),
        },
        DiscoveryEvent::Peers(answer) => match *state {
            Discovery::Listing => {
                *state = Discovery::Done;
                match answer {
                    Ok(addrs) => Ok(DiscoveryAction::Finish(Ok(describe_peers(addrs)))),
                    Err(cause) => Ok(
                        DiscoveryAction::Finish(Err(Error::PeersNotAvailable(cause))),
                    ),
                }
            },
            _ => Err(DiscoveryEvent::Peers(answer)),
        },
    }
}

} // verus!
