//! Cluster nodes, the membership snapshot that partitions them by role, and
//! the random choice of the node that serves a request.

use rand::seq::SliceRandom;
use vstd::prelude::*;

use crate::error::DispatchError;
use crate::route::Role;

verus! {

/// One backend process, reached at its base address (scheme, host and port).
#[derive(Clone, Debug, PartialEq, Eq)]
pub struct Node {
    pub http_addr: String,
}

/// A point-in-time view of the live nodes of each role. `None` means that
/// membership has no information on the role yet.
#[derive(Clone, Debug)]
pub struct MembershipSnapshot {
    pub ingesters: Option<Vec<Node>>,
    pub queriers: Option<Vec<Node>>,
}

/// The nodes that a snapshot lists for `role`.
pub open spec fn nodes_of(snapshot: MembershipSnapshot, role: Role) -> Option<Vec<Node>> {
    match role {
        Role::Ingester => snapshot.ingesters,
        Role::Querier => snapshot.queriers,
    }
}

/// No node can be chosen from `nodes`: it is absent or empty.
pub open spec fn no_nodes(nodes: Option<Vec<Node>>) -> bool {
    match nodes {
        None => true,
        Some(v) => v@.len() == 0,
    }
}

impl MembershipSnapshot {
    /// The nodes listed for `role`, taken out of the snapshot as one whole.
    pub fn into_nodes(self, role: Role) -> (r: Option<Vec<Node>>)
        ensures
            r == nodes_of(self, role),
    {
        match role {
            Role::Ingester => self.ingesters,
            Role::Querier => self.queriers,
        }
    }
}

/// Relies on rand's `SliceRandom::shuffle` with the thread-local generator:
/// it only swaps elements, so it leaves a permutation of its input.
#[verifier::external_body]
fn shuffle_nodes(nodes: &mut Vec<Node>)
    ensures
        final(nodes)@.to_multiset() == old(nodes)@.to_multiset(),
{
    nodes.shuffle(&mut rand::thread_rng());
}

/// The first of `nodes`, or `NoNodesAvailable` where there is none.
pub fn first_node(nodes: Option<Vec<Node>>) -> (r: Result<Node, DispatchError>)
    ensures
        no_nodes(nodes) ==> r == Err::<Node, DispatchError>(DispatchError::NoNodesAvailable),
        !no_nodes(nodes) ==> r == Ok::<Node, DispatchError>(nodes->0@[0]),
{
    match nodes {
        None => Err(DispatchError::NoNodesAvailable),
        Some(mut v) => {
            if v.len() == 0 {
                Err(DispatchError::NoNodesAvailable)
            } else {
                Ok(v.swap_remove(0))
            }
        },
    }
}

/// A node chosen uniformly at random from `nodes`: the list is shuffled and
/// its first node taken. Fails with `NoNodesAvailable`, and nothing else,
/// exactly where `nodes` is absent or empty.
pub fn select_from(nodes: Option<Vec<Node>>) -> (r: Result<Node, DispatchError>)
    ensures
        no_nodes(nodes) <==> r is Err,
        r is Err ==> r == Err::<Node, DispatchError>(DispatchError::NoNodesAvailable),
        r is Ok ==> nodes->0@.contains(r->Ok_0),
{
    broadcast use vstd::seq_lib::group_to_multiset_ensures;

    match nodes {
        None => Err(DispatchError::NoNodesAvailable),
        Some(mut v) => {
            if v.len() == 0 {
                return Err(DispatchError::NoNodesAvailable);
            }
            let ghost before = v@;
            shuffle_nodes(&mut v);
            assert(v@.len() == v@.to_multiset().len());
            assert(before.len() == before.to_multiset().len());
            assert(v@.contains(v@[0]));
            assert(v@.to_multiset().count(v@[0]) > 0);
            assert(before.contains(v@[0]));
            first_node(Some(v))
        },
    }
}

/// A node of `role` chosen from one snapshot, uniformly at random.
pub fn select(snapshot: MembershipSnapshot, role: Role) -> (r: Result<Node, DispatchError>)
    ensures
        no_nodes(nodes_of(snapshot, role)) <==> r is Err,
        r is Err ==> r == Err::<Node, DispatchError>(DispatchError::NoNodesAvailable),
        r is Ok ==> nodes_of(snapshot, role)->0@.contains(r->Ok_0),
{
    select_from(snapshot.into_nodes(role))
}

} // verus!
