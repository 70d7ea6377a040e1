//! The election state machine of a Bully-style leader election: per-node
//! state, the decision rules that pick a leader, and the responder-side
//! handling of election, coordinator and ping messages.
//!
//! Everything here is a pure decision over plain values. The surrounding
//! runtime contacts peers over the network, feeds the outcome of each
//! contact back in as a [`PeerReply`], and performs the actions (which
//! peers to contact, which announcements to send) that these functions
//! return.
use vstd::prelude::*;

verus! {

/// A cluster member: a unique, totally ordered identity and an opaque
/// endpoint locator. Immutable once constructed; ordering decisions
/// compare identities only.
pub struct Node {
    pub id: i32,
    pub addr: String,
}

/// The mathematical value of a [`Node`].
pub ghost struct NodeView {
    pub id: int,
    pub addr: Seq<char>,
}

impl View for Node {
    type V = NodeView;

    open spec fn view(&self) -> NodeView {
        NodeView { id: self.id as int, addr: self.addr@ }
    }
}

impl Clone for Node {
    fn clone(&self) -> (r: Self)
        ensures
            r@ == self@,
    {
        Node { id: self.id, addr: self.addr.clone() }
    }
}

/// The values of a sequence of nodes, element by element.
pub open spec fn views_of(nodes: Seq<Node>) -> Seq<NodeView> {
    nodes.map_values(|p: Node| p@)
}

/// The value of an optional node.
pub open spec fn opt_node_view(o: Option<Node>) -> Option<NodeView> {
    match o {
        Option::Some(n) => Option::Some(n@),
        Option::None => Option::None,
    }
}

/// The outcome of contacting one higher-identity peer with an election
/// request, as the runtime observed it.
#[derive(Clone, Copy, Debug, PartialEq, Eq, Structural)]
pub enum PeerReply {
    /// The connection or the call failed or timed out; the peer counts
    /// as down.
    Unreachable,
    /// The peer answered the election request with the given `ok` flag.
    Answered(bool),
}

/// Why an incoming message was rejected.
#[derive(Clone, Copy, Debug, PartialEq, Eq, Structural)]
pub enum ElectionError {
    /// An election request did not name its originating node.
    MissingOriginator,
}

/// The peers whose identity is higher than `id`, in their original order:
/// the peers an election has to challenge.
pub open spec fn higher_of(peers: Seq<NodeView>, id: int) -> Seq<NodeView>
    decreases peers.len(),
{
    if peers.len() == 0 {
        Seq::empty()
    } else if peers.last().id > id {
        higher_of(peers.drop_last(), id).push(peers.last())
    } else {
        higher_of(peers.drop_last(), id)
    }
}

/// Whether any contacted peer affirmed the election: the first
/// affirmative answer is what makes a node stand down.
pub open spec fn someone_alive(replies: Seq<PeerReply>) -> bool {
    exists|i: int| 0 <= i < replies.len() && replies[i] == PeerReply::Answered(true)
}

/// The mathematical state of an [`ElectionManager`].
#[verifier::ext_equal]
pub ghost struct ManagerView {
    pub self_node: NodeView,
    pub peers: Seq<NodeView>,
    pub leader: Option<NodeView>,
}

/// The leader cell after an election on state `m` whose peer contacts
/// came back as `replies`: unchanged if some higher peer affirmed
/// (the node defers to it), this node itself otherwise.
pub open spec fn election_outcome(m: ManagerView, replies: Seq<PeerReply>) -> Option<NodeView> {
    if someone_alive(replies) {
        m.leader
    } else {
        Option::Some(m.self_node)
    }
}

/// The state after a coordinator announcement: the announced node
/// unconditionally replaces the known leader; an announcement that names
/// no node changes nothing.
pub open spec fn adopt(m: ManagerView, leader: Option<NodeView>) -> ManagerView {
    match leader {
        Option::Some(l) => ManagerView { self_node: m.self_node, peers: m.peers, leader: Option::Some(l) },
        Option::None => m,
    }
}

/// Per-node election state: this node's identity, the fixed peer list,
/// and the currently believed leader. The leader cell starts empty and is
/// written only by self-declaration and by coordinator announcements.
pub struct ElectionManager {
    self_node: Node,
    peers: Vec<Node>,
    leader: Option<Node>,
}

impl View for ElectionManager {
    type V = ManagerView;

    closed spec fn view(&self) -> ManagerView {
        ManagerView {
            self_node: self.self_node@,
            peers: views_of(self.peers@),
            leader: opt_node_view(self.leader),
        }
    }
}

impl ElectionManager {
    /// Create a new election manager. `self_node` is this node's identity
    /// and address; `peers` are all other known cluster members. No
    /// leader is known yet.
    pub fn new(self_node: Node, peers: Vec<Node>) -> (m: Self)
        ensures
            m@.self_node == self_node@,
            m@.peers == views_of(peers@),
            m@.leader is None,
    {
        ElectionManager { self_node, peers, leader: None }
    }

    /// The peers this node must challenge in an election: those with a
    /// higher identity, in peer-list order.
    pub fn higher_peers(&self) -> (h: Vec<Node>)
        ensures
            views_of(h@) == higher_of(self@.peers, self@.self_node.id),
    {
        let mut h: Vec<Node> = Vec::new();
        let mut i: usize = 0;
        while i < self.peers.len()
            invariant
                i <= self.peers.len(),
                views_of(h@) == higher_of(self@.peers.subrange(0, i as int), self@.self_node.id),
            decreases self.peers.len() - i,
        {
            proof {
                assert(self@.peers.subrange(0, i as int + 1).drop_last() =~= self@.peers.subrange(
                    0,
                    i as int,
                ));
            }
            if self.peers[i].id > self.self_node.id {
                let ghost pre = h@;
                h.push(self.peers[i].clone());
                proof {
                    assert(views_of(h@) =~= views_of(pre).push(self@.peers[i as int]));
                }
            }
            i += 1;
        }
        proof {
            assert(self@.peers.subrange(0, self.peers@.len() as int) =~= self@.peers);
        }
        h
    }

    /// Resolve one election attempt. `replies` holds the outcome of each
    /// higher-peer contact the runtime made, in contact order; the runtime
    /// may stop contacting once a peer affirms, so the list may cover only
    /// a prefix of [`Self::higher_peers`] (and is empty when there was no
    /// higher peer to contact).
    ///
    /// If some peer affirmed, this node stands down and leaves the leader
    /// cell alone, deferring to the higher node's coming announcement.
    /// Otherwise it declares itself leader. The returned list holds the
    /// peers to which a coordinator announcement must now be sent
    /// (best-effort, fire-and-forget): all peers on self-declaration,
    /// nobody otherwise.
    pub fn start_election(&mut self, replies: &Vec<PeerReply>) -> (announce: Vec<Node>)
        ensures
            final(self)@.self_node == old(self)@.self_node,
            final(self)@.peers == old(self)@.peers,
            final(self)@.leader == election_outcome(old(self)@, replies@),
            someone_alive(replies@) ==> announce@.len() == 0,
            !someone_alive(replies@) ==> views_of(announce@) == old(self)@.peers,
    {
        let mut alive = false;
        let mut i: usize = 0;
        while i < replies.len() && !alive
            invariant
                i <= replies.len(),
                alive ==> someone_alive(replies@),
                !alive ==> forall|j: int| 0 <= j < i ==> replies@[j] != PeerReply::Answered(true),
            decreases replies.len() - i,
        {
            let r = replies[i];
            match r {
                PeerReply::Answered(ok) => {
                    if ok {
                        proof {
                            assert(replies@[i as int] == PeerReply::Answered(true));
                        }
                        alive = true;
                    }
                },
                PeerReply::Unreachable => {},
            }
            i += 1;
        }
        if alive {
            Vec::new()
        } else {
            self.declare_leader()
        }
    }

    /// Declare this node leader: write its own identity into the leader
    /// cell and return the full peer list, each of which is owed a
    /// coordinator announcement.
    fn declare_leader(&mut self) -> (announce: Vec<Node>)
        ensures
            final(self)@.self_node == old(self)@.self_node,
            final(self)@.peers == old(self)@.peers,
            final(self)@.leader == Option::Some(old(self)@.self_node),
            views_of(announce@) == old(self)@.peers,
    {
        self.leader = Some(self.self_node.clone());
        let mut announce: Vec<Node> = Vec::new();
        let mut i: usize = 0;
        while i < self.peers.len()
            invariant
                i <= self.peers.len(),
                views_of(announce@) == self@.peers.subrange(0, i as int),
            decreases self.peers.len() - i,
        {
            let ghost pre = announce@;
            announce.push(self.peers[i].clone());
            proof {
                assert(views_of(announce@) =~= views_of(pre).push(self@.peers[i as int]));
                assert(self@.peers.subrange(0, i as int + 1) =~= self@.peers.subrange(
                    0,
                    i as int,
                ).push(self@.peers[i as int]));
            }
            i += 1;
        }
        proof {
            assert(self@.peers.subrange(0, self.peers@.len() as int) =~= self@.peers);
        }
        announce
    }

    /// The currently believed leader, if any: a point-in-time read with
    /// no side effects.
    pub fn get_leader(&self) -> (r: Option<Node>)
        ensures
            opt_node_view(r) == self@.leader,
    {
        match &self.leader {
            Some(n) => Some(n.clone()),
            None => None,
        }
    }
}

/// The responder role: answers election, coordinator and ping messages
/// arriving from other nodes' managers. A thin wrapper with no state of
/// its own.
pub struct ElectionService {
    pub manager: ElectionManager,
}

impl ElectionService {
    /// Answer an incoming election request. `from` is the originating
    /// node the request named, or `None` when the request omitted it,
    /// which is rejected as invalid.
    ///
    /// The reply `ok` is true exactly when the originator's identity is
    /// below this node's own: this node then outranks the originator, and
    /// a true reply also directs the runtime to start this node's own
    /// election (fire-and-forget). On `ok == false` the originator is
    /// equal or higher and owns the decision; nothing is triggered.
    /// No state changes either way.
    pub fn election(&self, from: &Option<Node>) -> (r: Result<bool, ElectionError>)
        ensures
            match from {
                Option::None => r == Err::<bool, ElectionError>(ElectionError::MissingOriginator),
                Option::Some(f) => r == Ok::<bool, ElectionError>(
                    f@.id < self.manager@.self_node.id,
                ),
            },
    {
        match from {
            None => Err(ElectionError::MissingOriginator),
            Some(f) => Ok(f.id < self.manager.self_node.id),
        }
    }

    /// Receive a coordinator announcement: the announced node replaces
    /// the known leader unconditionally (last writer wins, no validation);
    /// an announcement naming no node changes nothing. Always replies
    /// alive.
    pub fn announce_coordinator(&mut self, leader: Option<Node>) -> (alive: bool)
        ensures
            alive,
            final(self).manager@ == adopt(old(self).manager@, opt_node_view(leader)),
    {
        match leader {
            Some(n) => {
                self.manager.leader = Some(n);
            },
            None => {},
        }
        true
    }

    /// Liveness probe: always replies alive.
    pub fn ping(&self) -> (alive: bool)
        ensures
            alive,
    {
        true
    }
}

/// A node with no peers at all has no higher peer to challenge — no
/// message leaves it — and an election makes it its own leader.
pub proof fn lemma_empty_peers_self_leader(m: ManagerView)
    requires
        m.peers.len() == 0,
    ensures
        higher_of(m.peers, m.self_node.id) == Seq::<NodeView>::empty(),
        election_outcome(m, Seq::<PeerReply>::empty()) == Option::Some(m.self_node),
{
}

/// When every contacted higher peer was unreachable, no affirmative
/// answer exists and the node declares itself leader.
pub proof fn lemma_unreachable_higher_self_leader(m: ManagerView, replies: Seq<PeerReply>)
    requires
        forall|i: int| 0 <= i < replies.len() ==> replies[i] == PeerReply::Unreachable,
    ensures
        election_outcome(m, replies) == Option::Some(m.self_node),
{
    assert(!someone_alive(replies));
}

/// When some higher peer answered the election affirmatively, the node
/// stands down: the election leaves the leader cell exactly as it was —
/// in particular it is not overwritten with the node itself.
pub proof fn lemma_alive_peer_defers(m: ManagerView, replies: Seq<PeerReply>, i: int)
    requires
        0 <= i < replies.len(),
        replies[i] == PeerReply::Answered(true),
    ensures
        election_outcome(m, replies) == m.leader,
{
    assert(someone_alive(replies));
}

/// Coordinator announcements are last-writer-wins: announcing leader
/// `l1` and then leader `l2` leaves `l2` as the known leader, whatever
/// the two identities are.
pub proof fn lemma_announce_last_write_wins(m: ManagerView, l1: NodeView, l2: NodeView)
    ensures
        adopt(adopt(m, Option::Some(l1)), Option::Some(l2)).leader == Option::Some(l2),
{
}

} // verus!
