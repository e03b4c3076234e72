//! A description of an audio graph: its nodes, its edges in the order in
//! which they were made, and the tags that name particular nodes.  The
//! audio engine builds the real graph from such a plan.

use vstd::prelude::*;

verus! {

/// How many tags there are.
pub const TAG_COUNT: usize = 10;

/// A name under which the plugin finds a node again after building the graph.
#[derive(Clone, Copy, Debug, PartialEq, Eq, Structural)]
pub enum Tag {
    Input,
    InputLpf,
    TankLpf1,
    TankLpf2,
    FbRate1,
    FbRate2,
    Mix1,
    Mix2,
    MixDiff1,
    MixDiff2,
}

/// The position of a tag in the plan's tag table.
pub open spec fn tag_slot(t: Tag) -> int {
    match t {
        Tag::Input => 0,
        Tag::InputLpf => 1,
        Tag::TankLpf1 => 2,
        Tag::TankLpf2 => 3,
        Tag::FbRate1 => 4,
        Tag::FbRate2 => 5,
        Tag::Mix1 => 6,
        Tag::Mix2 => 7,
        Tag::MixDiff1 => 8,
        Tag::MixDiff2 => 9,
    }
}

impl Tag {
    /// The position of this tag in the plan's tag table.
    pub fn slot(self) -> (i: usize)
        ensures
            i == tag_slot(self),
            i < TAG_COUNT,
    {
        match self {
            Tag::Input => 0,
            Tag::InputLpf => 1,
            Tag::TankLpf1 => 2,
            Tag::TankLpf2 => 3,
            Tag::FbRate1 => 4,
            Tag::FbRate2 => 5,
            Tag::Mix1 => 6,
            Tag::Mix2 => 7,
            Tag::MixDiff1 => 8,
            Tag::MixDiff2 => 9,
        }
    }

    /// The tag's name.
    pub fn name(self) -> (s: &'static str)
        ensures
            s@ == match self {
                Tag::Input => "input"@,
                Tag::InputLpf => "inputlpf"@,
                Tag::TankLpf1 => "tanklpf1"@,
                Tag::TankLpf2 => "tanklpf2"@,
                Tag::FbRate1 => "fbrate1"@,
                Tag::FbRate2 => "fbrate2"@,
                Tag::Mix1 => "mix1"@,
                Tag::Mix2 => "mix2"@,
                Tag::MixDiff1 => "mixdiff1"@,
                Tag::MixDiff2 => "mixdiff2"@,
            },
    {
        match self {
            Tag::Input => "input",
            Tag::InputLpf => "inputlpf",
            Tag::TankLpf1 => "tanklpf1",
            Tag::TankLpf2 => "tanklpf2",
            Tag::FbRate1 => "fbrate1",
            Tag::FbRate2 => "fbrate2",
            Tag::Mix1 => "mix1",
            Tag::Mix2 => "mix2",
            Tag::MixDiff1 => "mixdiff1",
            Tag::MixDiff2 => "mixdiff2",
        }
    }
}

/// What a node does.  Every number is a fixed-point setting: `s` stands for
/// `s / 10_000` (milliseconds for delay times, hertz for frequencies).
#[derive(Clone, Copy, Debug, PartialEq, Eq, Structural)]
pub enum NodeKind {
    /// The engine's output node, which every plan starts with.
    Destination,
    /// Passes its input through unchanged.
    Pass,
    /// One-pole low-pass filter with the given rate.
    OnePole { rate: i64 },
    /// Delay line of the given length in milliseconds.
    DelayMs { millis: i64 },
    /// Delay line of the given length in samples.
    DelaySamples { samples: usize },
    /// All-pass filter with the given delay (milliseconds) and gain.
    AllPass { millis: i64, gain: i64 },
    /// Adds a constant to its input.
    Add { amount: i64 },
    /// Multiplies its input by a constant.
    Mul { factor: i64 },
    /// Sine oscillator of the given frequency.
    SinOsc { freq: i64 },
    /// Sums all its inputs.
    Sum,
    /// Places two mono inputs left and right.
    Balance,
}

/// The value that a `SetToNumber(0, ..)` message changes on a node of this
/// kind: the rate of a one-pole filter and the factor of a multiplier.
pub open spec fn setting_of(kind: NodeKind) -> Option<i64> {
    match kind {
        NodeKind::OnePole { rate } => Some(rate),
        NodeKind::Mul { factor } => Some(factor),
        _ => None,
    }
}

/// A node of a plan: what it does and how many channels it renders.
#[derive(Clone, Copy, Debug, PartialEq, Eq, Structural)]
pub struct PlanNode {
    pub kind: NodeKind,
    pub channels: usize,
}

/// The edges that chaining `path` adds: one from each node to the next.
pub open spec fn chain_edges(path: Seq<usize>) -> Seq<(usize, usize)> {
    if path.len() == 0 {
        Seq::empty()
    } else {
        Seq::new((path.len() - 1) as nat, |i: int| (path[i], path[i + 1]))
    }
}

/// A graph under construction.
pub struct GraphPlan {
    nodes: Vec<PlanNode>,
    edges: Vec<(usize, usize)>,
    tags: [Option<usize>; 10],
}

/// The plan's invariant over its parts: every edge joins two nodes, and
/// every tag names one.
spec fn parts_closed(
    nodes: Seq<PlanNode>,
    edges: Seq<(usize, usize)>,
    tags: Seq<Option<usize>>,
) -> bool {
    &&& tags.len() == TAG_COUNT
    &&& forall|i: int|
        0 <= i < edges.len() ==> #[trigger] edges[i].0 < nodes.len() && edges[i].1 < nodes.len()
    &&& forall|i: int| 0 <= i < TAG_COUNT ==> (#[trigger] tags[i] matches Some(n) ==> n < nodes.len())
}

impl GraphPlan {
    /// Every edge joins two nodes of the plan, and every tag names one.
    #[verifier::type_invariant]
    spec fn well_formed(self) -> bool {
        parts_closed(self.nodes@, self.edges@, self.tags@)
    }

    /// The nodes, in the order in which they were added.
    pub closed spec fn nodes(self) -> Seq<PlanNode> {
        self.nodes@
    }

    /// The edges `(from, to)`, in the order in which they were made.
    pub closed spec fn edges(self) -> Seq<(usize, usize)> {
        self.edges@
    }

    /// The node that `t` names, if any.
    pub closed spec fn tagged(self, t: Tag) -> Option<usize> {
        self.tags@[tag_slot(t)]
    }

    /// A plan with nothing in it.
    fn blank() -> (g: Self)
        ensures
            g.nodes().len() == 0,
    {
        let g = GraphPlan { nodes: Vec::new(), edges: Vec::new(), tags: [None; 10] };
        assert(g.tags@ =~= seq![None, None, None, None, None, None, None, None, None, None]);
        g
    }

    /// Moves the parts out of the plan, leaving a blank plan behind.
    fn take_parts(&mut self) -> (parts: (Vec<PlanNode>, Vec<(usize, usize)>, [Option<usize>; 10]))
        ensures
            parts.0@ == old(self).nodes(),
            parts.1@ == old(self).edges(),
            forall|t: Tag| parts.2@[tag_slot(t)] == old(self).tagged(t),
            parts_closed(parts.0@, parts.1@, parts.2@),
    {
        proof {
            use_type_invariant(&*self);
        }
        let mut g = GraphPlan::blank();
        core::mem::swap(self, &mut g);
        let GraphPlan { nodes, edges, tags } = g;
        (nodes, edges, tags)
    }

    /// A plan holding only the destination, with the engine's `channels`
    /// output channels.
    pub fn new(channels: usize) -> (g: Self)
        ensures
            g.nodes() == seq![PlanNode { kind: NodeKind::Destination, channels }],
            g.edges() == Seq::<(usize, usize)>::empty(),
            forall|t: Tag| g.tagged(t) is None,
    {
        let mut nodes = Vec::new();
        nodes.push(PlanNode { kind: NodeKind::Destination, channels });
        let g = GraphPlan { nodes, edges: Vec::new(), tags: [None; 10] };
        assert(g.tags@ =~= seq![None, None, None, None, None, None, None, None, None, None]);
        assert forall|t: Tag| g.tagged(t) is None by {
            assert(0 <= tag_slot(t) < TAG_COUNT);
        }
        g
    }

    /// The index of the destination node.
    pub fn destination(&self) -> (i: usize)
        ensures
            i == 0,
    {
        0
    }

    /// How many nodes the plan has.
    pub fn node_count(&self) -> (n: usize)
        ensures
            n == self.nodes().len(),
    {
        self.nodes.len()
    }

    /// The node at index `i`.
    pub fn node(&self, i: usize) -> (n: PlanNode)
        requires
            i < self.nodes().len(),
        ensures
            n == self.nodes()[i as int],
    {
        self.nodes[i]
    }

    /// How many edges the plan has.
    pub fn edge_count(&self) -> (n: usize)
        ensures
            n == self.edges().len(),
    {
        self.edges.len()
    }

    /// The edge at position `i`; both its ends are nodes of the plan.
    pub fn edge(&self, i: usize) -> (e: (usize, usize))
        requires
            i < self.edges().len(),
        ensures
            e == self.edges()[i as int],
            e.0 < self.nodes().len(),
            e.1 < self.nodes().len(),
    {
        proof {
            use_type_invariant(self);
        }
        self.edges[i]
    }

    /// The node that `t` names, if any; it is a node of the plan.
    pub fn node_for(&self, t: Tag) -> (n: Option<usize>)
        ensures
            n == self.tagged(t),
            n matches Some(i) ==> i < self.nodes().len(),
    {
        proof {
            use_type_invariant(self);
        }
        self.tags[t.slot()]
    }

    fn add_node(&mut self, kind: NodeKind, channels: usize) -> (i: usize)
        ensures
            i == old(self).nodes().len(),
            final(self).nodes() == old(self).nodes().push(PlanNode { kind, channels }),
            final(self).edges() == old(self).edges(),
            forall|t: Tag| final(self).tagged(t) == old(self).tagged(t),
    {
        let (mut nodes, edges, tags) = self.take_parts();
        let i = nodes.len();
        nodes.push(PlanNode { kind, channels });
        *self = GraphPlan { nodes, edges, tags };
        i
    }

    /// Adds a one-channel node and returns its index.
    pub fn add_mono_node(&mut self, kind: NodeKind) -> (i: usize)
        ensures
            i == old(self).nodes().len(),
            final(self).nodes() == old(self).nodes().push(PlanNode { kind, channels: 1 }),
            final(self).edges() == old(self).edges(),
            forall|t: Tag| final(self).tagged(t) == old(self).tagged(t),
    {
        self.add_node(kind, 1)
    }

    /// Adds a two-channel node and returns its index.
    pub fn add_stereo_node(&mut self, kind: NodeKind) -> (i: usize)
        ensures
            i == old(self).nodes().len(),
            final(self).nodes() == old(self).nodes().push(PlanNode { kind, channels: 2 }),
            final(self).edges() == old(self).edges(),
            forall|t: Tag| final(self).tagged(t) == old(self).tagged(t),
    {
        self.add_node(kind, 2)
    }

    /// Feeds node `from` into node `to`.
    pub fn connect(&mut self, from: usize, to: usize)
        requires
            from < old(self).nodes().len(),
            to < old(self).nodes().len(),
        ensures
            final(self).nodes() == old(self).nodes(),
            final(self).edges() == old(self).edges().push((from, to)),
            forall|t: Tag| final(self).tagged(t) == old(self).tagged(t),
    {
        let (nodes, mut edges, tags) = self.take_parts();
        edges.push((from, to));
        *self = GraphPlan { nodes, edges, tags };
    }

    /// Feeds each node of `path` into the next one.
    pub fn chain(&mut self, path: Vec<usize>)
        requires
            forall|i: int| 0 <= i < path@.len() ==> #[trigger] path@[i] < old(self).nodes().len(),
        ensures
            final(self).nodes() == old(self).nodes(),
            final(self).edges() == old(self).edges() + chain_edges(path@),
            forall|t: Tag| final(self).tagged(t) == old(self).tagged(t),
    {
        let ghost start = self.edges();
        let n = path.len();
        if n == 0 {
            assert(start + chain_edges(path@) =~= start);
            return;
        }
        let mut i: usize = 1;
        while i < n
            invariant
                1 <= i <= n,
                n == path@.len(),
                forall|k: int| 0 <= k < path@.len() ==> #[trigger] path@[k] < self.nodes().len(),
                self.nodes() == old(self).nodes(),
                self.edges() =~= start + chain_edges(path@).take(i - 1),
                forall|t: Tag| self.tagged(t) == old(self).tagged(t),
            decreases n - i,
        {
            self.connect(path[i - 1], path[i]);
            assert(chain_edges(path@).take(i as int) =~= chain_edges(path@).take(i - 1).push(
                (path@[i - 1], path@[i as int]),
            ));
            i = i + 1;
        }
        assert(chain_edges(path@).take(n - 1) =~= chain_edges(path@));
    }

    /// Makes `t` name node `node`, replacing what it named before.
    pub fn set_tag(&mut self, t: Tag, node: usize)
        requires
            node < old(self).nodes().len(),
        ensures
            final(self).nodes() == old(self).nodes(),
            final(self).edges() == old(self).edges(),
            final(self).tagged(t) == Some(node),
            forall|u: Tag| u != t ==> final(self).tagged(u) == old(self).tagged(u),
    {
        let (nodes, edges, mut tags) = self.take_parts();
        let slot = t.slot();
        tags[slot] = Some(node);
        *self = GraphPlan { nodes, edges, tags };
        proof {
            assert forall|u: Tag| u != t implies self.tagged(u) == old(self).tagged(u) by {
                assert(tag_slot(u) != tag_slot(t));
            }
        }
    }
}

} // verus!
