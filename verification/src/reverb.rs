//! The Dattorro plate reverb: the graph that the plugin renders audio with.

use vstd::prelude::*;
use crate::blocks::BLOCK_SIZE;
use crate::graph::{GraphPlan, NodeKind, PlanNode, Tag};

verus! {

/// The sample rate the reverb's engine runs at, whatever the host's rate.
pub const SAMPLE_RATE: usize = 48000;

/// The number of channels the engine renders: the destination's channels.
pub const ENGINE_CHANNELS: usize = 2;

/// How the audio engine is set up.
#[derive(Clone, Copy, Debug, PartialEq, Eq, Structural)]
pub struct EngineConfig {
    /// Samples per second.
    pub sample_rate: usize,
    /// Output channels of the destination.
    pub channels: usize,
    /// Samples per rendered block.
    pub block_size: usize,
}

/// The engine setup the reverb is built for: 48000 samples per second,
/// two output channels, blocks of 128 samples.
pub fn engine_config() -> (c: EngineConfig)
    ensures
        c.sample_rate == SAMPLE_RATE,
        c.sample_rate == 48000,
        c.channels == ENGINE_CHANNELS,
        c.channels == 2,
        c.block_size == BLOCK_SIZE,
{
    EngineConfig { sample_rate: SAMPLE_RATE, channels: ENGINE_CHANNELS, block_size: BLOCK_SIZE }
}

/// A one-channel node of the given kind.
pub open spec fn mono(kind: NodeKind) -> PlanNode {
    PlanNode { kind, channels: 1 }
}

/// The reverb's nodes, by index.
pub open spec fn reverb_nodes() -> Seq<PlanNode> {
    seq![
        PlanNode { kind: NodeKind::Destination, channels: ENGINE_CHANNELS },
        // input, and the input diffusion: 1..=9
        mono(NodeKind::Pass),
        mono(NodeKind::OnePole { rate: 7000 }),
        mono(NodeKind::DelayMs { millis: 500000 }),
        mono(NodeKind::AllPass { millis: 47710, gain: 7500 }),
        mono(NodeKind::AllPass { millis: 35950, gain: 7500 }),
        mono(NodeKind::AllPass { millis: 127200, gain: 6250 }),
        mono(NodeKind::AllPass { millis: 93070, gain: 6250 }),
        mono(NodeKind::Add { amount: 0 }),
        mono(NodeKind::AllPass { millis: 1000000, gain: 7000 }),
        // the modulation source: 10..=12
        mono(NodeKind::SinOsc { freq: 1000 }),
        mono(NodeKind::Mul { factor: 55000 }),
        mono(NodeKind::Add { amount: 295000 }),
        // the first half of the tank: 13..=24
        mono(NodeKind::DelaySamples { samples: 394 }),
        mono(NodeKind::DelaySamples { samples: 2800 }),
        mono(NodeKind::DelaySamples { samples: 1204 }),
        mono(NodeKind::DelaySamples { samples: 2000 }),
        mono(NodeKind::OnePole { rate: 1000 }),
        mono(NodeKind::AllPass { millis: 75960, gain: 5000 }),
        mono(NodeKind::AllPass { millis: 357800, gain: 5000 }),
        mono(NodeKind::AllPass { millis: 1000000, gain: 5000 }),
        mono(NodeKind::DelaySamples { samples: 179 }),
        mono(NodeKind::DelaySamples { samples: 2679 }),
        mono(NodeKind::DelaySamples { samples: 3500 }),
        mono(NodeKind::Mul { factor: 3000 }),
        // the second half of the tank: 25..=36
        mono(NodeKind::AllPass { millis: 300000, gain: 7000 }),
        mono(NodeKind::DelaySamples { samples: 522 }),
        mono(NodeKind::DelaySamples { samples: 2400 }),
        mono(NodeKind::DelaySamples { samples: 2400 }),
        mono(NodeKind::OnePole { rate: 1000 }),
        mono(NodeKind::AllPass { millis: 62000, gain: 7000 }),
        mono(NodeKind::AllPass { millis: 349200, gain: 7000 }),
        mono(NodeKind::AllPass { millis: 204000, gain: 7000 }),
        mono(NodeKind::DelaySamples { samples: 1578 }),
        mono(NodeKind::DelaySamples { samples: 2378 }),
        mono(NodeKind::DelaySamples { samples: 2500 }),
        mono(NodeKind::Mul { factor: 3000 }),
        // the left output: 37..=42
        mono(NodeKind::Sum),
        mono(NodeKind::Mul { factor: -10000i64 }),
        mono(NodeKind::Sum),
        mono(NodeKind::Mul { factor: 1000 }),
        mono(NodeKind::Sum),
        mono(NodeKind::Mul { factor: 9000 }),
        // the right output: 43..=48
        mono(NodeKind::Sum),
        mono(NodeKind::Mul { factor: -10000i64 }),
        mono(NodeKind::Sum),
        mono(NodeKind::Mul { factor: 1000 }),
        mono(NodeKind::Sum),
        mono(NodeKind::Mul { factor: 9000 }),
        // the stereo output stage: 49
        PlanNode { kind: NodeKind::Balance, channels: 2 },
    ]
}

/// The reverb's edges `(from, to)`, in the order in which they are made.
pub open spec fn reverb_edges() -> Seq<(usize, usize)> {
    seq![
        (1, 2), (2, 3), (3, 4), (4, 5), (5, 6), (6, 7), (7, 8), (8, 9),
        (10, 11), (11, 12), (12, 9),
        (9, 13), (13, 14), (14, 15), (15, 16), (16, 17), (17, 18), (18, 19), (19, 20),
        (10, 11), (11, 12), (12, 20),
        (20, 21), (21, 22), (22, 23), (23, 24), (24, 25), (25, 26),
        (26, 27), (27, 28), (28, 29), (29, 30), (30, 31), (31, 32), (32, 33),
        (33, 34), (34, 35), (35, 36), (36, 8),
        (19, 37), (27, 37), (30, 37), (33, 37), (37, 38),
        (13, 39), (14, 39), (22, 39), (38, 39),
        (1, 42), (42, 41), (39, 40), (40, 41),
        (31, 43), (14, 43), (17, 43), (21, 43), (43, 44),
        (26, 45), (27, 45), (34, 45), (44, 45),
        (1, 48), (48, 47), (45, 46), (46, 47),
        (41, 49), (47, 49), (49, 0),
    ]
}

/// The node that each tag names in the reverb.
pub open spec fn reverb_tag(t: Tag) -> usize {
    match t {
        Tag::Input => 1,
        Tag::InputLpf => 2,
        Tag::TankLpf1 => 17,
        Tag::TankLpf2 => 29,
        Tag::FbRate1 => 36,
        Tag::FbRate2 => 24,
        Tag::Mix1 => 40,
        Tag::Mix2 => 46,
        Tag::MixDiff1 => 42,
        Tag::MixDiff2 => 48,
    }
}

/// The reverb's tables describe a closed graph: every edge joins two of its
/// nodes, and every tag names one of them, a different one for each tag.
pub proof fn law_reverb_closed(i: int, t: Tag, u: Tag)
    ensures
        0 <= i < reverb_edges().len() ==> reverb_edges()[i].0 < reverb_nodes().len()
            && reverb_edges()[i].1 < reverb_nodes().len(),
        reverb_tag(t) < reverb_nodes().len(),
        t != u ==> reverb_tag(t) != reverb_tag(u),
{
}

/// The engine's output stage: the destination renders the engine's
/// channels and is fed by the last edge alone, from the stereo balance node,
/// whose inputs are the left mix and then the right mix.
pub proof fn law_reverb_output_stage(i: int)
    requires
        0 <= i < reverb_edges().len(),
    ensures
        reverb_nodes()[0] == (PlanNode { kind: NodeKind::Destination, channels: ENGINE_CHANNELS }),
        reverb_nodes()[49] == (PlanNode { kind: NodeKind::Balance, channels: 2 }),
        reverb_edges()[i].1 == 0 <==> i == reverb_edges().len() - 1,
        reverb_edges().last() == (49usize, 0usize),
        reverb_edges()[i].1 == 49 <==> (i == 65 || i == 66),
        reverb_edges()[65] == (41usize, 49usize),
        reverb_edges()[66] == (47usize, 49usize),
{
}

/// Each output's wet gain is fed by that channel's tap sum alone.  On the
/// left, the gain tagged `mix1` has one input, the sum node 39, whose inputs
/// are the taps 13, 14 and 22 and the negation (node 38, a multiplier by -1)
/// of the sum node 37 of the taps 19, 27, 30 and 33.  On the right, `mix2`
/// has one input, the sum node 45 of the taps 26, 27 and 34 and the negation
/// (node 44) of the sum node 43 of the taps 31, 14, 17 and 21.  No edge goes
/// from the input node to a wet gain.
pub proof fn law_wet_gains_fed_by_taps(i: int, j: int)
    requires
        0 <= i < reverb_edges().len(),
        0 <= j < reverb_edges().len(),
    ensures
        reverb_tag(Tag::Mix1) == 40,
        reverb_tag(Tag::Mix2) == 46,
        reverb_edges()[50] == (39usize, 40usize),
        reverb_edges()[i].1 == 40 ==> reverb_edges()[i].0 == 39,
        reverb_edges()[i].1 == 40 && reverb_edges()[j].1 == 40 ==> i == j,
        reverb_nodes()[39].kind == NodeKind::Sum,
        reverb_edges()[i].1 == 39 ==> {
            let src = reverb_edges()[i].0;
            src == 13 || src == 14 || src == 22 || src == 38
        },
        reverb_nodes()[38].kind == (NodeKind::Mul { factor: -10000i64 }),
        reverb_edges()[i].1 == 38 ==> reverb_edges()[i].0 == 37,
        reverb_nodes()[37].kind == NodeKind::Sum,
        reverb_edges()[i].1 == 37 ==> {
            let src = reverb_edges()[i].0;
            src == 19 || src == 27 || src == 30 || src == 33
        },
        reverb_edges()[63] == (45usize, 46usize),
        reverb_edges()[i].1 == 46 ==> reverb_edges()[i].0 == 45,
        reverb_edges()[i].1 == 46 && reverb_edges()[j].1 == 46 ==> i == j,
        reverb_nodes()[45].kind == NodeKind::Sum,
        reverb_edges()[i].1 == 45 ==> {
            let src = reverb_edges()[i].0;
            src == 26 || src == 27 || src == 34 || src == 44
        },
        reverb_nodes()[44].kind == (NodeKind::Mul { factor: -10000i64 }),
        reverb_edges()[i].1 == 44 ==> reverb_edges()[i].0 == 43,
        reverb_nodes()[43].kind == NodeKind::Sum,
        reverb_edges()[i].1 == 43 ==> {
            let src = reverb_edges()[i].0;
            src == 31 || src == 14 || src == 17 || src == 21
        },
        reverb_edges()[i].0 == reverb_tag(Tag::Input) ==> reverb_edges()[i].1 != reverb_tag(
            Tag::Mix1,
        ) && reverb_edges()[i].1 != reverb_tag(Tag::Mix2),
{
}

/// Where the tagged nodes sit.  The input feeds only the input low-pass and
/// the two dry gains, and each dry gain is fed by the input alone.  The
/// input low-pass is fed by the input alone.  Each tank low-pass sits inside
/// its half of the tank, after that half's delay line (nodes 16 and 28).
/// Each feedback gain is fed by the last delay of one tank half and feeds
/// the other: `fbrate1` (node 36) returns into the adder after the input
/// diffusion (node 8), and `fbrate2` (node 24) feeds the second half's
/// all-pass (node 25).
pub proof fn law_tagged_nodes_in_place(i: int)
    requires
        0 <= i < reverb_edges().len(),
    ensures
        reverb_tag(Tag::Input) == 1,
        reverb_edges()[i].0 == 1 ==> {
            let dst = reverb_edges()[i].1;
            dst == reverb_tag(Tag::InputLpf) || dst == reverb_tag(Tag::MixDiff1) || dst
                == reverb_tag(Tag::MixDiff2)
        },
        reverb_edges()[i].1 == reverb_tag(Tag::InputLpf) ==> reverb_edges()[i].0 == 1,
        reverb_edges()[i].1 == reverb_tag(Tag::MixDiff1) ==> reverb_edges()[i].0 == 1,
        reverb_edges()[i].1 == reverb_tag(Tag::MixDiff2) ==> reverb_edges()[i].0 == 1,
        reverb_edges()[i].1 == reverb_tag(Tag::TankLpf1) ==> reverb_edges()[i].0 == 16,
        reverb_edges()[i].1 == reverb_tag(Tag::TankLpf2) ==> reverb_edges()[i].0 == 28,
        reverb_edges()[i].1 == reverb_tag(Tag::FbRate1) ==> reverb_edges()[i].0 == 35,
        reverb_edges()[i].0 == reverb_tag(Tag::FbRate1) ==> reverb_edges()[i].1 == 8,
        reverb_edges()[i].1 == reverb_tag(Tag::FbRate2) ==> reverb_edges()[i].0 == 23,
        reverb_edges()[i].0 == reverb_tag(Tag::FbRate2) ==> reverb_edges()[i].1 == 25,
        reverb_nodes()[8].kind == (NodeKind::Add { amount: 0 }),
        reverb_edges()[i].1 == 8 ==> (reverb_edges()[i].0 == 7 || reverb_edges()[i].0 == 36),
{
}

/// The tagged nodes start at the settings the default parameters give:
/// the input low-pass at 0.7, both tank low-passes at 0.1, both feedback
/// gains at 0.3, both wet gains at 0.1 and both dry gains at 0.9.
pub proof fn law_reverb_initial_settings()
    ensures
        reverb_nodes()[reverb_tag(Tag::InputLpf) as int].kind == (NodeKind::OnePole { rate: 7000 }),
        reverb_nodes()[reverb_tag(Tag::TankLpf1) as int].kind == (NodeKind::OnePole { rate: 1000 }),
        reverb_nodes()[reverb_tag(Tag::TankLpf2) as int].kind == (NodeKind::OnePole { rate: 1000 }),
        reverb_nodes()[reverb_tag(Tag::FbRate1) as int].kind == (NodeKind::Mul { factor: 3000 }),
        reverb_nodes()[reverb_tag(Tag::FbRate2) as int].kind == (NodeKind::Mul { factor: 3000 }),
        reverb_nodes()[reverb_tag(Tag::Mix1) as int].kind == (NodeKind::Mul { factor: 1000 }),
        reverb_nodes()[reverb_tag(Tag::Mix2) as int].kind == (NodeKind::Mul { factor: 1000 }),
        reverb_nodes()[reverb_tag(Tag::MixDiff1) as int].kind == (NodeKind::Mul { factor: 9000 }),
        reverb_nodes()[reverb_tag(Tag::MixDiff2) as int].kind == (NodeKind::Mul { factor: 9000 }),
        reverb_nodes()[reverb_tag(Tag::Input) as int].kind == NodeKind::Pass,
{
}

/// Builds the plan of the reverb: mono in, stereo out.
#[verifier::rlimit(100)]
#[verifier::spinoff_prover]
pub fn reverb_graph() -> (g: GraphPlan)
    ensures
        g.nodes() == reverb_nodes(),
        g.edges() == reverb_edges(),
        forall|t: Tag| g.tagged(t) == Some(reverb_tag(t)),
{
    let mut g = GraphPlan::new(ENGINE_CHANNELS);
    let destination = g.destination();

    let input = g.add_mono_node(NodeKind::Pass);
    g.set_tag(Tag::Input, input);

    let wet1 = g.add_mono_node(NodeKind::OnePole { rate: 7000 });
    g.set_tag(Tag::InputLpf, wet1);
    let wet2 = g.add_mono_node(NodeKind::DelayMs { millis: 500000 });
    let wet3 = g.add_mono_node(NodeKind::AllPass { millis: 47710, gain: 7500 });
    let wet4 = g.add_mono_node(NodeKind::AllPass { millis: 35950, gain: 7500 });
    let wet5 = g.add_mono_node(NodeKind::AllPass { millis: 127200, gain: 6250 });
    let wet6 = g.add_mono_node(NodeKind::AllPass { millis: 93070, gain: 6250 });
    // the tank's feedback returns here
    let wet7 = g.add_mono_node(NodeKind::Add { amount: 0 });
    // modulated by the sine below
    let wet8 = g.add_mono_node(NodeKind::AllPass { millis: 1000000, gain: 7000 });
    g.chain(vec![input, wet1, wet2, wet3, wet4, wet5, wet6, wet7, wet8]);

    let mod1 = g.add_mono_node(NodeKind::SinOsc { freq: 1000 });
    let mod2 = g.add_mono_node(NodeKind::Mul { factor: 55000 });
    let mod3 = g.add_mono_node(NodeKind::Add { amount: 295000 });
    g.chain(vec![mod1, mod2, mod3, wet8]);
    assert(g.nodes() =~= reverb_nodes().take(13));
    assert(g.edges() =~= reverb_edges().take(11));

    // taps are taken half way along the delay lines
    let aa = g.add_mono_node(NodeKind::DelaySamples { samples: 394 });
    g.connect(wet8, aa);
    let ab = g.add_mono_node(NodeKind::DelaySamples { samples: 2800 });
    g.connect(aa, ab);
    let ac = g.add_mono_node(NodeKind::DelaySamples { samples: 1204 });
    g.connect(ab, ac);

    let ba1 = g.add_mono_node(NodeKind::DelaySamples { samples: 2000 });
    g.connect(ac, ba1);
    let ba2 = g.add_mono_node(NodeKind::OnePole { rate: 1000 });
    g.set_tag(Tag::TankLpf1, ba2);
    g.connect(ba1, ba2);
    let ba3 = g.add_mono_node(NodeKind::AllPass { millis: 75960, gain: 5000 });
    g.connect(ba2, ba3);

    let bb = g.add_mono_node(NodeKind::AllPass { millis: 357800, gain: 5000 });
    g.connect(ba3, bb);
    let bc = g.add_mono_node(NodeKind::AllPass { millis: 1000000, gain: 5000 });
    g.connect(bb, bc);
    g.chain(vec![mod1, mod2, mod3, bc]);

    let ca = g.add_mono_node(NodeKind::DelaySamples { samples: 179 });
    g.connect(bc, ca);
    let cb = g.add_mono_node(NodeKind::DelaySamples { samples: 2679 });
    g.connect(ca, cb);
    let cc1 = g.add_mono_node(NodeKind::DelaySamples { samples: 3500 });
    let cc2 = g.add_mono_node(NodeKind::Mul { factor: 3000 });
    g.set_tag(Tag::FbRate2, cc2);
    g.chain(vec![cb, cc1, cc2]);

    let da1 = g.add_mono_node(NodeKind::AllPass { millis: 300000, gain: 7000 });
    let da2 = g.add_mono_node(NodeKind::DelaySamples { samples: 522 });
    g.chain(vec![cc2, da1, da2]);

    let db = g.add_mono_node(NodeKind::DelaySamples { samples: 2400 });
    g.connect(da2, db);
    let dc = g.add_mono_node(NodeKind::DelaySamples { samples: 2400 });
    g.connect(db, dc);

    let ea1 = g.add_mono_node(NodeKind::OnePole { rate: 1000 });
    g.set_tag(Tag::TankLpf2, ea1);
    let ea2 = g.add_mono_node(NodeKind::AllPass { millis: 62000, gain: 7000 });
    g.chain(vec![dc, ea1, ea2]);

    let eb = g.add_mono_node(NodeKind::AllPass { millis: 349200, gain: 7000 });
    g.connect(ea2, eb);

    let fa1 = g.add_mono_node(NodeKind::AllPass { millis: 204000, gain: 7000 });
    let fa2 = g.add_mono_node(NodeKind::DelaySamples { samples: 1578 });
    g.chain(vec![eb, fa1, fa2]);
    assert(g.nodes() =~= reverb_nodes().take(34));
    assert(g.edges() =~= reverb_edges().take(35));
    let fb = g.add_mono_node(NodeKind::DelaySamples { samples: 2378 });
    g.connect(fa2, fb);

    let fb1 = g.add_mono_node(NodeKind::DelaySamples { samples: 2500 });
    let fb2 = g.add_mono_node(NodeKind::Mul { factor: 3000 });
    g.set_tag(Tag::FbRate1, fb2);
    // back into the feedback point
    g.chain(vec![fb, fb1, fb2, wet7]);

    // the left output: taps minus the opposite taps
    let left_subtract = g.add_mono_node(NodeKind::Sum);
    g.connect(bb, left_subtract);
    g.connect(db, left_subtract);
    g.connect(ea2, left_subtract);
    g.connect(fa2, left_subtract);
    let left_subtract2 = g.add_mono_node(NodeKind::Mul { factor: -10000 });
    g.connect(left_subtract, left_subtract2);

    let left = g.add_mono_node(NodeKind::Sum);
    g.connect(aa, left);
    g.connect(ab, left);
    g.connect(cb, left);
    g.connect(left_subtract2, left);
    let leftwet = g.add_mono_node(NodeKind::Mul { factor: 1000 });
    g.set_tag(Tag::Mix1, leftwet);
    let leftmix = g.add_mono_node(NodeKind::Sum);

    // dry input scaled by one minus the mix
    let leftdrymix = g.add_mono_node(NodeKind::Mul { factor: 9000 });
    g.set_tag(Tag::MixDiff1, leftdrymix);
    g.chain(vec![input, leftdrymix, leftmix]);
    g.chain(vec![left, leftwet, leftmix]);
    assert(g.nodes() =~= reverb_nodes().take(43));
    assert(g.edges() =~= reverb_edges().take(52));

    // the right output, mirrored
    let right_subtract = g.add_mono_node(NodeKind::Sum);
    g.connect(eb, right_subtract);
    g.connect(ab, right_subtract);
    g.connect(ba2, right_subtract);
    g.connect(ca, right_subtract);
    let right_subtract2 = g.add_mono_node(NodeKind::Mul { factor: -10000 });
    g.connect(right_subtract, right_subtract2);

    let right = g.add_mono_node(NodeKind::Sum);
    g.connect(da2, right);
    g.connect(db, right);
    g.connect(fb, right);
    g.connect(right_subtract2, right);
    let rightwet = g.add_mono_node(NodeKind::Mul { factor: 1000 });
    g.set_tag(Tag::Mix2, rightwet);
    let rightmix = g.add_mono_node(NodeKind::Sum);

    let rightdry = g.add_mono_node(NodeKind::Mul { factor: 9000 });
    g.set_tag(Tag::MixDiff2, rightdry);
    g.chain(vec![input, rightdry, rightmix]);
    g.chain(vec![right, rightwet, rightmix]);

    let balance = g.add_stereo_node(NodeKind::Balance);
    g.connect(leftmix, balance);
    g.connect(rightmix, balance);
    g.connect(balance, destination);

    assert(g.nodes() =~= reverb_nodes());
    assert(g.edges() =~= reverb_edges());
    g
}

} // verus!
