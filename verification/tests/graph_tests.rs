use dattorro_reverb::blocks::BLOCK_SIZE;
use dattorro_reverb::control::{messages_for, messages_for_changes, ValueForm};
use dattorro_reverb::graph::{GraphPlan, NodeKind, PlanNode, Tag, TAG_COUNT};
use dattorro_reverb::params::{ParamId, ParamValues, SCALE};
use dattorro_reverb::reverb::{engine_config, reverb_graph, ENGINE_CHANNELS, SAMPLE_RATE};

const TAGS: [Tag; 10] = [
    Tag::Input,
    Tag::InputLpf,
    Tag::TankLpf1,
    Tag::TankLpf2,
    Tag::FbRate1,
    Tag::FbRate2,
    Tag::Mix1,
    Tag::Mix2,
    Tag::MixDiff1,
    Tag::MixDiff2,
];

fn f(setting: i64) -> f32 {
    setting as f32 / SCALE as f32
}

#[test]
fn builder_basics() {
    let mut g = GraphPlan::new(2);
    assert_eq!(g.node_count(), 1);
    assert_eq!(g.node(0), PlanNode { kind: NodeKind::Destination, channels: 2 });
    assert_eq!(g.destination(), 0);
    let a = g.add_mono_node(NodeKind::Pass);
    let b = g.add_mono_node(NodeKind::Sum);
    let c = g.add_stereo_node(NodeKind::Balance);
    assert_eq!((a, b, c), (1, 2, 3));
    assert_eq!(g.node(3).channels, 2);
    g.chain(vec![a, b, c, 0]);
    assert_eq!(g.edge_count(), 3);
    assert_eq!(g.edge(0), (1, 2));
    assert_eq!(g.edge(2), (3, 0));
    g.chain(vec![]);
    g.chain(vec![a]);
    assert_eq!(g.edge_count(), 3);
    g.connect(a, c);
    assert_eq!(g.edge(3), (1, 3));
    assert_eq!(g.node_for(Tag::Mix1), None);
    g.set_tag(Tag::Mix1, b);
    g.set_tag(Tag::Mix1, c);
    assert_eq!(g.node_for(Tag::Mix1), Some(c));
    assert_eq!(g.node_for(Tag::Mix2), None);
}

#[test]
fn tag_names_and_slots() {
    let names = [
        "input", "inputlpf", "tanklpf1", "tanklpf2", "fbrate1", "fbrate2", "mix1", "mix2",
        "mixdiff1", "mixdiff2",
    ];
    for (i, t) in TAGS.iter().enumerate() {
        assert_eq!(t.slot(), i);
        assert_eq!(t.name(), names[i]);
    }
    assert_eq!(TAG_COUNT, 10);
}

#[test]
fn reverb_shape() {
    let g = reverb_graph();
    assert_eq!(g.node_count(), 50);
    assert_eq!(g.edge_count(), 68);
    assert_eq!(g.node(49), PlanNode { kind: NodeKind::Balance, channels: 2 });
    assert_eq!(g.edge(67), (49, 0));
    // the modulation source feeds both modulated all-pass filters
    assert_eq!(g.edge(10), (12, 9));
    assert_eq!(g.edge(21), (12, 20));
    // the tank feeds back into the adder after the input diffusion
    assert_eq!(g.edge(38), (36, 8));
    assert_eq!(g.node(8).kind, NodeKind::Add { amount: 0 });
    for i in 0..g.edge_count() {
        let (a, b) = g.edge(i);
        assert!(a < g.node_count() && b < g.node_count());
    }
}

#[test]
fn reverb_tags() {
    let g = reverb_graph();
    let expected = [1, 2, 17, 29, 36, 24, 40, 46, 42, 48];
    for (i, t) in TAGS.iter().enumerate() {
        assert_eq!(g.node_for(*t), Some(expected[i]));
    }
    assert_eq!(g.node(1).kind, NodeKind::Pass);
}

#[test]
fn reverb_settings_as_floats() {
    let g = reverb_graph();
    match g.node(4).kind {
        NodeKind::AllPass { millis, gain } => {
            assert_eq!(f(millis), 4.771f32);
            assert_eq!(f(gain), 0.75f32);
        }
        k => panic!("unexpected {:?}", k),
    }
    match g.node(3).kind {
        NodeKind::DelayMs { millis } => assert_eq!(f(millis), 50.0f32),
        k => panic!("unexpected {:?}", k),
    }
    match g.node(12).kind {
        NodeKind::Add { amount } => assert_eq!(f(amount), 29.5f32),
        k => panic!("unexpected {:?}", k),
    }
    match g.node(10).kind {
        NodeKind::SinOsc { freq } => assert_eq!(f(freq), 0.1f32),
        k => panic!("unexpected {:?}", k),
    }
    match g.node(31).kind {
        NodeKind::AllPass { millis, gain } => {
            assert_eq!(f(millis), 34.92f32);
            assert_eq!(f(gain), 0.7f32);
        }
        k => panic!("unexpected {:?}", k),
    }
    assert_eq!(g.node(34).kind, NodeKind::DelaySamples { samples: 2378 });
    assert_eq!(g.node(38).kind, NodeKind::Mul { factor: -10_000 });
}

#[test]
fn messages_per_parameter() {
    let m = messages_for(ParamId::Bandwidth);
    assert_eq!(m.len(), 1);
    assert_eq!(m[0].target, Tag::InputLpf);
    let m = messages_for(ParamId::Damping);
    assert_eq!((m[0].target, m[1].target), (Tag::TankLpf1, Tag::TankLpf2));
    let m = messages_for(ParamId::Decay);
    assert_eq!((m[0].target, m[1].target), (Tag::FbRate1, Tag::FbRate2));
    let m = messages_for(ParamId::Mix);
    assert_eq!(m.len(), 4);
    assert_eq!(m[2].target, Tag::MixDiff1);
    assert_eq!(m[2].form, ValueForm::Complement);
    assert_eq!(m[0].form, ValueForm::Direct);
}

#[test]
fn graph_starts_at_default_parameters() {
    let g = reverb_graph();
    for id in [ParamId::Bandwidth, ParamId::Damping, ParamId::Decay, ParamId::Mix] {
        for m in messages_for(id) {
            let node = g.node(g.node_for(m.target).unwrap());
            let setting = match node.kind {
                NodeKind::OnePole { rate } => rate,
                NodeKind::Mul { factor } => factor,
                k => panic!("not settable: {:?}", k),
            };
            let expected = match m.form {
                ValueForm::Direct => id.default_setting(),
                ValueForm::Complement => SCALE - id.default_setting(),
            };
            assert_eq!(setting, expected);
        }
    }
    // in floating point too: 1 - 0.1 rounds to the literal 0.9
    assert_eq!(1.0f32 - 0.1f32, 0.9f32);
}

#[test]
fn engine_setup() {
    let c = engine_config();
    assert_eq!((c.sample_rate, c.channels, c.block_size), (48000, 2, 128));
    assert_eq!((SAMPLE_RATE, ENGINE_CHANNELS, BLOCK_SIZE), (48000, 2, 128));
    let g = reverb_graph();
    assert_eq!(g.node(0).channels, ENGINE_CHANNELS);
    // only the balance node feeds the destination, left mix first
    let feeds: Vec<(usize, usize)> =
        (0..g.edge_count()).map(|i| g.edge(i)).filter(|e| e.1 == 0 || e.1 == 49).collect();
    assert_eq!(feeds, vec![(41, 49), (47, 49), (49, 0)]);
}

#[test]
fn messages_for_changed_parameters() {
    let none = messages_for_changes(&ParamValues::new(false, false, false, false));
    assert!(none.is_empty());
    let mix_only = messages_for_changes(&ParamValues::new(false, false, false, true));
    assert_eq!(mix_only.len(), 4);
    assert!(mix_only.iter().all(|(id, _)| *id == ParamId::Mix));
    assert_eq!(mix_only[3].1.target, Tag::MixDiff2);
    let two = messages_for_changes(&ParamValues::new(true, false, true, false));
    let targets: Vec<(ParamId, Tag)> = two.iter().map(|(id, m)| (*id, m.target)).collect();
    assert_eq!(
        targets,
        vec![
            (ParamId::Bandwidth, Tag::InputLpf),
            (ParamId::Decay, Tag::FbRate1),
            (ParamId::Decay, Tag::FbRate2)
        ]
    );
    let all = messages_for_changes(&ParamValues::new(true, true, true, true));
    assert_eq!(all.len(), 9);
}

#[test]
fn sync_updates_cache_and_reports_messages() {
    let mut cache = ParamValues::new(0.7f32, 0.1, 0.3, 0.1);
    let current = ParamValues::new(0.7f32, 0.5, 0.3, 0.2);
    let changed = ParamValues::new(false, true, false, true);
    let sent = cache.sync_changed(&current, &changed);
    let targets: Vec<Tag> = sent.iter().map(|(_, m)| m.target).collect();
    assert_eq!(
        targets,
        vec![Tag::TankLpf1, Tag::TankLpf2, Tag::Mix1, Tag::Mix2, Tag::MixDiff1, Tag::MixDiff2]
    );
    assert_eq!(*cache.get(ParamId::Damping), 0.5);
    assert_eq!(*cache.get(ParamId::Mix), 0.2);
    assert_eq!(*cache.get(ParamId::Bandwidth), 0.7);
    // the flags, recomputed against the updated cache, are all clear
    let again = ParamValues::new(
        *cache.get(ParamId::Bandwidth) != *current.get(ParamId::Bandwidth),
        *cache.get(ParamId::Damping) != *current.get(ParamId::Damping),
        *cache.get(ParamId::Decay) != *current.get(ParamId::Decay),
        *cache.get(ParamId::Mix) != *current.get(ParamId::Mix),
    );
    let before = ParamValues::new(*cache.get(ParamId::Bandwidth), *cache.get(ParamId::Damping), *cache.get(ParamId::Decay), *cache.get(ParamId::Mix));
    assert!(cache.sync_changed(&current, &again).is_empty());
    for id in [ParamId::Bandwidth, ParamId::Damping, ParamId::Decay, ParamId::Mix] {
        assert_eq!(cache.get(id), before.get(id));
    }
}
