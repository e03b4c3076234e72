use dattorro_reverb::params::{ParamId, ParamValues, PARAM_COUNT, SCALE};

const ALL: [ParamId; 4] = [ParamId::Bandwidth, ParamId::Damping, ParamId::Decay, ParamId::Mix];

#[test]
fn index_round_trip() {
    for (i, id) in ALL.iter().enumerate() {
        assert_eq!(id.index(), i as i32);
        assert_eq!(ParamId::from_index(i as i32), Some(*id));
    }
}

#[test]
fn indices_outside_range_name_nothing() {
    assert_eq!(ParamId::from_index(-1), None);
    assert_eq!(ParamId::from_index(PARAM_COUNT), None);
    assert_eq!(ParamId::from_index(i32::MAX), None);
    assert_eq!(ParamId::from_index(i32::MIN), None);
}

#[test]
fn labels() {
    assert_eq!(ParamId::Bandwidth.label(), "bandwidth");
    assert_eq!(ParamId::Damping.label(), "damping");
    assert_eq!(ParamId::Decay.label(), "decay");
    assert_eq!(ParamId::Mix.label(), "mix");
}

#[test]
fn defaults_as_floats() {
    let as_float = |id: ParamId| id.default_setting() as f32 / SCALE as f32;
    assert_eq!(as_float(ParamId::Bandwidth), 0.7f32);
    assert_eq!(as_float(ParamId::Damping), 0.1f32);
    assert_eq!(as_float(ParamId::Decay), 0.3f32);
    assert_eq!(as_float(ParamId::Mix), 0.1f32);
}

#[test]
fn slider_ranges() {
    assert_eq!(ParamId::Bandwidth.max_setting(), 10_000);
    assert_eq!(ParamId::Damping.max_setting(), 10_000);
    assert_eq!(ParamId::Decay.max_setting(), 9_999);
    assert_eq!(ParamId::Mix.max_setting(), 10_000);
    assert_eq!(ParamId::Decay.max_setting() as f32 / SCALE as f32, 0.9999f32);
    for id in ALL {
        assert!(0 <= id.default_setting() && id.default_setting() <= id.max_setting());
    }
}

#[test]
fn store_reads_what_was_written() {
    let mut p = ParamValues::new(0.7f32, 0.1, 0.3, 0.1);
    assert_eq!(*p.get(ParamId::Decay), 0.3);
    p.set(ParamId::Decay, 0.5);
    assert_eq!(*p.get(ParamId::Decay), 0.5);
    assert_eq!(*p.get(ParamId::Bandwidth), 0.7);
    assert_eq!(*p.get(ParamId::Damping), 0.1);
    assert_eq!(*p.get(ParamId::Mix), 0.1);
}

#[test]
fn store_by_host_index() {
    let mut p = ParamValues::new(10, 11, 12, 13);
    assert_eq!(p.at_index(0), Some(&10));
    assert_eq!(p.at_index(3), Some(&13));
    assert_eq!(p.at_index(4), None);
    assert_eq!(p.at_index(-7), None);
    p.set(ParamId::from_index(1).unwrap(), 99);
    assert_eq!(p.at_index(1), Some(&99));
    assert_eq!(p.at_index(2), Some(&12));
}
