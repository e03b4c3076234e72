use dattorro_reverb::blocks::{block_bounds, block_count, write_block, BLOCK_SIZE};

#[test]
fn counts() {
    assert_eq!(BLOCK_SIZE, 128);
    assert_eq!(block_count(0), 0);
    assert_eq!(block_count(127), 0);
    assert_eq!(block_count(128), 1);
    assert_eq!(block_count(512), 4);
    assert_eq!(block_count(600), 4);
}

#[test]
fn bounds() {
    assert_eq!(block_bounds(512, 0), (0, 128));
    assert_eq!(block_bounds(512, 3), (384, 512));
    assert_eq!(block_bounds(300, 1), (128, 256));
}

#[test]
fn write_places_block_and_keeps_the_rest() {
    let mut out = vec![-1.0f32; 300];
    let block: Vec<f32> = (0..128).map(|n| n as f32).collect();
    write_block(&mut out, 1, &block);
    assert_eq!(out[127], -1.0);
    assert_eq!(out[128], 0.0);
    assert_eq!(out[255], 127.0);
    assert_eq!(out[256], -1.0);
    assert_eq!(out[299], -1.0);
}

#[test]
fn trailing_samples_stay_untouched() {
    let samples = 300;
    let mut out = vec![7u32; samples];
    for b in 0..block_count(samples) {
        let block = vec![b as u32; 128];
        write_block(&mut out, b, &block);
    }
    for (i, v) in out.iter().enumerate() {
        if i < 256 {
            assert_eq!(*v, (i / 128) as u32);
        } else {
            assert_eq!(*v, 7);
        }
    }
}
