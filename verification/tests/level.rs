use thehand::level::{level, MAX_LEVEL};

#[test]
fn level_of_empty_block_is_zero() {
    assert_eq!(level(&[]), 0);
}

#[test]
fn level_of_constant_block_is_its_amplitude() {
    assert_eq!(level(&[600; 8]), 600);
    assert_eq!(level(&[-600; 3]), 600);
    assert_eq!(level(&[0; 5]), 0);
}

#[test]
fn level_is_root_mean_square_rounded_down() {
    // (9 + 16) / 2 = 12.5, whose root is 3.53..
    assert_eq!(level(&[3, 4]), 3);
    // (10000 + 40000 + 90000) / 3 = 46666.6.., whose root is 216.02..
    assert_eq!(level(&[100, -200, 300]), 216);
    // a single sample: its magnitude
    assert_eq!(level(&[-7]), 7);
}

#[test]
fn level_of_loudest_block() {
    assert_eq!(level(&[i16::MIN; 4]), MAX_LEVEL);
    assert_eq!(level(&[i16::MAX; 4]), 32767);
}

#[test]
fn level_follows_uniform_scaling() {
    let block = [100i16, -200, 300, 7, 0, -1];
    let l = level(&block) as u32;
    for k in 0..20u32 {
        let scaled: Vec<i16> = block.iter().map(|s| s * k as i16).collect();
        let m = level(&scaled) as u32;
        assert!(k * l <= m);
        if k == 0 {
            assert_eq!(m, 0);
        } else {
            assert!(m < k * (l + 1));
        }
    }
}

#[test]
fn level_matches_floating_point_rms() {
    let block = [1200i16, -340, 77, 0, -15000, 32767, -32768, 5];
    let mean: f64 = block.iter().map(|s| (*s as f64) * (*s as f64)).sum::<f64>() / block.len() as f64;
    assert_eq!(level(&block) as f64, mean.sqrt().floor());
}

#[test]
fn level_follows_scaling_by_a_negative_factor() {
    let block = [100i16, -200, 300, 7, 0, -1];
    let l = level(&block) as i32;
    for k in 1..20i32 {
        let scaled: Vec<i16> = block.iter().map(|s| s * (-k) as i16).collect();
        let m = level(&scaled) as i32;
        assert!(k * l <= m && m < k * (l + 1));
    }
    assert_eq!(level(&[-3, -4]), level(&[3, 4]));
}
