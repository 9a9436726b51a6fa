use launch_sim::palette::{BallData, HUES, HUE_STEP};

const SEED: [u8; 32] = [7; 32];

#[test]
fn wheel_has_thirty_six_hues_ten_degrees_apart() {
    assert_eq!(HUES, 36);
    assert_eq!(HUE_STEP, 10);
    let data = BallData::new(SEED);
    let hues = data.materials();
    assert_eq!(hues.len(), 36);
    for (i, hue) in hues.iter().enumerate() {
        assert_eq!(*hue, 10 * i as u32);
    }
}

#[test]
fn every_pick_is_a_hue_of_the_wheel() {
    let mut data = BallData::new(SEED);
    let hues = data.materials();
    for _ in 0..1_000 {
        let hue = data.material();
        assert!(hues.contains(&hue));
        assert_eq!(hue % 10, 0);
        assert!(hue < 360);
    }
    assert_eq!(data.materials(), hues);
}

#[test]
fn picks_follow_from_the_seed() {
    let mut first = BallData::new(SEED);
    let mut second = BallData::new(SEED);
    for _ in 0..200 {
        assert_eq!(first.material(), second.material());
    }
}

#[test]
fn picks_vary() {
    let mut data = BallData::new(SEED);
    let start = data.material();
    let mut varied = false;
    for _ in 0..200 {
        if data.material() != start {
            varied = true;
        }
    }
    assert!(varied);
}

#[test]
fn different_seeds_give_different_runs() {
    let mut first = BallData::new([1; 32]);
    let mut second = BallData::new([2; 32]);
    let mut differ = false;
    for _ in 0..200 {
        if first.material() != second.material() {
            differ = true;
        }
    }
    assert!(differ);
}
