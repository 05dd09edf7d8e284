use player_camera::grab::GrabMode;
use player_camera::movement::{axis, plan_move, MoveKeys, RawDirection};

#[test]
fn axis_values() {
    assert_eq!(axis(false, false), 0);
    assert_eq!(axis(true, false), -1);
    assert_eq!(axis(false, true), 1);
    assert_eq!(axis(true, true), 0);
}

#[test]
fn each_key_gives_its_axis() {
    let left = MoveKeys::new(true, false, false, false, false, false);
    assert_eq!(left.direction(), RawDirection { x: -1, y: 0, z: 0 });
    let right = MoveKeys::new(false, true, false, false, false, false);
    assert_eq!(right.direction(), RawDirection { x: 1, y: 0, z: 0 });
    let forward = MoveKeys::new(false, false, true, false, false, false);
    assert_eq!(forward.direction(), RawDirection { x: 0, y: 0, z: 1 });
    let backward = MoveKeys::new(false, false, false, true, false, false);
    assert_eq!(backward.direction(), RawDirection { x: 0, y: 0, z: -1 });
    let ascend = MoveKeys::new(false, false, false, false, true, false);
    assert_eq!(ascend.direction(), RawDirection { x: 0, y: 1, z: 0 });
    let descend = MoveKeys::new(false, false, false, false, false, true);
    assert_eq!(descend.direction(), RawDirection { x: 0, y: -1, z: 0 });
}

#[test]
fn released_keys_do_not_move() {
    let keys = MoveKeys::released();
    assert_eq!(plan_move(GrabMode::Locked, &keys), None);
    assert_eq!(plan_move(GrabMode::Confined, &keys), None);
    assert_eq!(plan_move(GrabMode::Unlocked, &keys), None);
}

#[test]
fn opposite_keys_cancel() {
    let keys = MoveKeys::new(true, true, true, true, true, true);
    assert!(keys.direction().is_zero());
    assert_eq!(plan_move(GrabMode::Locked, &keys), None);
}

#[test]
fn free_cursor_blocks_movement() {
    let keys = MoveKeys::new(false, false, true, false, false, false);
    assert_eq!(plan_move(GrabMode::Unlocked, &keys), None);
    assert_eq!(
        plan_move(GrabMode::Locked, &keys),
        Some(RawDirection { x: 0, y: 0, z: 1 })
    );
    assert_eq!(
        plan_move(GrabMode::Confined, &keys),
        Some(RawDirection { x: 0, y: 0, z: 1 })
    );
}

#[test]
fn diagonal_direction_and_length() {
    let keys = MoveKeys::new(false, true, true, false, false, true);
    let d = plan_move(GrabMode::Locked, &keys).unwrap();
    assert_eq!(d, RawDirection { x: 1, y: -1, z: 1 });
    assert_eq!(d.len_sq(), 3);
    let two = MoveKeys::new(true, false, false, true, false, false).direction();
    assert_eq!(two.len_sq(), 2);
}

#[test]
fn every_moving_combination_normalises_to_unit_length() {
    for bits in 0u32..64 {
        let keys = MoveKeys::new(
            bits & 1 != 0,
            bits & 2 != 0,
            bits & 4 != 0,
            bits & 8 != 0,
            bits & 16 != 0,
            bits & 32 != 0,
        );
        match plan_move(GrabMode::Locked, &keys) {
            None => assert!(keys.direction().is_zero()),
            Some(d) => {
                let n = (d.len_sq() as f32).sqrt();
                let (x, y, z) = (d.x as f32 / n, d.y as f32 / n, d.z as f32 / n);
                let len = (x * x + y * y + z * z).sqrt();
                assert!((len - 1.0).abs() < 1e-6);
            }
        }
    }
}
