use freecam_rs::channel::{is_float_nonzero, BattleUnitCameraTeleport, RemoteData, RemoteFloat};

fn command(v: [f32; 6]) -> BattleUnitCameraTeleport {
    BattleUnitCameraTeleport::from_words(v.map(f32::to_bits))
}

#[test]
fn available_iff_all_fields_nonzero() {
    let full = command([1.0, 2.0, 3.0, 4.0, 5.0, 6.0]);
    assert!(full.is_available());
    for i in 0..6 {
        let mut v = [1.0f32, 2.0, 3.0, 4.0, 5.0, 6.0];
        v[i] = 0.0;
        assert!(!command(v).is_available());
        v[i] = -0.0;
        assert!(!command(v).is_available());
    }
    assert!(!BattleUnitCameraTeleport::zeroed().is_available());
    assert!(command([f32::NAN, -1.0, 1e-30, 4.0, 5.0, 6.0]).is_available());
}

#[test]
fn consuming_command_clears_it() {
    let mut c = command([10.5, -3.0, 7.25, 100.0, 20.0, -5.0]);
    let before = c;
    let taken = c.take();
    assert_eq!(taken, Some(before));
    assert!(!c.is_available());
    assert_eq!(c, BattleUnitCameraTeleport::zeroed());
    assert_eq!(c.take(), None);
}

#[test]
fn partial_command_is_left_alone() {
    let mut c = command([10.5, 0.0, 7.25, 100.0, 20.0, -5.0]);
    let before = c;
    assert_eq!(c.take(), None);
    assert_eq!(c, before);
}

#[test]
fn command_words_in_memory_order() {
    let c = command([1.0, 2.0, 3.0, 4.0, 5.0, 6.0]);
    assert_eq!(f32::from_bits(c.x), 1.0);
    assert_eq!(f32::from_bits(c.z), 2.0);
    assert_eq!(f32::from_bits(c.y), 3.0);
    assert_eq!(f32::from_bits(c.x_target), 4.0);
    assert_eq!(f32::from_bits(c.z_target), 5.0);
    assert_eq!(f32::from_bits(c.y_target), 6.0);
    assert_eq!(c.words(), [1.0f32, 2.0, 3.0, 4.0, 5.0, 6.0].map(f32::to_bits));
}

#[test]
fn float_zero_test_on_bits() {
    assert!(!is_float_nonzero(0.0f32.to_bits()));
    assert!(!is_float_nonzero((-0.0f32).to_bits()));
    assert!(is_float_nonzero(f32::MIN_POSITIVE.to_bits()));
    assert!(is_float_nonzero(f32::NAN.to_bits()));
}

#[test]
fn remote_float_round_trip() {
    let cell = RemoteFloat::new(0);
    for b in [0u32, 1, 0x7FC0_0000, 0xFFFF_FFFF, 100.0f32.to_bits(), (-0.0f32).to_bits()] {
        cell.store(b);
        assert_eq!(cell.load(), b);
    }
    cell.store(123.456f32.to_bits());
    assert_eq!(f32::from_bits(cell.load()), 123.456f32);
}

#[test]
fn fresh_remote_data() {
    let r = RemoteData::new();
    assert_eq!(r.remote_z.load(), 0);
}
