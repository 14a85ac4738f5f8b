use freecam_rs::ptr::{parse_address, AddressError, GameCell, NonNullPtr};
use freecam_rs::session::{scroll_impulse, session_step, BattleCameraType, SessionStep};

#[test]
fn session_lifecycle_steps() {
    assert_eq!(session_step(false, true), SessionStep::Enter);
    assert_eq!(session_step(true, true), SessionStep::Tick);
    assert_eq!(session_step(true, false), SessionStep::Exit);
    assert_eq!(session_step(false, false), SessionStep::Idle);
}

#[test]
fn camera_type_codes() {
    assert_eq!(BattleCameraType::TotalWar.code(), 0);
    assert_eq!(BattleCameraType::GeneralCamera.code(), 1);
    assert_eq!(BattleCameraType::Rts.code(), 2);
    assert_eq!(BattleCameraType::from_code(2), Some(BattleCameraType::Rts));
    assert_eq!(BattleCameraType::from_code(0), Some(BattleCameraType::TotalWar));
    assert_eq!(BattleCameraType::from_code(3), None);
}

#[test]
fn scroll_impulse_signed_square() {
    assert_eq!(scroll_impulse(0, false), 0);
    assert_eq!(scroll_impulse(3, false), 9);
    assert_eq!(scroll_impulse(-3, false), -9);
    assert_eq!(scroll_impulse(3, true), -9);
    assert_eq!(scroll_impulse(-2, true), 4);
    assert_eq!(scroll_impulse(i32::MIN, false), -(1i64 << 62));
    assert_eq!(scroll_impulse(i32::MIN, true), 1i64 << 62);
}

#[test]
fn non_null_pointer() {
    assert_eq!(NonNullPtr::new(0), None);
    let p = NonNullPtr::new(0x0193_D598).unwrap();
    assert_eq!(p.addr(), 0x0193_D598);
}

#[test]
fn game_cell_holds_value() {
    let c = GameCell::new([7u32; 6]);
    let inner = c.inner();
    assert!(!inner.get().is_null());
}

#[test]
fn address_from_hex_text() {
    assert_eq!(parse_address(b"0x193D598"), Ok(0x193D598));
    assert_eq!(parse_address(b"0xff"), Ok(0xFF));
    assert_eq!(parse_address(b"0X+1a"), Ok(0x1A));
    assert_eq!(NonNullPtr::from_hex(b"0x008F8E8B").unwrap().addr(), 0x008F_8E8B);
}

#[test]
fn address_from_hex_errors() {
    assert_eq!(parse_address(b""), Err(AddressError::MissingPrefix));
    assert_eq!(parse_address(b"0"), Err(AddressError::MissingPrefix));
    assert_eq!(parse_address(b"0x"), Err(AddressError::Empty));
    assert_eq!(parse_address(b"0x+"), Err(AddressError::InvalidDigit));
    assert_eq!(parse_address(b"0x12G4"), Err(AddressError::InvalidDigit));
    assert_eq!(parse_address(b"0x-1"), Err(AddressError::InvalidDigit));
    assert_eq!(parse_address(b"0x0"), Err(AddressError::Null));
    assert_eq!(parse_address(b"0x0000"), Err(AddressError::Null));
    assert_eq!(NonNullPtr::from_hex(b"0x0"), Err(AddressError::Null));
    let too_big = format!("0x1{}", "0".repeat(2 * std::mem::size_of::<usize>()));
    assert_eq!(parse_address(too_big.as_bytes()), Err(AddressError::Overflow));
    let max = format!("0x{}", "F".repeat(2 * std::mem::size_of::<usize>()));
    assert_eq!(parse_address(max.as_bytes()), Ok(usize::MAX));
}
