use freecam_rs::patch_state::BattlePatcher;
use freecam_rs::trampoline::{
    build_teleport_trampoline, create_unit_card_teleport_patch, instruction_length, nop_fill, nop_patch,
    remote_store_patch, source_stub, TARGET_VIEW_PATCH_ADDR, TARGET_VIEW_REGION_LEN, TELEPORT_PATCH_ADDR,
    TELEPORT_REGION_LEN,
};

fn le(v: u32) -> Vec<u8> {
    v.to_le_bytes().to_vec()
}

/// The expected encoding of the teleport trampoline.
fn expected_teleport_code(dest: u32, resume: u32) -> Vec<u8> {
    let mut c = Vec::new();
    let copy = |c: &mut Vec<u8>, disp: u8, to: u32| {
        if disp == 0 {
            c.extend_from_slice(&[0x8B, 0x30]);
        } else {
            c.extend_from_slice(&[0x8B, 0x70, disp]);
        }
        c.extend_from_slice(&[0x89, 0x35]);
        c.extend(le(to));
    };
    copy(&mut c, 0, dest);
    copy(&mut c, 4, dest + 4);
    copy(&mut c, 8, dest + 8);
    c.push(0x50);
    c.extend_from_slice(&[0x8B, 0x44, 0x24, 0x14]);
    copy(&mut c, 0, dest + 12);
    copy(&mut c, 4, dest + 16);
    copy(&mut c, 8, dest + 20);
    c.push(0x58);
    c.push(0xBB);
    c.extend(le(resume));
    c.extend_from_slice(&[0xFF, 0xE3]);
    c
}

#[test]
fn instruction_length_by_leading_byte() {
    assert_eq!(instruction_length(0xF3), 5);
    assert_eq!(instruction_length(0x89), 3);
    assert_eq!(instruction_length(0x00), 3);
}

#[test]
fn nop_patch_blanks_whole_instruction() {
    assert_eq!(nop_patch(0xF3), vec![0x90; 5]);
    assert_eq!(nop_patch(0xD9), vec![0x90; 3]);
    assert_eq!(nop_fill(0), Vec::<u8>::new());
    assert_eq!(nop_fill(17), vec![0x90; 17]);
}

#[test]
fn source_stub_covers_reserved_region() {
    let stub = source_stub(0x1234_5678, 15);
    assert_eq!(
        stub,
        vec![0x53, 0xBB, 0x78, 0x56, 0x34, 0x12, 0xFF, 0xE3, 0x5B, 0x90, 0x90, 0x90, 0x90, 0x90, 0x90]
    );
    for len in 9..40 {
        assert_eq!(source_stub(0xDEAD_BEEF, len).len(), len);
    }
    assert_eq!(source_stub(0, 9), vec![0x53, 0xBB, 0, 0, 0, 0, 0xFF, 0xE3, 0x5B]);
}

#[test]
fn remote_store_patch_bytes() {
    assert_eq!(
        remote_store_patch(0x0A0B_0C0D, 1),
        vec![0x52, 0xBA, 0x0D, 0x0C, 0x0B, 0x0A, 0xF3, 0x0F, 0x11, 0x0A, 0x5A]
    );
    assert_eq!(
        remote_store_patch(0x0A0B_0C0D, 0),
        vec![0x52, 0xBA, 0x0D, 0x0C, 0x0B, 0x0A, 0xF3, 0x0F, 0x11, 0x02, 0x5A]
    );
}

#[test]
fn teleport_trampoline_encoding() {
    let dest = 0x0040_1000;
    let resume = 0x008F_8E93;
    let code = build_teleport_trampoline(dest, resume, 0x0050_0000).unwrap();
    assert_eq!(code, expected_teleport_code(dest, resume));
}

#[test]
fn unit_card_teleport_patches() {
    let (t, v) = create_unit_card_teleport_patch(0x0040_2000, 0x0060_0000).unwrap();
    assert_eq!(t.patch_addr, TELEPORT_PATCH_ADDR);
    assert_eq!(t.patch_addr, 0x8F8E8B);
    assert_eq!(t.source_loc.len(), TELEPORT_REGION_LEN);
    assert_eq!(t.source_loc, source_stub(0x0060_0000, 15));
    assert_eq!(t.dynamic_code, expected_teleport_code(0x0040_2000, 0x8F8E8B + 8));
    assert_eq!(v.patch_addr, TARGET_VIEW_PATCH_ADDR);
    assert_eq!(v.source_loc, vec![0x90; 17]);
    assert_eq!(v.source_loc.len(), TARGET_VIEW_REGION_LEN);
    assert!(v.dynamic_code.is_empty());

    let p = BattlePatcher::new(vec![t, v]);
    assert_eq!(p.patches().len(), 2);
}
