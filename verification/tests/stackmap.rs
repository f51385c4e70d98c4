use wanco::compile::stackmap::llvm_stackmap::{
    parse, Header, LiveOut, Location, LocationValue, Reg, StackMapRecord, StackSizeRecord,
    Stackmap, StackmapError,
};

fn section(locations: &[[u8; 12]], live_outs: &[[u8; 4]]) -> Vec<u8> {
    let mut b: Vec<u8> = vec![3, 0, 0, 0];
    b.extend(1u32.to_le_bytes());
    b.extend(2u32.to_le_bytes());
    b.extend(1u32.to_le_bytes());
    // one function
    b.extend(0x1122_3344_5566_7788u64.to_le_bytes());
    b.extend(40u64.to_le_bytes());
    b.extend(1u64.to_le_bytes());
    // two large constants
    b.extend(u64::MAX.to_le_bytes());
    b.extend(0x1_0000_0000u64.to_le_bytes());
    // one record
    b.extend(((7u64 << 32) | 3).to_le_bytes());
    b.extend(0x20u32.to_le_bytes());
    b.extend(0u16.to_le_bytes());
    b.extend((locations.len() as u16).to_le_bytes());
    for l in locations {
        b.extend(l);
    }
    if b.len() % 8 != 0 {
        b.extend([0u8; 4]);
    }
    b.extend(0u16.to_le_bytes());
    b.extend((live_outs.len() as u16).to_le_bytes());
    for l in live_outs {
        b.extend(l);
    }
    if b.len() % 8 != 0 {
        b.extend([0u8; 4]);
    }
    b
}

fn location(kind: u8, size: u16, reg: u16, offset: i32) -> [u8; 12] {
    let mut l = [0u8; 12];
    l[0] = kind;
    l[2..4].copy_from_slice(&size.to_le_bytes());
    l[4..6].copy_from_slice(&reg.to_le_bytes());
    l[8..12].copy_from_slice(&offset.to_le_bytes());
    l
}

#[test]
fn a_section_is_read() {
    let bytes = section(
        &[
            location(1, 8, 5, 0),
            location(2, 8, 7, -16),
            location(3, 4, 6, 24),
            location(4, 8, 0, -1),
            location(5, 8, 0, 1),
        ],
        &[[0x10, 0x00, 0xff, 8]],
    );
    assert_eq!(
        parse(&bytes),
        Ok(Stackmap {
            header: Header { version: 3, reserved0: 0, reserved1: 0 },
            stack_size_records: vec![StackSizeRecord {
                function_addr: 0x1122_3344_5566_7788,
                stack_size: 40,
                record_count: 1,
            }],
            constants: vec![u64::MAX, 0x1_0000_0000],
            stackmap_records: vec![StackMapRecord {
                patchpoint_id: (7 << 32) | 3,
                inst_offset: 0x20,
                locations: vec![
                    Location { value: LocationValue::Register { reg: Reg(5) }, size: 8 },
                    Location { value: LocationValue::Direct { reg: Reg(7), offset: -16 }, size: 8 },
                    Location { value: LocationValue::Indirect { reg: Reg(6), offset: 24 }, size: 4 },
                    Location { value: LocationValue::Constant { value: u32::MAX }, size: 8 },
                    Location { value: LocationValue::ConstIndex { index: 1 }, size: 8 },
                ],
                live_outs: vec![LiveOut { reg: Reg(0x10), size_in_bytes: 8 }],
            }],
        })
    );
}

#[test]
fn padding_follows_an_even_number_of_locations() {
    // two locations end at a multiple of eight, one live-out does not
    let bytes = section(&[location(1, 8, 1, 0), location(1, 8, 2, 0)], &[[1, 0, 0, 4]]);
    assert_eq!(bytes.len() % 8, 0);
    let map = parse(&bytes).unwrap();
    assert_eq!(map.stackmap_records[0].locations.len(), 2);
    assert_eq!(map.stackmap_records[0].live_outs, vec![LiveOut { reg: Reg(1), size_in_bytes: 4 }]);
    // without the last padding the section is cut short
    assert_eq!(parse(&bytes[..bytes.len() - 4]), Err(StackmapError::UnexpectedEnd));
}

#[test]
fn a_section_without_records() {
    let mut bytes = vec![3, 1, 2, 0];
    bytes.extend([0u8; 12]);
    assert_eq!(
        parse(&bytes),
        Ok(Stackmap {
            header: Header { version: 3, reserved0: 1, reserved1: 2 },
            stack_size_records: vec![],
            constants: vec![],
            stackmap_records: vec![],
        })
    );
}

#[test]
fn a_section_that_ends_early_is_rejected() {
    let bytes = section(&[location(1, 8, 5, 0)], &[]);
    for cut in [0, 3, 4, 15, 16, 39, 47, 63, 70, 77, 81] {
        assert_eq!(parse(&bytes[..cut]), Err(StackmapError::UnexpectedEnd), "{}", cut);
    }
    assert!(parse(&bytes).is_ok());
}

#[test]
fn a_location_of_an_unknown_kind_is_rejected() {
    for kind in [0, 6, 255] {
        let bytes = section(&[location(1, 8, 5, 0), location(kind, 8, 5, 0)], &[]);
        assert_eq!(parse(&bytes), Err(StackmapError::LocationKind));
    }
}
