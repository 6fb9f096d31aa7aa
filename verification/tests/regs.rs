use x86_vcpu::GeneralRegisters;
use x86_vcpu::GeneralRegistersDiff;

const VALID_INDICES: [u8; 15] = [0, 1, 2, 3, 5, 6, 7, 8, 9, 10, 11, 12, 13, 14, 15];

fn read_field(regs: &GeneralRegisters, index: u8) -> u64 {
    match index {
        0 => regs.rax,
        1 => regs.rcx,
        2 => regs.rdx,
        3 => regs.rbx,
        4 => regs._unused_rsp,
        5 => regs.rbp,
        6 => regs.rsi,
        7 => regs.rdi,
        8 => regs.r8,
        9 => regs.r9,
        10 => regs.r10,
        11 => regs.r11,
        12 => regs.r12,
        13 => regs.r13,
        14 => regs.r14,
        15 => regs.r15,
        _ => unreachable!(),
    }
}

#[test]
fn test_default_is_all_zero() {
    let regs = GeneralRegisters::default();
    for i in 0..16u8 {
        assert_eq!(read_field(&regs, i), 0);
    }
}

#[test]
fn test_indexed_set_get_round_trip() {
    for &i in VALID_INDICES.iter() {
        let mut regs = GeneralRegisters::default();
        regs.set_reg_of_index(i, 0xfedc_ba98_7654_3210);
        assert_eq!(regs.get_reg_of_index(i), 0xfedc_ba98_7654_3210);
        assert_eq!(read_field(&regs, i), 0xfedc_ba98_7654_3210);
        // every other slot is untouched
        for j in 0..16u8 {
            if j != i {
                assert_eq!(read_field(&regs, j), 0);
            }
        }
    }
}

#[test]
fn test_index_4_is_rejected() {
    let mut regs = GeneralRegisters::default();
    assert!(regs.try_get_reg_of_index(4).is_none());
    assert!(!regs.try_set_reg_of_index(4, 0xdead));
    assert_eq!(regs._unused_rsp, 0);
}

#[test]
fn test_index_above_15_is_rejected() {
    let mut regs = GeneralRegisters::default();
    for i in 16..=255u8 {
        assert!(regs.try_get_reg_of_index(i).is_none());
        assert!(!regs.try_set_reg_of_index(i, 1));
    }
}

#[test]
fn test_try_accessors_on_valid_indices() {
    let mut regs = GeneralRegisters::default();
    for &i in VALID_INDICES.iter() {
        assert!(regs.try_set_reg_of_index(i, 0x1122_3344_5566_7788));
        assert_eq!(regs.try_get_reg_of_index(i), Some(0x1122_3344_5566_7788));
    }
}

#[test]
fn test_set_reg32_zero_extends() {
    for &i in VALID_INDICES.iter() {
        let mut regs = GeneralRegisters::default();
        regs.set_reg_of_index(i, 0x1234_5678_9abc_def0);
        regs.set_reg32(i, 0x9abc_def0);
        // the upper 32 bits of the prior value are erased
        assert_eq!(regs.get_reg_of_index(i), 0x9abc_def0);
        assert_eq!(regs.get_reg32(i), 0x9abc_def0);
    }
}

#[test]
fn test_set_reg16_preserves_other_bits() {
    for &i in VALID_INDICES.iter() {
        let mut regs = GeneralRegisters::default();
        regs.set_reg_of_index(i, 0x1234_5678_9abc_def0);
        regs.set_reg16(i, 0x5678);
        assert_eq!(regs.get_reg_of_index(i), 0x1234_5678_9abc_5678);
        assert_eq!(regs.get_reg16(i), 0x5678);
    }
}

#[test]
fn test_set_reg8_preserves_other_bits() {
    for &i in VALID_INDICES.iter() {
        let mut regs = GeneralRegisters::default();
        regs.set_reg_of_index(i, 0x1234_5678_9abc_def0);
        regs.set_reg8(i, 0x34);
        assert_eq!(regs.get_reg_of_index(i), 0x1234_5678_9abc_de34);
        assert_eq!(regs.get_reg8(i), 0x34);
    }
}

#[test]
fn test_set_reg8_high_is_independent_of_low_byte() {
    // the four high-byte views exist for indices 0 to 3 only
    for i in 0..=3u8 {
        let mut regs = GeneralRegisters::default();
        regs.set_reg_of_index(i, 0x1234_5678_9abc_def0);
        regs.set_reg8_high(i, 0x12);
        assert_eq!(regs.get_reg_of_index(i), 0x1234_5678_9abc_12f0);
        assert_eq!(regs.get_reg8_high(i), 0x12);
        // the low byte is untouched, and writing it back leaves the high byte
        assert_eq!(regs.get_reg8(i), 0xf0);
        regs.set_reg8(i, 0x34);
        assert_eq!(regs.get_reg_of_index(i), 0x1234_5678_9abc_1234);
    }
}

#[test]
fn test_full_width_sequence_matches_architecture() {
    // the sequence of sub-width writes of the original accessors' semantics
    let mut regs = GeneralRegisters::default();
    regs.set_reg_of_index(0, 0x1234_5678_9abc_def0);
    regs.set_reg8_high(0, 0x12);
    assert_eq!(regs.rax, 0x1234_5678_9abc_12f0);
    regs.set_reg8_high(0, 0xde);
    regs.set_reg8(0, 0x34);
    assert_eq!(regs.rax, 0x1234_5678_9abc_de34);
    regs.set_reg16(0, 0x5678);
    assert_eq!(regs.rax, 0x1234_5678_9abc_5678);
    regs.set_reg32(0, 0x9abc_def0);
    assert_eq!(regs.rax, 0x9abc_def0);
}

#[test]
fn test_get_edx_eax() {
    let mut regs = GeneralRegisters::default();
    regs.set_reg_of_index(2, 0xffff_ffff_1122_3344);
    regs.set_reg_of_index(0, 0xeeee_eeee_5566_7788);
    // only the 32-bit views take part in the pair
    assert_eq!(regs.get_edx_eax(), 0x1122_3344_5566_7788);
}

#[test]
fn test_register_names() {
    let expected: [&str; 16] = [
        "rax", "rcx", "rdx", "rbx", "rsp", "rbp", "rsi", "rdi", "r8", "r9", "r10", "r11", "r12",
        "r13", "r14", "r15",
    ];
    for i in 0..16u8 {
        assert_eq!(GeneralRegisters::register_name(i), expected[i as usize]);
    }
}

#[test]
fn test_diff_identical_snapshots_report_nothing() {
    let mut regs = GeneralRegisters::default();
    regs.set_reg_of_index(7, 0x77);
    let diff = GeneralRegistersDiff::new(regs, regs);
    assert!(diff.is_same());
    assert!(diff.changed_indices().is_empty());
}

#[test]
fn test_diff_reports_only_rbx() {
    let before = GeneralRegisters::default();
    let mut after = GeneralRegisters::default();
    after.set_reg_of_index(3, 0xb);
    let diff = GeneralRegistersDiff::new(before, after);
    assert!(!diff.is_same());
    let changed = diff.changed_indices();
    assert_eq!(changed, vec![3u8]);
    assert_eq!(GeneralRegisters::register_name(changed[0]), "rbx");
}

#[test]
fn test_diff_excludes_the_rsp_slot_from_comparison() {
    let before = GeneralRegisters::default();
    let mut after = GeneralRegisters::default();
    after._unused_rsp = 0x5555;
    // snapshots that agree on every tracked register compare as unchanged,
    // whatever the reserved slot's storage holds
    let diff = GeneralRegistersDiff::new(before, after);
    assert!(diff.is_same());
    assert!(diff.changed_indices().is_empty());
}

#[test]
fn test_diff_never_reports_the_rsp_slot() {
    let before = GeneralRegisters::default();
    let mut after = GeneralRegisters::default();
    after._unused_rsp = 0x5555;
    after.set_reg_of_index(3, 0xb);
    let diff = GeneralRegistersDiff::new(before, after);
    assert!(!diff.is_same());
    // index 4 never appears among the changed registers
    let changed = diff.changed_indices();
    assert_eq!(changed, vec![3u8]);
}

#[test]
fn test_diff_reports_in_index_order() {
    let before = GeneralRegisters::default();
    let mut after = GeneralRegisters::default();
    after.set_reg_of_index(15, 1);
    after.set_reg_of_index(0, 2);
    after.set_reg_of_index(6, 3);
    let diff = GeneralRegistersDiff::new(before, after);
    assert_eq!(diff.changed_indices(), vec![0u8, 6, 15]);
}
