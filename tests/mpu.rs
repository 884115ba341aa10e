use mk66::align::round_up_to_nearest_multiple;
use mk66::config::{region_class, MK66Config, RegionClass, APP_MEMORY_INDEX, NUM_REGIONS};
use mk66::error::MpuError;
use mk66::mpu::Mpu;
use mk66::region::{Permissions, Region};
use mk66::registers::MpuRegisters;
use mk66::writer::Writer;

fn mpu_with(cesr: u32) -> Mpu {
    Mpu::new(MpuRegisters::new(cesr))
}

fn mpu() -> Mpu {
    mpu_with(0x0000_0100)
}

#[test]
fn round_up_exact_values() {
    assert_eq!(round_up_to_nearest_multiple(0, 32), 0);
    assert_eq!(round_up_to_nearest_multiple(1, 32), 32);
    assert_eq!(round_up_to_nearest_multiple(31, 32), 32);
    assert_eq!(round_up_to_nearest_multiple(32, 32), 32);
    assert_eq!(round_up_to_nearest_multiple(33, 32), 64);
    assert_eq!(round_up_to_nearest_multiple(0x1001, 32), 0x1020);
    assert_eq!(round_up_to_nearest_multiple(10, 7), 14);
    assert_eq!(round_up_to_nearest_multiple(0xffff_ffe0, 32), 0xffff_ffe0);
}

#[test]
fn round_up_is_next_multiple() {
    for y in [1u32, 3, 7, 32, 100] {
        for x in 0u32..300 {
            let r = round_up_to_nearest_multiple(x, y);
            assert_eq!(r % y, 0);
            assert!(r >= x);
            assert!(r - x < y);
        }
    }
}

#[test]
fn region_permission_codes() {
    let cases = [
        (Permissions::ReadWriteExecute, 0b111),
        (Permissions::ReadWriteOnly, 0b110),
        (Permissions::ReadExecuteOnly, 0b101),
        (Permissions::ReadOnly, 0b100),
        (Permissions::ExecuteOnly, 0b001),
    ];
    for (p, bits) in cases {
        let r = Region::new(0x20, 0x40, p);
        assert_eq!(r.start(), 0x20);
        assert_eq!(r.end(), 0x40);
        assert_eq!(r.permissions(), bits);
    }
}

#[test]
fn first_free_index_skips_app_memory_slot() {
    let mut c = MK66Config::default();
    assert_eq!(c.available_region_index(), Some(0));
    c.set_region(0, Region::new(0, 32, Permissions::ReadOnly));
    assert_eq!(c.available_region_index(), Some(2));
    c.set_region(APP_MEMORY_INDEX, Region::new(64, 96, Permissions::ReadOnly));
    c.set_region(3, Region::new(96, 128, Permissions::ReadOnly));
    assert_eq!(c.available_region_index(), Some(2));
    c.clear_region(0);
    assert_eq!(c.available_region_index(), Some(0));
}

#[test]
fn region_classes() {
    assert_eq!(region_class(APP_MEMORY_INDEX), RegionClass::ApplicationMemory);
    assert_eq!(region_class(0), RegionClass::Ordinary);
    assert_eq!(region_class(2), RegionClass::Ordinary);
}

#[test]
fn allocate_region_rounds_start_and_size() {
    let m = mpu();
    let mut c = MK66Config::default();
    let r = m.allocate_region(0x1001, 0x1000, 33, Permissions::ReadWriteOnly, &mut c);
    assert_eq!(r, Ok((0x1020, 64)));
    let region = c.region(0).unwrap();
    assert_eq!(region.start(), 0x1020);
    assert_eq!(region.end(), 0x1060);
    assert_eq!(region.permissions(), 0b110);
    for i in 1..NUM_REGIONS {
        assert_eq!(c.region(i), None);
    }
    assert_eq!(c.memory(), None);
}

#[test]
fn allocate_region_results_are_aligned() {
    let m = mpu();
    for start in [0u32, 1, 17, 31, 32, 0x1003] {
        for min in [0u32, 1, 5, 32, 33, 100] {
            let mut c = MK66Config::default();
            if let Ok((s, sz)) = m.allocate_region(start, 0x10000, min, Permissions::ReadOnly, &mut c) {
                assert_eq!(s % 32, 0);
                assert_eq!(sz % 32, 0);
            } else {
                panic!("allocation should fit");
            }
        }
    }
}

#[test]
fn allocate_region_exact_fit_succeeds() {
    let m = mpu();
    let mut c = MK66Config::default();
    // round_up(0x10, 32) + round_up(0x30, 32) = 0x20 + 0x40 = 0x60 = 0x10 + 0x50
    assert_eq!(
        m.allocate_region(0x10, 0x50, 0x30, Permissions::ReadOnly, &mut c),
        Ok((0x20, 0x40))
    );
}

#[test]
fn allocate_region_one_byte_short_is_capacity_exhausted() {
    let m = mpu();
    let mut c = MK66Config::default();
    assert_eq!(
        m.allocate_region(0x10, 0x4f, 0x30, Permissions::ReadOnly, &mut c),
        Err(MpuError::CapacityExhausted)
    );
    assert_eq!(c.available_region_index(), Some(0));
}

#[test]
fn allocate_region_capacity_checked_before_table() {
    let m = mpu();
    let mut c = MK66Config::default();
    for _ in 0..10 {
        assert!(m.allocate_region(0, 0x1000, 32, Permissions::ReadOnly, &mut c).is_ok());
    }
    assert_eq!(
        m.allocate_region(0, 16, 32, Permissions::ReadOnly, &mut c),
        Err(MpuError::CapacityExhausted)
    );
    assert_eq!(
        m.allocate_region(0, 0x1000, 32, Permissions::ReadOnly, &mut c),
        Err(MpuError::TableFull)
    );
}

#[test]
fn scenario_eleven_regions_table_full() {
    let m = mpu();
    let mut c = MK66Config::default();
    let span = 0x10_0000u32;
    let mut start = 0u32;
    let mut used = Vec::new();
    for _ in 0..10 {
        let (s, sz) = m
            .allocate_region(start, span - start, 32, Permissions::ReadOnly, &mut c)
            .unwrap();
        assert_eq!(sz, 32);
        used.push(s);
        start = s + sz;
    }
    assert_eq!(
        m.allocate_region(start, span - start, 32, Permissions::ReadOnly, &mut c),
        Err(MpuError::TableFull)
    );
    assert_eq!(c.region(APP_MEMORY_INDEX), None);
    let expected_slots = [0usize, 2, 3, 4, 5, 6, 7, 8, 9, 10];
    for (k, slot) in expected_slots.iter().enumerate() {
        let r = c.region(*slot).unwrap();
        assert_eq!(r.start(), used[k]);
        assert_eq!(r.end(), used[k] + 32);
        assert_eq!(r.permissions(), 0b100);
    }
}

#[test]
fn scenario_app_memory_region() {
    let m = mpu();
    let mut c = MK66Config::default();
    let r = m.allocate_app_memory_region(0x1000, 0x4000, 0x800, 0x400, 0x400, Permissions::ReadWriteOnly, &mut c);
    assert_eq!(r, Ok((0x1000, 0x800)));
    let region = c.region(APP_MEMORY_INDEX).unwrap();
    assert_eq!(region.start(), 0x1000);
    assert_eq!(region.end(), 0x1400);
    assert_eq!(region.permissions(), 0b110);
    assert_eq!(c.memory(), Some((0x1000, 0x800)));
}

#[test]
fn app_memory_gap_adds_one_unit() {
    let m = mpu();
    let mut c = MK66Config::default();
    // 0x410 + 0x3f0 = 0x800; the application part rounds to 0x420, and
    // 0x420 + 0x3f0 > 0x800, so one more 32-byte unit is reserved.
    let r = m.allocate_app_memory_region(0x1001, 0x4000, 0, 0x410, 0x3f0, Permissions::ReadWriteExecute, &mut c);
    assert_eq!(r, Ok((0x1020, 0x820)));
    let region = c.region(APP_MEMORY_INDEX).unwrap();
    assert_eq!(region.start(), 0x1020);
    assert_eq!(region.end(), 0x1440);
}

#[test]
fn app_memory_min_size_wins() {
    let m = mpu();
    let mut c = MK66Config::default();
    let r = m.allocate_app_memory_region(0, 0x10000, 0x2001, 0x100, 0x100, Permissions::ReadOnly, &mut c);
    assert_eq!(r, Ok((0, 0x2020)));
    assert_eq!(c.region(APP_MEMORY_INDEX).unwrap().end(), 0x100);
}

#[test]
fn app_memory_too_large_is_capacity_exhausted() {
    let m = mpu();
    let mut c = MK66Config::default();
    let r = m.allocate_app_memory_region(0x1000, 0x7ff, 0x800, 0x400, 0x400, Permissions::ReadOnly, &mut c);
    assert_eq!(r, Err(MpuError::CapacityExhausted));
    assert_eq!(c.region(APP_MEMORY_INDEX), None);
    assert_eq!(c.memory(), None);
}

#[test]
fn app_memory_replaces_previous_region() {
    let m = mpu();
    let mut c = MK66Config::default();
    m.allocate_app_memory_region(0x1000, 0x4000, 0x800, 0x400, 0x400, Permissions::ReadOnly, &mut c).unwrap();
    m.allocate_app_memory_region(0x8000, 0x4000, 0x800, 0x200, 0x400, Permissions::ReadWriteOnly, &mut c).unwrap();
    let region = c.region(APP_MEMORY_INDEX).unwrap();
    assert_eq!(region.start(), 0x8000);
    assert_eq!(region.end(), 0x8200);
    assert_eq!(c.memory(), Some((0x8000, 0x800)));
}

#[test]
fn update_without_app_region_fails() {
    let m = mpu();
    let mut c = MK66Config::default();
    assert_eq!(
        m.update_app_memory_region(0x1400, 0x2000, Permissions::ReadOnly, &mut c),
        Err(MpuError::NoActiveAppRegion)
    );
    c.set_region(APP_MEMORY_INDEX, Region::new(0x1000, 0x1400, Permissions::ReadOnly));
    assert_eq!(
        m.update_app_memory_region(0x1400, 0x2000, Permissions::ReadOnly, &mut c),
        Err(MpuError::NoActiveAppRegion)
    );
}

#[test]
fn update_grows_app_region() {
    let m = mpu();
    let mut c = MK66Config::default();
    m.allocate_app_memory_region(0x1000, 0x4000, 0x800, 0x400, 0x400, Permissions::ReadWriteOnly, &mut c).unwrap();
    assert_eq!(m.update_app_memory_region(0x1501, 0x1600, Permissions::ReadWriteOnly, &mut c), Ok(()));
    let region = c.region(APP_MEMORY_INDEX).unwrap();
    assert_eq!(region.start(), 0x1000);
    assert_eq!(region.end(), 0x1520);
    assert_eq!(c.memory(), Some((0x1000, 0x800)));
}

#[test]
fn update_is_idempotent() {
    let m = mpu();
    let mut c = MK66Config::default();
    m.allocate_app_memory_region(0x1000, 0x4000, 0x800, 0x400, 0x400, Permissions::ReadWriteOnly, &mut c).unwrap();
    assert_eq!(m.update_app_memory_region(0x1510, 0x1700, Permissions::ReadWriteOnly, &mut c), Ok(()));
    let first = c.region(APP_MEMORY_INDEX);
    assert_eq!(m.update_app_memory_region(0x1510, 0x1700, Permissions::ReadWriteOnly, &mut c), Ok(()));
    assert_eq!(c.region(APP_MEMORY_INDEX), first);
}

#[test]
fn update_past_kernel_break_fails() {
    let m = mpu();
    let mut c = MK66Config::default();
    m.allocate_app_memory_region(0x1000, 0x4000, 0x800, 0x400, 0x400, Permissions::ReadWriteOnly, &mut c).unwrap();
    // 0x1601 rounds to 0x1620, past the kernel break.
    assert_eq!(
        m.update_app_memory_region(0x1601, 0x1610, Permissions::ReadWriteOnly, &mut c),
        Err(MpuError::GrowthExceedsKernelReserve)
    );
    assert_eq!(c.region(APP_MEMORY_INDEX).unwrap().end(), 0x1400);
    // Exactly at the kernel break is allowed.
    assert_eq!(m.update_app_memory_region(0x1601, 0x1620, Permissions::ReadWriteOnly, &mut c), Ok(()));
}

#[test]
fn region_count_codes() {
    assert_eq!(mpu_with(0x0000_0000).number_total_regions(), Ok(8));
    assert_eq!(mpu_with(0x0081_5101).number_total_regions(), Ok(12));
    assert_eq!(mpu_with(0x0000_0200).number_total_regions(), Ok(16));
    assert_eq!(
        mpu_with(0x0000_0300).number_total_regions(),
        Err(MpuError::UnknownRegionCountEncoding)
    );
    assert_eq!(
        mpu_with(0xffff_ffff).number_total_regions(),
        Err(MpuError::UnknownRegionCountEncoding)
    );
}

#[test]
fn enable_and_disable_toggle_valid_bit() {
    let mut m = mpu_with(0x0081_5100);
    m.enable_mpu();
    assert_eq!(m.registers.cesr, 0x0081_5101);
    m.enable_mpu();
    assert_eq!(m.registers.cesr, 0x0081_5101);
    m.disable_mpu();
    assert_eq!(m.registers.cesr, 0x0081_5100);
}

#[test]
fn configure_restricts_descriptor_zero() {
    let mut regs = MpuRegisters::new(0x0000_0100);
    regs.rgdaac[0] = 0x0061_f7df;
    regs.rgdaac[1] = 0x1234_5678;
    regs.rgd_word3[0] = 1;
    let mut m = Mpu::new(regs);
    m.configure_mpu(&MK66Config::default());
    assert_eq!(m.registers.rgdaac[0], 0x0061_f7c0);
    assert_eq!(m.registers.rgdaac[1], 0x1234_5678);
    assert_eq!(m.registers.rgd_word3[0], 1);
}

#[test]
fn scenario_configure_marks_descriptors() {
    let mut regs = MpuRegisters::new(0x0000_0100);
    for d in 0..12 {
        regs.rgd_word3[d] = 1;
    }
    let mut m = Mpu::new(regs);
    let mut c = MK66Config::default();
    c.set_region(0, Region::new(0x2000, 0x2100, Permissions::ReadOnly));
    c.set_region(3, Region::new(0x4000, 0x4040, Permissions::ReadWriteExecute));
    m.configure_mpu(&c);
    assert_eq!(m.registers.rgd_word3[1], 1);
    assert_eq!(m.registers.rgd_word3[4], 1);
    for d in [2usize, 3, 5, 6, 7, 8, 9, 10, 11] {
        assert_eq!(m.registers.rgd_word3[d], 0);
    }
    assert_eq!(m.registers.rgd_word0[1], 0x2000);
    assert_eq!(m.registers.rgd_word1[1], 0x2100);
    assert_eq!(m.registers.rgd_word2[1], 0b100);
    assert_eq!(m.registers.rgd_word0[4], 0x4000);
    assert_eq!(m.registers.rgd_word1[4], 0x4040);
    assert_eq!(m.registers.rgd_word2[4], 0b111);
    assert_eq!(m.registers.cesr, 0x0000_0100);
}

#[test]
fn configure_after_allocation() {
    let mut m = mpu();
    let mut c = MK66Config::default();
    m.allocate_app_memory_region(0x2000_0000, 0x1_0000, 0x1000, 0x800, 0x400, Permissions::ReadWriteOnly, &mut c).unwrap();
    m.allocate_region(0x0001_0003, 0x1000, 0x100, Permissions::ReadExecuteOnly, &mut c).unwrap();
    m.configure_mpu(&c);
    assert_eq!(m.registers.rgd_word0[1], 0x0001_0020);
    assert_eq!(m.registers.rgd_word1[1], 0x0001_0120);
    assert_eq!(m.registers.rgd_word2[1], 0b101);
    assert_eq!(m.registers.rgd_word0[2], 0x2000_0000);
    assert_eq!(m.registers.rgd_word1[2], 0x2000_0800);
    assert_eq!(m.registers.rgd_word2[2], 0b110);
    assert_eq!(m.registers.rgd_word3[2], 1);
    assert_eq!(m.registers.rgd_word3[3], 0);
}

#[test]
fn writer_enables_transmitter_once() {
    let mut w = Writer::new();
    assert!(!w.is_initialized());
    assert!(w.begin_write());
    assert!(w.is_initialized());
    assert!(!w.begin_write());
    assert!(!w.begin_write());
}

#[test]
fn update_with_break_past_address_space_fails() {
    let m = mpu();
    let mut c = MK66Config::default();
    assert_eq!(
        m.update_app_memory_region(0xffff_fff0, 0xffff_ffff, Permissions::ReadOnly, &mut c),
        Err(MpuError::NoActiveAppRegion)
    );
    m.allocate_app_memory_region(0x1000, 0x4000, 0x800, 0x400, 0x400, Permissions::ReadWriteOnly, &mut c).unwrap();
    assert_eq!(
        m.update_app_memory_region(0xffff_fff0, 0xffff_ffff, Permissions::ReadWriteOnly, &mut c),
        Err(MpuError::GrowthExceedsKernelReserve)
    );
    assert_eq!(c.region(APP_MEMORY_INDEX).unwrap().end(), 0x1400);
}

#[test]
fn configure_grants_supervisor_full_access() {
    let mut regs = MpuRegisters::new(0x0000_0100);
    regs.rgd_word2[1] = 0xffff_ffff;
    let mut m = Mpu::new(regs);
    let mut c = MK66Config::default();
    c.set_region(0, Region::new(0x2000, 0x2100, Permissions::ExecuteOnly));
    m.configure_mpu(&c);
    let w = m.registers.rgd_word2[1];
    assert_eq!(w & 0x7, 0b001);
    assert_eq!((w >> 3) & 0x3, 0);
    assert_eq!(w, 0b001);
}
