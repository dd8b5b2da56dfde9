use remu::Mmu;
use remu::VirtAddr;

#[test]
fn lib_test_read_write() {
    let dat = vec![1, 2, 3, 4];
    let addr = VirtAddr(0);
    let mut mmu = Mmu::new(128);

    mmu.write_from(addr, &dat);
    assert_eq!(dat, mmu.read(addr, dat.len()));
}

#[test]
fn mmu_test_read_write() {
    let dat = vec![1, 2, 3, 4];
    let addr = VirtAddr(0);
    let mut mmu = Mmu::new(128);

    mmu.write_from(addr, &dat);
    assert_eq!(dat, mmu.read(addr, dat.len()));

    let mut dat2 = vec![0; 4];
    mmu.read_into(addr, &mut dat2);
    assert_eq!(dat, dat2);
}

#[test]
fn test_segment_loading() {
    let mut mmu = Mmu::new(0x2000);
    mmu.load_segment(VirtAddr(0), &vec![1, 2, 3, 4]);
    mmu.load_segment(VirtAddr(0x1000), &vec![5, 6, 7, 8]);

    assert_eq!(mmu.read(VirtAddr(0), 4), vec![1, 2, 3, 4]);
    assert_eq!(mmu.read(VirtAddr(0x1000), 4), vec![5, 6, 7, 8]);
    let between = mmu.read(VirtAddr(4), 0x1000 - 4);
    assert!(between.iter().all(|&b| b == 0));
}

#[test]
fn test_allocate_cursor() {
    let mut mmu = Mmu::new(0x2000);
    assert_eq!(mmu.allocate(16), VirtAddr(0));
    assert_eq!(mmu.allocate(8), VirtAddr(16));

    let mut mmu2 = Mmu::new(0x2000);
    mmu2.load_segment(VirtAddr(0x1000), &vec![5, 6, 7, 8]);
    assert_eq!(mmu2.allocate(32), VirtAddr(0x1004));
}

#[test]
fn test_fixed_width_little_endian() {
    let mut mmu = Mmu::new(64);
    mmu.write_u32(VirtAddr(0), 0x1122_3344);
    assert_eq!(mmu.read_u8(VirtAddr(0)), 0x44);
    assert_eq!(mmu.read_u8(VirtAddr(3)), 0x11);
    assert_eq!(mmu.read_u16(VirtAddr(0)), 0x3344);
    assert_eq!(mmu.read_u32(VirtAddr(0)), 0x1122_3344);

    mmu.write_u64(VirtAddr(8), 0x0102_0304_0506_0708);
    assert_eq!(mmu.read_u64(VirtAddr(8)), 0x0102_0304_0506_0708);
    assert_eq!(mmu.read_u8(VirtAddr(8)), 0x08);
    assert_eq!(mmu.read_u8(VirtAddr(15)), 0x01);

    mmu.write_u16(VirtAddr(20), 0xBEEF);
    assert_eq!(mmu.read_u16(VirtAddr(20)), 0xBEEF);

    // A store writes only the low bytes of a wide register value.
    mmu.write_u8(VirtAddr(30), 0xABCD);
    assert_eq!(mmu.read_u8(VirtAddr(30)), 0xCD);
}

#[test]
fn test_entry_point_recording() {
    let mut mmu = Mmu::new(64);
    assert!(mmu.get_entry_point().is_none());
    mmu.set_entry_point(VirtAddr(0x10));
    assert_eq!(mmu.get_entry_point(), Some(VirtAddr(0x10)));
}
