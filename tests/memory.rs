use lyuu_commons::memory_layout::{
    clint_mtimecmp, plic_mclaim, plic_menable, plic_mpriority, plic_sclaim, plic_senable,
    plic_spriority, CLINT_MTINE, PHYSTOP, PLIC_PENDING,
};

#[test]
fn device_addresses() {
    assert_eq!(clint_mtimecmp(0), 0x200_4000);
    assert_eq!(clint_mtimecmp(3), 0x200_4018);
    assert_eq!(plic_menable(1), 0x0c00_2100);
    assert_eq!(plic_senable(1), 0x0c00_2180);
    assert_eq!(plic_mpriority(2), 0x0c20_4000);
    assert_eq!(plic_spriority(2), 0x0c20_5000);
    assert_eq!(plic_mclaim(1), 0x0c20_2004);
    assert_eq!(plic_sclaim(1), 0x0c20_3004);
    assert_eq!(CLINT_MTINE, 0x200_0000 + 0xbff8);
    assert_eq!(PLIC_PENDING, 0x0c00_0000 + 0x1000);
    assert_eq!(PHYSTOP, 0x8000_0000 + 128 * 1024 * 1024);
}
