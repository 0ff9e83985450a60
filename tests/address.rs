use silicium_x86_64::address::{InvalidPhysical, InvalidVirtual, Physical, Virtual};
use std::mem::size_of;

#[test]
fn address_struct_size_checks() {
    assert_eq!(size_of::<InvalidPhysical>(), 8);
    assert_eq!(size_of::<InvalidVirtual>(), 8);
    assert_eq!(size_of::<Physical>(), 8);
    assert_eq!(size_of::<Virtual>(), 8);
}

#[test]
fn physical_align_tests() {
    assert_eq!(Physical::new(0x1001u64).align_up(0x1000u64), Physical::new(0x2000u64));
    assert_eq!(Physical::new(0x1000u64).align_up(0x1000u64), Physical::new(0x1000u64));
    assert_eq!(Physical::new(0x1000u64).align_down(0x1000u64), Physical::new(0x1000u64));
    assert_eq!(Physical::new(0x1000u64).align_down(0x1000u64), Physical::new(0x1000u64));
    assert!(Physical::new(0x1000).is_aligned(0x1000u64));
    assert!(!Physical::new(0x1001u64).is_aligned(0x1000u64));
}

#[test]
fn virtual_align_tests() {
    assert_eq!(Virtual::new(0x1001u64).align_up(0x1000u64), Virtual::new(0x2000u64));
    assert_eq!(Virtual::new(0x1000u64).align_up(0x1000u64), Virtual::new(0x1000u64));
    assert_eq!(Virtual::new(0x1000u64).align_down(0x1000u64), Virtual::new(0x1000u64));
    assert_eq!(Virtual::new(0x1000u64).align_down(0x1000u64), Virtual::new(0x1000u64));
    assert!(Virtual::new(0x1000u64).is_aligned(0x1000u64));
    assert!(!Virtual::new(0x1001u64).is_aligned(0x1000u64));
}

#[test]
fn physical_add_checks() {
    assert_eq!(Physical::new(0x1000) + Physical::new(0x2000), Physical::new(0x3000));
    assert_eq!(Physical::new(0x1000) + 0x2000u64, Physical::new(0x3000));
    assert_eq!(Physical::new(0x1000) + 0x2000usize, Physical::new(0x3000));

    let mut x = Physical::new(0x1000);
    x += Physical::new(0x2000);
    assert_eq!(x, Physical::new(0x3000));

    let mut x = Physical::new(0x1000);
    x += 0x2000u64;
    assert_eq!(x, Physical::new(0x3000));

    let mut x = Physical::new(0x1000);
    x += 0x2000usize;
    assert_eq!(x, Physical::new(0x3000));
}

#[test]
fn physical_sub_checks() {
    assert_eq!(Physical::new(0x3000) - Physical::new(0x2000), Physical::new(0x1000));
    assert_eq!(Physical::new(0x3000) - 0x2000u64, Physical::new(0x1000));
    assert_eq!(Physical::new(0x3000) - 0x2000usize, Physical::new(0x1000));

    let mut x = Physical::new(0x3000);
    x -= Physical::new(0x2000);
    assert_eq!(x, Physical::new(0x1000));

    let mut x = Physical::new(0x3000);
    x -= 0x2000u64;
    assert_eq!(x, Physical::new(0x1000));

    let mut x = Physical::new(0x3000);
    x -= 0x2000usize;
    assert_eq!(x, Physical::new(0x1000));
}

#[test]
fn virtual_add_checks() {
    assert_eq!(Virtual::new(0x1000) + Virtual::new(0x2000), Virtual::new(0x3000));
    assert_eq!(Virtual::new(0x1000) + 0x2000u64, Virtual::new(0x3000));
    assert_eq!(Virtual::new(0x1000) + 0x2000usize, Virtual::new(0x3000));

    let mut x = Virtual::new(0x1000);
    x += Virtual::new(0x2000);
    assert_eq!(x, Virtual::new(0x3000));

    let mut x = Virtual::new(0x1000);
    x += 0x2000u64;
    assert_eq!(x, Virtual::new(0x3000));

    let mut x = Virtual::new(0x1000);
    x += 0x2000usize;
    assert_eq!(x, Virtual::new(0x3000));
}

#[test]
fn virtual_sub_checks() {
    assert_eq!(Virtual::new(0x3000) - Virtual::new(0x2000), Virtual::new(0x1000));
    assert_eq!(Virtual::new(0x3000) - 0x2000u64, Virtual::new(0x1000));
    assert_eq!(Virtual::new(0x3000) - 0x2000usize, Virtual::new(0x1000));

    let mut x = Virtual::new(0x3000);
    x -= Virtual::new(0x2000);
    assert_eq!(x, Virtual::new(0x1000));

    let mut x = Virtual::new(0x3000);
    x -= 0x2000u64;
    assert_eq!(x, Virtual::new(0x1000));

    let mut x = Virtual::new(0x3000);
    x -= 0x2000usize;
    assert_eq!(x, Virtual::new(0x1000));
}

#[test]
fn virtual_truncate_test() {
    assert_eq!(Virtual::new_truncate(0), Virtual::new(0));
    assert_eq!(Virtual::new_truncate(1 << 47), Virtual::new(0xFFFFF << 47));
    assert_eq!(Virtual::new_truncate(0xFF), Virtual::new(0xFF));
    assert_eq!(Virtual::new_truncate(0xFF << 47), Virtual::new(0xFFFFF << 47));
}

#[test]
fn virtual_page_index_checks() {
    let address = 0xFFFF_8000_DEAF_BEEF;
    let v = Virtual::new(address);
    assert_eq!(v.page_offset(), address & 0xFFF);
    assert_eq!(v.pt_offset(), (address >> 12) & 0x1FF);
    assert_eq!(v.pd_offset(), (address >> 21) & 0x1FF);
    assert_eq!(v.pdpt_offset(), (address >> 30) & 0x1FF);
    assert_eq!(v.pml4_offset(), (address >> 39) & 0x1FF);
    assert_eq!(v.pml5_offset(), (address >> 48) & 0x1FF);
}

#[test]
fn virtual_page_index_by_level() {
    let address = 0xFFFF_8000_DEAF_BEEFu64;
    let v = Virtual::new(address);
    for level in 1..=5u64 {
        assert_eq!(v.page_index(level), (address >> (12 + 9 * (level - 1))) & 0x1FF);
    }
    assert_eq!(v.pt_offset(), 0xFB);
    assert_eq!(v.pd_offset(), 0xF5);
    assert_eq!(v.pdpt_offset(), 0x3);
    assert_eq!(v.pml4_offset(), 0x100);
    assert_eq!(v.pml5_offset(), 0x1FF);
    assert_eq!(v.page_offset(), 0xEEF);
}

#[test]
fn virtual_try_new_accepts_canonical_values() {
    assert!(Virtual::try_new(0).is_ok());
    assert!(Virtual::try_new(0x0000_7FFF_FFFF_FFFF).is_ok());
    assert!(Virtual::try_new(0xFFFF_8000_0000_0000).is_ok());
    assert!(Virtual::try_new(u64::MAX).is_ok());
    assert_eq!(Virtual::try_new(0x1234).unwrap().as_u64(), 0x1234);
}

#[test]
fn virtual_try_new_rejects_non_canonical_values() {
    assert!(Virtual::try_new(0x0000_8000_0000_0000).is_err());
    assert!(Virtual::try_new(0xFFFF_7FFF_FFFF_FFFF).is_err());
    assert!(Virtual::try_new(0x000F_8000_0000_0000).is_err());
    assert!(Virtual::try_new(0x0001_0000_0000_0000).is_err());
    assert!(Virtual::try_new(0xFFFF_0000_0000_0000).is_err());
    assert!(matches!(Virtual::try_new(0x8000_0000_0000_0000), Err(InvalidVirtual { .. })));
}

#[test]
fn physical_try_new_checks_52_bits() {
    assert!(Physical::try_new(0).is_ok());
    assert!(Physical::try_new(0x000F_FFFF_FFFF_FFFF).is_ok());
    assert!(Physical::try_new(0x0010_0000_0000_0000).is_err());
    assert!(Physical::try_new(u64::MAX).is_err());
    assert_eq!(Physical::try_new(0xABC000).unwrap().as_u64(), 0xABC000);
}

#[test]
fn canonical_boundaries() {
    assert_eq!(Virtual::new(0x0000_7FFF_FFFF_FFFF).as_u64(), 0x0000_7FFF_FFFF_FFFF);
    assert!(!Virtual::is_canonical(0x0000_8000_0000_0000));
    assert!(Virtual::try_new(0x0000_8000_0000_0000).is_err());
    assert_eq!(Physical::new(0x000F_FFFF_FFFF_FFFF).as_u64(), 0x000F_FFFF_FFFF_FFFF);
    assert!(Physical::try_new(0x0010_0000_0000_0000).is_err());
}

#[test]
fn truncating_constructors() {
    assert_eq!(Virtual::new_truncate(0x0000_8000_0000_1000).as_u64(), 0xFFFF_8000_0000_1000);
    assert_eq!(Virtual::new_truncate(0x1234_5678_9ABC_DEF0).as_u64(), 0x0000_5678_9ABC_DEF0);
    assert_eq!(Physical::new_truncate(0xFFF0_0000_0000_1234).as_u64(), 0x1234);
    assert_eq!(Physical::new_truncate(0x0010_0000_0000_0001).as_u64(), 1);
}

#[test]
fn alignment_brackets_the_address() {
    let a = Virtual::new(0xFFFF_8000_1234_5678);
    for shift in [0u32, 3, 12, 21, 30] {
        let n = 1u64 << shift;
        let down = a.align_down(n);
        let up = a.align_up(n);
        assert!(down.as_u64() <= a.as_u64() && a.as_u64() <= up.as_u64());
        assert!(down.is_aligned(n) && up.is_aligned(n));
    }
    let p = Physical::new(0x1234_5678);
    let down = p.align_down(0x1000);
    let up = p.align_up(0x1000);
    assert_eq!(down.as_u64(), 0x1234_5000);
    assert_eq!(up.as_u64(), 0x1234_6000);
}

#[test]
fn aligning_up_into_the_upper_half_sign_extends() {
    let a = Virtual::new(0x0000_7FFF_FFFF_F001);
    assert_eq!(a.align_up(0x1000).as_u64(), 0xFFFF_8000_0000_0000);
    assert_eq!(a.page_align_up().as_u64(), 0xFFFF_8000_0000_0000);
}

#[test]
fn page_alignment_helpers() {
    let v = Virtual::new(0x1234);
    assert_eq!(v.page_align_down().as_u64(), 0x1000);
    assert_eq!(v.page_align_up().as_u64(), 0x2000);
    assert!(!v.is_page_aligned());
    assert!(Virtual::new(0x3000).is_page_aligned());
    let p = Physical::new(0x5678);
    assert_eq!(p.page_align_down().as_u64(), 0x5000);
    assert_eq!(p.page_align_up().as_u64(), 0x6000);
    assert!(!p.is_page_aligned());
    assert_eq!(p.frame_index(), 5);
}

#[test]
fn address_space_halves() {
    assert!(Virtual::new(0xFFFF_8000_0000_0000).is_kernel());
    assert!(!Virtual::new(0xFFFF_8000_0000_0000).is_user());
    assert!(Virtual::new(0x0000_7FFF_FFFF_FFFF).is_user());
    assert!(!Virtual::new(0x0000_7FFF_FFFF_FFFF).is_kernel());
}

#[test]
fn null_addresses() {
    assert!(Virtual::null().is_null());
    assert!(Virtual::zero().is_null());
    assert!(Physical::null().is_null());
    assert!(Physical::zero().is_null());
    assert!(!Virtual::new(1).is_null());
    assert!(!Physical::new(1).is_null());
}

#[test]
fn compound_assignment_keeps_invalid_results_out() {
    let mut v = Virtual::new(0x0000_7FFF_FFFF_F000);
    v += 0x1000u64;
    assert_eq!(v.as_u64(), 0x0000_7FFF_FFFF_F000);
    let mut p = Physical::new(0x1000);
    p -= 0x2000u64;
    assert_eq!(p.as_u64(), 0x1000);
    let mut p = Physical::new(0x000F_FFFF_FFFF_F000);
    p += 0x1000usize;
    assert_eq!(p.as_u64(), 0x000F_FFFF_FFFF_F000);
}
