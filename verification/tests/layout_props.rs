//! Memory-layout properties of the virtual GIC.

use vgic::layout;
use vgic::mem_transport::MemTransport;
use vgic::gicv3::KvmGICv3;
use vgic::gicv3_its::KvmGICv3ITS;

#[test]
fn redistributor_size_for_four_vcpus() {
    // Four vCPUs at two 64 KiB frames each.
    assert_eq!(layout::get_redists_size(4), 4 * 131072);
    assert_eq!(layout::get_redists_size(4), 524288);
    assert_eq!(KvmGICv3::<MemTransport>::get_redists_size(4), 524288);
}

#[test]
fn distributor_sits_below_the_mmio_hole() {
    assert_eq!(layout::get_dist_addr(), 0x4000_0000 - 0x1_0000);
    assert_eq!(layout::get_dist_addr(), 0x3FFF_0000);
    assert_eq!(layout::get_dist_size(), 0x1_0000);
}

#[test]
fn region_derivation_is_internally_consistent() {
    for vcpus in [1u64, 2, 4, 8, 510, 8190] {
        let dist_addr = layout::get_dist_addr();
        let redists_size = layout::get_redists_size(vcpus);
        let redists_addr = layout::get_redists_addr(vcpus);
        let msi_addr = layout::get_msi_addr(vcpus);
        let msi_size = layout::get_msi_size();
        assert_eq!(redists_size, vcpus * 2 * 65536);
        assert_eq!(redists_addr, dist_addr - redists_size);
        assert_eq!(msi_addr, redists_addr - 2 * 65536);
        // The three regions never overlap.
        assert!(msi_addr + msi_size <= redists_addr);
        assert!(redists_addr + redists_size <= dist_addr);
        assert!(dist_addr + layout::get_dist_size() <= 0x4000_0000);
        assert!(msi_addr > 0);
    }
}

#[test]
fn concrete_addresses_for_four_vcpus() {
    assert_eq!(layout::get_redists_addr(4), 0x3FF7_0000);
    assert_eq!(KvmGICv3ITS::<MemTransport>::get_msi_addr(4), 0x3FF5_0000);
    assert_eq!(KvmGICv3ITS::<MemTransport>::get_msi_size(), 0x2_0000);
}

#[test]
fn maintenance_interrupt_is_nine() {
    assert_eq!(layout::ARCH_GIC_V3_MAINT_IRQ, 9);
}
