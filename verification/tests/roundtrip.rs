//! Capture/restore round trips through the serialized snapshot.

use vgic::gicv3::KvmGICv3;
use vgic::gicv3_its::KvmGICv3ITS;
use vgic::mem_transport::MemTransport;
use vgic::transport::{
    KVM_DEV_ARM_VGIC_GRP_CPU_SYSREGS, KVM_DEV_ARM_VGIC_GRP_DIST_REGS,
    KVM_DEV_ARM_VGIC_GRP_ITS_REGS, KVM_DEV_ARM_VGIC_GRP_REDIST_REGS,
};

/// A GICv3 whose distributor control register reads as 0x3 is captured,
/// serialized, restored into a second controller, and reads back as 0x3.
#[test]
fn ctlr_survives_the_snapshot() {
    let mut dev = MemTransport::new();
    dev.preset(KVM_DEV_ARM_VGIC_GRP_DIST_REGS, 0x0, 0x3); // groups 0 and 1 enabled
    let mut gic = KvmGICv3::new(dev, 1).unwrap();
    gic.set_gicr_typers(vec![0]);

    let snap = gic.snapshot().unwrap();
    let before = gic.state().unwrap();
    assert_eq!(before.gicd_ctlr, 0x3);

    let mut gic2 = KvmGICv3::new(MemTransport::new(), 1).unwrap();
    gic2.set_gicr_typers(vec![0]);
    gic2.restore(snap).unwrap();

    let after = gic2.state().unwrap();
    assert_eq!(after.gicd_ctlr, 0x3);
    assert_eq!(before, after);
}

/// Restore followed by capture yields a byte-identical state record, with
/// several register classes populated and four vCPUs.
#[test]
fn gicv3_restore_then_capture_is_identity() {
    let mut dev = MemTransport::new();
    dev.preset(KVM_DEV_ARM_VGIC_GRP_DIST_REGS, 0x4, 0x2); // type register: 96 lines
    dev.preset(KVM_DEV_ARM_VGIC_GRP_DIST_REGS, 0x0, 0x3);
    dev.preset(KVM_DEV_ARM_VGIC_GRP_DIST_REGS, 0x10, 0xAB); // status register
    dev.preset(KVM_DEV_ARM_VGIC_GRP_DIST_REGS, 0x104, 0xFFFF_0001); // an enable bank
    let typers: Vec<u64> = vec![0, 1 << 32, 2 << 32, 3 << 32];
    // One redistributor and one CPU-interface register of vCPU 2.
    dev.preset(KVM_DEV_ARM_VGIC_GRP_REDIST_REGS, (2 << 32) | 0x14, 0x7);
    dev.preset(KVM_DEV_ARM_VGIC_GRP_CPU_SYSREGS, (2 << 32) | 0xC230, 0xF0);

    let mut gic = KvmGICv3::new(dev, 4).unwrap();
    gic.set_gicr_typers(typers.clone());
    let snap = gic.snapshot().unwrap();
    let before = gic.state().unwrap();

    let mut dev2 = MemTransport::new();
    dev2.preset(KVM_DEV_ARM_VGIC_GRP_DIST_REGS, 0x4, 0x2); // same distributor sizing
    let mut gic2 = KvmGICv3::new(dev2, 4).unwrap();
    gic2.set_gicr_typers(typers);
    gic2.restore(snap).unwrap();

    let after = gic2.state().unwrap();
    assert_eq!(before, after);
}

/// The ITS variant round-trips the GIC block and the ITS registers.
#[test]
fn gicv3_its_restore_then_capture_is_identity() {
    let mut gd = MemTransport::new();
    gd.preset(KVM_DEV_ARM_VGIC_GRP_DIST_REGS, 0x0, 0x3);
    gd.preset(KVM_DEV_ARM_VGIC_GRP_DIST_REGS, 0x10, 0x5);
    let mut itsd = MemTransport::new();
    itsd.preset(KVM_DEV_ARM_VGIC_GRP_ITS_REGS, 0x0000, 0x1); // ITS control
    itsd.preset(KVM_DEV_ARM_VGIC_GRP_ITS_REGS, 0x0080, 0xDEAD_0000); // command-queue base
    itsd.preset(KVM_DEV_ARM_VGIC_GRP_ITS_REGS, 0x0090, 0x40); // read pointer
    itsd.preset(KVM_DEV_ARM_VGIC_GRP_ITS_REGS, 0x0100, 0x11); // first table descriptor
    itsd.preset(KVM_DEV_ARM_VGIC_GRP_ITS_REGS, 0x0138, 0x88); // last table descriptor

    let typers: Vec<u64> = vec![0, 1 << 32];
    let mut gic = KvmGICv3ITS::new(gd, itsd, 2).unwrap();
    gic.set_gicr_typers(typers.clone());
    let snap = gic.snapshot().unwrap();
    let before = gic.state().unwrap();
    assert_eq!(before.its_cbaser, 0xDEAD_0000);
    assert_eq!(before.its_baser, vec![0x11, 0, 0, 0, 0, 0, 0, 0x88]);

    let mut gic2 = KvmGICv3ITS::new(MemTransport::new(), MemTransport::new(), 2).unwrap();
    gic2.set_gicr_typers(typers);
    gic2.restore(snap).unwrap();

    let after = gic2.state().unwrap();
    assert_eq!(before, after);
    assert_eq!(after.gic.gicd_ctlr, 0x3);
}
