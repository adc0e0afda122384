//! The in/out register-access helpers of the attribute transport.

use vgic::mem_transport::MemTransport;
use vgic::transport::{
    gic_v3_its_attr_access_32, gic_v3_its_attr_access_64, gicv3_its_attr_access,
    KVM_DEV_ARM_VGIC_GRP_DIST_REGS, KVM_DEV_ARM_VGIC_GRP_ITS_REGS,
};

#[test]
fn attr_access_64_reads_back_what_it_wrote() {
    let mut dev = MemTransport::new();
    let mut val: u64 = 0x1234_5678_9ABC_DEF0;
    gicv3_its_attr_access(&mut dev, KVM_DEV_ARM_VGIC_GRP_ITS_REGS, 0x80, &mut val, true).unwrap();
    let mut out: u64 = 0;
    gic_v3_its_attr_access_64(&mut dev, KVM_DEV_ARM_VGIC_GRP_ITS_REGS, 0x80, &mut out, false)
        .unwrap();
    assert_eq!(out, 0x1234_5678_9ABC_DEF0);
}

#[test]
fn attr_access_32_reads_back_what_it_wrote() {
    let mut dev = MemTransport::new();
    let mut val: u32 = 0xAB;
    gic_v3_its_attr_access_32(&mut dev, KVM_DEV_ARM_VGIC_GRP_DIST_REGS, 0x10, &mut val, true)
        .unwrap();
    let mut out: u32 = 0;
    gic_v3_its_attr_access_32(&mut dev, KVM_DEV_ARM_VGIC_GRP_DIST_REGS, 0x10, &mut out, false)
        .unwrap();
    assert_eq!(out, 0xAB);
}

#[test]
fn an_unwritten_register_reads_as_zero() {
    let mut dev = MemTransport::new();
    let mut out: u64 = 7;
    gic_v3_its_attr_access_64(&mut dev, KVM_DEV_ARM_VGIC_GRP_ITS_REGS, 0x90, &mut out, false)
        .unwrap();
    assert_eq!(out, 0);
}
