//! The uniform device-variant interface.

use vgic::device::{create_gic, GICDevice};
use vgic::mem_transport::MemTransport;

#[test]
fn plain_variant_has_no_msi() {
    let gic = create_gic(MemTransport::new(), None, 4).unwrap();
    assert!(!gic.msi_compatible());
    assert_eq!(gic.msi_compatibility(), "");
    assert!(gic.msi_properties().is_empty());
    assert_eq!(gic.id(), "gic-v3");
    assert_eq!(gic.vcpu_count(), 4);
}

#[test]
fn its_variant_advertises_msi() {
    let gic = create_gic(MemTransport::new(), Some(MemTransport::new()), 4).unwrap();
    assert!(gic.msi_compatible());
    assert_eq!(gic.msi_compatibility(), "arm,gic-v3-its");
    assert_eq!(gic.msi_properties(), vec![0x3FF5_0000, 0x2_0000]);
    assert_eq!(gic.id(), "gic-v3-its");
    assert!(matches!(gic, GICDevice::V3Its(_)));
}

#[test]
fn device_properties_follow_the_layout() {
    let gic = create_gic(MemTransport::new(), None, 4).unwrap();
    assert_eq!(
        gic.device_properties(),
        vec![0x3FFF_0000, 0x1_0000, 0x3FF7_0000, 0x8_0000]
    );
    assert_eq!(gic.fdt_compatibility(), "arm,gic-v3");
    assert_eq!(gic.fdt_maint_irq(), 9);
}

#[test]
fn snapshot_and_restore_dispatch_through_the_sum_type() {
    let mut gic = create_gic(MemTransport::new(), Some(MemTransport::new()), 2).unwrap();
    gic.set_gicr_typers(vec![0, 1 << 32]);
    let snap = gic.snapshot().unwrap();
    assert_eq!(snap.id, "gic-v3-its");
    assert_eq!(snap.sections.len(), 1);
    assert_eq!(snap.sections[0].id, "gic-v3-its-section");

    let mut gic2 = create_gic(MemTransport::new(), Some(MemTransport::new()), 2).unwrap();
    gic2.set_gicr_typers(vec![0, 1 << 32]);
    gic2.restore(snap).unwrap();
}

#[test]
fn pause_and_resume_are_no_ops() {
    let mut gic = create_gic(MemTransport::new(), None, 1).unwrap();
    gic.set_gicr_typers(vec![0]);
    assert!(gic.pause().is_ok());
    assert!(gic.resume().is_ok());
}
