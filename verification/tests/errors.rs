//! Error propagation: each failure names its register class and direction,
//! and the snapshot-level failures are distinct and touch no register.

use vgic::gicv3;
use vgic::gicv3_its;
use vgic::gicv3_its::KvmGICv3ITS;
use vgic::gicv3::KvmGICv3;
use vgic::mem_transport::MemTransport;
use vgic::snapshot::{GicError, MigratableError, Snapshot, SnapshotDataSection};
use vgic::transport::{KVM_DEV_ARM_VGIC_GRP_CTRL, KVM_DEV_ARM_VGIC_GRP_DIST_REGS};

fn v3_snapshot() -> Snapshot {
    let mut gic = KvmGICv3::new(MemTransport::new(), 1).unwrap();
    gic.set_gicr_typers(vec![0]);
    gic.snapshot().unwrap()
}

/// A failing distributor-register write during restore is reported under
/// the distributor class, not a generic failure.
#[test]
fn failing_distributor_write_names_the_distributor() {
    let snap = v3_snapshot();
    let mut dev = MemTransport::new();
    // The first distributor word written after the control register is the
    // status register.
    dev.preset(KVM_DEV_ARM_VGIC_GRP_DIST_REGS, 0x10, 0);
    dev.arm_failure(KVM_DEV_ARM_VGIC_GRP_DIST_REGS, 0x10);
    let mut gic = KvmGICv3::new(dev, 1).unwrap();
    gic.set_gicr_typers(vec![0]);
    let err = gic.restore(snap).unwrap_err();
    assert!(matches!(
        err,
        MigratableError::Restore(GicError::V3(gicv3::Error::RestoreDistributorRegisters(_)))
    ));
}

/// A failing control-register write is reported under its own class.
#[test]
fn failing_ctlr_write_names_the_ctlr_class() {
    let snap = v3_snapshot();
    let mut dev = MemTransport::new();
    dev.arm_failure(KVM_DEV_ARM_VGIC_GRP_DIST_REGS, 0x0);
    let mut gic = KvmGICv3::new(dev, 1).unwrap();
    gic.set_gicr_typers(vec![0]);
    let err = gic.restore(snap).unwrap_err();
    assert!(matches!(
        err,
        MigratableError::Restore(GicError::V3(gicv3::Error::RestoreDistributorCtrlRegisters(_)))
    ));
}

/// A failing pending-table flush during capture is reported under its own
/// save-direction class.
#[test]
fn failing_flush_names_the_pending_tables() {
    // Arm the failure against the flush operation only; the setup
    // protocol's own control operation uses a different attribute.
    let mut dev = MemTransport::new();
    dev.arm_failure(KVM_DEV_ARM_VGIC_GRP_CTRL, 3);
    let mut gic = KvmGICv3::create_device(dev, 1);
    gic.init_device_attributes().unwrap();
    gic.finalize_device().unwrap();
    gic.set_gicr_typers(vec![0]);
    let err = gic.state().unwrap_err();
    assert!(matches!(err, gicv3::Error::SavePendingTables(_)));
}

/// A missing section is its own error, and no register access is made:
/// deserialization is never even attempted.
#[test]
fn missing_section_is_reported_and_touches_nothing() {
    let mut gic = KvmGICv3::new(MemTransport::new(), 1).unwrap();
    gic.set_gicr_typers(vec![0]);
    let ops_before = gic.device().log.len();
    let err = gic.restore(Snapshot::new("gic-v3")).unwrap_err();
    assert!(matches!(err, MigratableError::SectionNotFound));
    assert_eq!(gic.device().log.len(), ops_before);
}

/// Malformed section bytes are a distinct error, and no register access is
/// made.
#[test]
fn malformed_bytes_are_reported_and_touch_nothing() {
    let mut gic = KvmGICv3::new(MemTransport::new(), 1).unwrap();
    gic.set_gicr_typers(vec![0]);
    let ops_before = gic.device().log.len();
    let mut snap = Snapshot::new("gic-v3");
    snap.add_data_section(SnapshotDataSection {
        id: "gic-v3-section".to_owned(),
        snapshot: vec![9, 9, 9],
    });
    let err = gic.restore(snap).unwrap_err();
    assert!(matches!(err, MigratableError::DeserializeFailed));
    assert_eq!(gic.device().log.len(), ops_before);
}

/// The two-phase setup protocol rejects every out-of-order call with an
/// error result.
#[test]
fn setup_protocol_rejects_out_of_order_calls() {
    let mut gic = KvmGICv3::create_device(MemTransport::new(), 1);
    let err = gic.finalize_device().unwrap_err();
    assert!(matches!(err, vgic::transport::Error::InvalidSetupOrder));
    gic.init_device_attributes().unwrap();
    let err = gic.init_device_attributes().unwrap_err();
    assert!(matches!(err, vgic::transport::Error::InvalidSetupOrder));
    gic.finalize_device().unwrap();
    let err = gic.finalize_device().unwrap_err();
    assert!(matches!(err, vgic::transport::Error::InvalidSetupOrder));
}

/// A failing ITS command-queue base write during restore is reported under
/// its own class.
#[test]
fn failing_its_cbaser_write_names_its_class() {
    let mut src = KvmGICv3ITS::new(MemTransport::new(), MemTransport::new(), 1).unwrap();
    src.set_gicr_typers(vec![0]);
    let snap = src.snapshot().unwrap();

    let mut itsd = MemTransport::new();
    itsd.arm_failure(vgic::transport::KVM_DEV_ARM_VGIC_GRP_ITS_REGS, 0x80);
    let mut gic = KvmGICv3ITS::new(MemTransport::new(), itsd, 1).unwrap();
    gic.set_gicr_typers(vec![0]);
    let err = gic.restore(snap).unwrap_err();
    assert!(matches!(
        err,
        MigratableError::Restore(GicError::Its(gicv3_its::Error::RestoreITSCBASER(_)))
    ));
}

/// A failing table reload during restore is reported under its own class.
#[test]
fn failing_table_reload_names_the_tables() {
    let mut src = KvmGICv3ITS::new(MemTransport::new(), MemTransport::new(), 1).unwrap();
    src.set_gicr_typers(vec![0]);
    let snap = src.snapshot().unwrap();

    let mut itsd = MemTransport::new();
    itsd.arm_failure(KVM_DEV_ARM_VGIC_GRP_CTRL, 2);
    let mut gic = KvmGICv3ITS::new(MemTransport::new(), itsd, 1).unwrap();
    gic.set_gicr_typers(vec![0]);
    let err = gic.restore(snap).unwrap_err();
    assert!(matches!(
        err,
        MigratableError::Restore(GicError::Its(gicv3_its::Error::RestoreITSTables(_)))
    ));
}

/// A failing ITS control-register read during capture is reported under the
/// save direction.
#[test]
fn failing_its_ctlr_read_names_save_class() {
    let mut itsd = MemTransport::new();
    itsd.arm_failure(vgic::transport::KVM_DEV_ARM_VGIC_GRP_ITS_REGS, 0x0);
    let mut gic = KvmGICv3ITS::new(MemTransport::new(), itsd, 1).unwrap();
    gic.set_gicr_typers(vec![0]);
    let err = gic.state().unwrap_err();
    assert!(matches!(err, gicv3_its::Error::SaveITSCTLR(_)));
}

/// The ITS variant reports a missing section distinctly and performs no
/// device operation.
#[test]
fn its_missing_section_is_reported_and_touches_nothing() {
    let mut gic = KvmGICv3ITS::new(MemTransport::new(), MemTransport::new(), 1).unwrap();
    gic.set_gicr_typers(vec![0]);
    let gic_ops = gic.device().log.len();
    let its_ops = gic.its_device().unwrap().log.len();
    let err = gic.restore(Snapshot::new("gic-v3-its")).unwrap_err();
    assert!(matches!(err, MigratableError::SectionNotFound));
    assert_eq!(gic.device().log.len(), gic_ops);
    assert_eq!(gic.its_device().unwrap().log.len(), its_ops);
}

/// The ITS variant reports malformed section bytes distinctly and performs
/// no device operation.
#[test]
fn its_malformed_bytes_are_reported_and_touch_nothing() {
    let mut gic = KvmGICv3ITS::new(MemTransport::new(), MemTransport::new(), 1).unwrap();
    gic.set_gicr_typers(vec![0]);
    let gic_ops = gic.device().log.len();
    let its_ops = gic.its_device().unwrap().log.len();
    let mut snap = Snapshot::new("gic-v3-its");
    snap.add_data_section(SnapshotDataSection {
        id: "gic-v3-its-section".to_owned(),
        snapshot: vec![2, 0, 0],
    });
    let err = gic.restore(snap).unwrap_err();
    assert!(matches!(err, MigratableError::DeserializeFailed));
    assert_eq!(gic.device().log.len(), gic_ops);
    assert_eq!(gic.its_device().unwrap().log.len(), its_ops);
}
